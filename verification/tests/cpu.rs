use robin_gb::cpu::decode::decode;
use robin_gb::cpu::decode::Instr;
use robin_gb::cpu::stack_pop;
use robin_gb::cpu::stack_push;
use robin_gb::cpu::Cpu;
use robin_gb::memory::Fault;
use robin_gb::memory::Memory;

fn cpu_test_memory(program: &[u8]) -> Memory {
    let mut rom = vec![0u8; 0x8000];
    rom[0x100..0x100 + program.len()].copy_from_slice(program);
    Memory::new(&rom).unwrap()
}

fn run_program(program: &[u8], steps: usize) -> (Cpu, Memory, Vec<u8>) {
    let mut memory = cpu_test_memory(program);
    let mut cpu = Cpu::new();
    cpu.registers.ime = false;
    let mut cycles = Vec::new();
    for _ in 0..steps {
        cycles.push(cpu.execute_next_instruction(&mut memory).unwrap());
    }
    (cpu, memory, cycles)
}

#[test]
fn every_opcode_decodes_by_its_fields() {
    assert_eq!(decode(0x00), Instr::Nop);
    assert_eq!(decode(0x08), Instr::StoreSp);
    assert_eq!(decode(0x10), Instr::Undefined);
    assert_eq!(decode(0x18), Instr::Jr);
    assert_eq!(decode(0x20), Instr::JrCond(0));
    assert_eq!(decode(0x38), Instr::JrCond(3));
    assert_eq!(decode(0x31), Instr::LoadPairImm(3));
    assert_eq!(decode(0x29), Instr::AddHl(2));
    assert_eq!(decode(0x22), Instr::StoreA(2));
    assert_eq!(decode(0x3a), Instr::LoadA(3));
    assert_eq!(decode(0x34), Instr::Inc(6));
    assert_eq!(decode(0x3d), Instr::Dec(7));
    assert_eq!(decode(0x27), Instr::Daa);
    assert_eq!(decode(0x76), Instr::Halt);
    assert_eq!(decode(0x41), Instr::Load(0, 1));
    assert_eq!(decode(0x7e), Instr::Load(7, 6));
    assert_eq!(decode(0xaf), Instr::Alu(5, 7));
    assert_eq!(decode(0xbe), Instr::Alu(7, 6));
    assert_eq!(decode(0xc9), Instr::Ret);
    assert_eq!(decode(0xd9), Instr::Reti);
    assert_eq!(decode(0xcb), Instr::Prefixed);
    assert_eq!(decode(0xcd), Instr::Call);
    assert_eq!(decode(0xf1), Instr::Pop(3));
    assert_eq!(decode(0xf5), Instr::Push(3));
    assert_eq!(decode(0xfe), Instr::AluImm(7));
    assert_eq!(decode(0xff), Instr::Rst(0x38));
    let undefined = [0x10u8, 0xd3, 0xdb, 0xdd, 0xe3, 0xe4, 0xeb, 0xec, 0xed, 0xf4, 0xfc, 0xfd];
    for opcode in 0u16..256 {
        let opcode = opcode as u8;
        assert_eq!(decode(opcode) == Instr::Undefined, undefined.contains(&opcode));
    }
}

#[test]
fn an_undefined_opcode_stops_the_processor_and_changes_nothing() {
    for opcode in [0x10u8, 0xd3, 0xdb, 0xdd, 0xe3, 0xe4, 0xeb, 0xec, 0xed, 0xf4, 0xfc, 0xfd] {
        let mut memory = cpu_test_memory(&[opcode]);
        let mut cpu = Cpu::new();
        let before = cpu;
        assert_eq!(
            cpu.execute_next_instruction(&mut memory),
            Err(Fault::UndefinedOpcode(opcode))
        );
        assert_eq!(cpu, before);
        assert_eq!(memory.read(0xff0f), 0xe1);
    }
}

#[test]
fn a_read_of_the_unmapped_range_stops_the_processor() {
    // LD A,(0xfea0)
    let mut memory = cpu_test_memory(&[0xfa, 0xa0, 0xfe]);
    let mut cpu = Cpu::new();
    let before = cpu;
    assert_eq!(cpu.execute_next_instruction(&mut memory), Err(Fault::ProhibitedRead(0xfea0)));
    assert_eq!(cpu, before);
    // LD A,(HL) with HL in the range
    let mut memory = cpu_test_memory(&[0x7e]);
    let mut cpu = Cpu::new();
    cpu.registers.set_hl(0xfeff);
    assert_eq!(cpu.execute_next_instruction(&mut memory), Err(Fault::ProhibitedRead(0xfeff)));
    // POP BC with SP just below the range
    let mut memory = cpu_test_memory(&[0xc1]);
    let mut cpu = Cpu::new();
    cpu.registers.sp = 0xfe9f;
    assert_eq!(cpu.execute_next_instruction(&mut memory), Err(Fault::ProhibitedRead(0xfea0)));
    assert_eq!(cpu.registers.sp, 0xfe9f);
    // The program counter itself
    let mut memory = cpu_test_memory(&[0x00]);
    let mut cpu = Cpu::new();
    cpu.registers.pc = 0xfeb0;
    assert_eq!(cpu.execute_next_instruction(&mut memory), Err(Fault::ProhibitedRead(0xfeb0)));
    // A store to the range is no fault.
    let mut memory = cpu_test_memory(&[0x77]);
    let mut cpu = Cpu::new();
    cpu.registers.set_hl(0xfea0);
    assert_eq!(cpu.execute_next_instruction(&mut memory), Ok(8));
}

#[test]
fn xor_a_clears_the_accumulator_and_sets_only_zero() {
    let (cpu, _, cycles) = run_program(&[0xaf], 1);
    assert_eq!(cpu.registers.a, 0x00);
    assert_eq!(cpu.registers.f, 0x80);
    assert_eq!(cpu.registers.pc, 0x0101);
    assert_eq!(cycles, vec![4]);
}

#[test]
fn loads_between_registers_and_memory() {
    // LD HL,0xc000; LD (HL),0x5a; LD B,(HL); LD C,B; LD A,C; LD (HL+),A; LD (HL-),A; LD D,H; LD E,L
    let program = [0x21, 0x00, 0xc0, 0x36, 0x5a, 0x46, 0x48, 0x79, 0x22, 0x32, 0x54, 0x5d];
    let (cpu, memory, cycles) = run_program(&program, 9);
    assert_eq!(cycles, vec![12, 12, 8, 4, 4, 8, 8, 4, 4]);
    assert_eq!(cpu.registers.a, 0x5a);
    assert_eq!(cpu.registers.b, 0x5a);
    assert_eq!(cpu.registers.c, 0x5a);
    assert_eq!(cpu.registers.hl(), 0xc000);
    assert_eq!(cpu.registers.de(), 0xc000);
    assert_eq!(memory.read(0xc000), 0x5a);
    assert_eq!(memory.read(0xc001), 0x5a);
    assert_eq!(cpu.registers.pc, 0x010c);
}

#[test]
fn high_page_and_absolute_loads() {
    // LD A,0x12; LDH (0x80),A; LD C,0x81; LD (C),A; LD A,0; LDH A,(0x80); LD (0xc100),A; LD A,(C); LD A,(0xc100)
    let program = [
        0x3e, 0x12, 0xe0, 0x80, 0x0e, 0x81, 0xe2, 0x3e, 0x00, 0xf0, 0x80, 0xea, 0x00, 0xc1, 0xf2,
        0xfa, 0x00, 0xc1,
    ];
    let (cpu, memory, cycles) = run_program(&program, 9);
    assert_eq!(cycles, vec![8, 12, 8, 8, 8, 12, 16, 8, 16]);
    assert_eq!(memory.read(0xff80), 0x12);
    assert_eq!(memory.read(0xff81), 0x12);
    assert_eq!(memory.read(0xc100), 0x12);
    assert_eq!(cpu.registers.a, 0x12);
    assert_eq!(cpu.registers.pc, 0x0112);
}

#[test]
fn jumps_calls_and_returns() {
    // 0x100: JP 0x0110
    // 0x110: CALL 0x0120
    // 0x113: JR +2
    // 0x117: RST 0x28
    // 0x120: RET
    let mut program = vec![0u8; 0x30];
    program[0x00..0x03].copy_from_slice(&[0xc3, 0x10, 0x01]);
    program[0x10..0x13].copy_from_slice(&[0xcd, 0x20, 0x01]);
    program[0x13..0x15].copy_from_slice(&[0x18, 0x02]);
    program[0x17] = 0xef;
    program[0x20] = 0xc9;
    let mut memory = cpu_test_memory(&program);
    let mut cpu = Cpu::new();
    cpu.registers.ime = false;
    assert_eq!(cpu.execute_next_instruction(&mut memory), Ok(16));
    assert_eq!(cpu.registers.pc, 0x0110);
    assert_eq!(cpu.execute_next_instruction(&mut memory), Ok(24));
    assert_eq!(cpu.registers.pc, 0x0120);
    assert_eq!(cpu.registers.sp, 0xfffc);
    assert_eq!(memory.read_u16(0xfffc), 0x0113);
    assert_eq!(cpu.execute_next_instruction(&mut memory), Ok(16));
    assert_eq!(cpu.registers.pc, 0x0113);
    assert_eq!(cpu.registers.sp, 0xfffe);
    assert_eq!(cpu.execute_next_instruction(&mut memory), Ok(12));
    assert_eq!(cpu.registers.pc, 0x0117);
    assert_eq!(cpu.execute_next_instruction(&mut memory), Ok(16));
    assert_eq!(cpu.registers.pc, 0x0028);
    assert_eq!(memory.read_u16(0xfffc), 0x0118);
}

#[test]
fn conditional_branches_cost_less_when_not_taken() {
    // XOR A (Z set); JR NZ,+5; JR Z,-2
    let mut memory = cpu_test_memory(&[0xaf, 0x20, 0x05, 0x28, 0xfe]);
    let mut cpu = Cpu::new();
    cpu.registers.ime = false;
    cpu.execute_next_instruction(&mut memory).unwrap();
    assert_eq!(cpu.execute_next_instruction(&mut memory), Ok(8));
    assert_eq!(cpu.registers.pc, 0x0103);
    assert_eq!(cpu.execute_next_instruction(&mut memory), Ok(12));
    assert_eq!(cpu.registers.pc, 0x0103);
    // JP C / CALL NC / RET NC with the carry clear
    let mut memory = cpu_test_memory(&[0xda, 0x00, 0x02, 0xd4, 0x10, 0x01]);
    let mut cpu = Cpu::new();
    cpu.registers.ime = false;
    cpu.registers.f = 0x00;
    assert_eq!(cpu.execute_next_instruction(&mut memory), Ok(12));
    assert_eq!(cpu.registers.pc, 0x0103);
    assert_eq!(cpu.execute_next_instruction(&mut memory), Ok(24));
    assert_eq!(cpu.registers.pc, 0x0110);
    let mut memory = cpu_test_memory(&[0xd8, 0xd0]);
    let mut cpu = Cpu::new();
    cpu.registers.ime = false;
    cpu.registers.f = 0x00;
    cpu.registers.sp = 0xc000;
    memory.write_u16(0xc000, 0x0150);
    assert_eq!(cpu.execute_next_instruction(&mut memory), Ok(8));
    assert_eq!(cpu.registers.pc, 0x0101);
    assert_eq!(cpu.execute_next_instruction(&mut memory), Ok(20));
    assert_eq!(cpu.registers.pc, 0x0150);
    assert_eq!(cpu.registers.sp, 0xc002);
}

#[test]
fn push_and_pop_keep_the_low_bits_of_the_flags_clear() {
    // LD BC,0x12ff; PUSH BC; POP AF; PUSH AF; POP DE
    let (cpu, _, cycles) = run_program(&[0x01, 0xff, 0x12, 0xc5, 0xf1, 0xf5, 0xd1], 5);
    assert_eq!(cycles, vec![12, 16, 12, 16, 12]);
    assert_eq!(cpu.registers.a, 0x12);
    assert_eq!(cpu.registers.f, 0xf0);
    assert_eq!(cpu.registers.de(), 0x12f0);
    assert_eq!(cpu.registers.sp, 0xfffe);
}

#[test]
fn the_stack_grows_downwards() {
    let mut memory = cpu_test_memory(&[]);
    let mut sp = 0xd000u16;
    stack_push(0xbeef, &mut sp, &mut memory);
    assert_eq!(sp, 0xcffe);
    assert_eq!(memory.read(0xcffe), 0xef);
    assert_eq!(memory.read(0xcfff), 0xbe);
    assert_eq!(stack_pop(&mut sp, &memory), 0xbeef);
    assert_eq!(sp, 0xd000);
    let mut sp = 0x0001u16;
    stack_push(0x1234, &mut sp, &mut memory);
    assert_eq!(sp, 0xffff);
}

#[test]
fn arithmetic_through_the_processor() {
    // LD A,0x3c; ADD A,0xc4 -> 0x00 Z H C; ADC A,0x0f -> 0x10 H; SUB 0x11 -> 0xff N H C;
    // SBC A,0xfe -> 0x00 Z N; CP 0x01 -> N H C; AND 0x0f; OR 0x80; XOR 0xff
    let program = [
        0x3e, 0x3c, 0xc6, 0xc4, 0xce, 0x0f, 0xd6, 0x11, 0xde, 0xfe, 0xfe, 0x01, 0xe6, 0x0f, 0xf6,
        0x80, 0xee, 0xff,
    ];
    let mut memory = cpu_test_memory(&program);
    let mut cpu = Cpu::new();
    cpu.registers.ime = false;
    let mut results = Vec::new();
    for _ in 0..9 {
        let cycles = cpu.execute_next_instruction(&mut memory).unwrap();
        results.push((cpu.registers.a, cpu.registers.f, cycles));
    }
    assert_eq!(
        results,
        vec![
            (0x3c, 0xb0, 8),
            (0x00, 0xb0, 8),
            (0x10, 0x20, 8),
            (0xff, 0x70, 8),
            (0x00, 0xc0, 8),
            (0x00, 0x70, 8),
            (0x00, 0xa0, 8),
            (0x80, 0x00, 8),
            (0x7f, 0x00, 4),
        ]
    );
}

#[test]
fn register_and_memory_operands_of_the_arithmetic_group() {
    // LD HL,0xc000; LD (HL),0x01; LD A,0xff; ADD A,(HL); INC (HL); ADD A,(HL); DEC (HL); LD B,3; SUB B
    let program = [
        0x21, 0x00, 0xc0, 0x36, 0x01, 0x3e, 0xff, 0x86, 0x34, 0x86, 0x35, 0x06, 0x03, 0x90,
    ];
    let (cpu, memory, cycles) = run_program(&program, 9);
    assert_eq!(cycles, vec![12, 12, 8, 8, 12, 8, 12, 8, 4]);
    assert_eq!(memory.read(0xc000), 0x01);
    assert_eq!(cpu.registers.a, 0xff);
    assert_eq!(cpu.registers.f, 0x70);
}

#[test]
fn sixteen_bit_arithmetic_and_the_stack_pointer() {
    // LD HL,0x8a23; LD BC,0x0605; ADD HL,BC; INC BC; DEC HL; LD SP,0xfff8; ADD SP,+8;
    // LD HL,SP-1; LD SP,HL; LD (0xc000),SP
    let program = [
        0x21, 0x23, 0x8a, 0x01, 0x05, 0x06, 0x09, 0x03, 0x2b, 0x31, 0xf8, 0xff, 0xe8, 0x08, 0xf8,
        0xff, 0xf9, 0x08, 0x00, 0xc0,
    ];
    let mut memory = cpu_test_memory(&program);
    let mut cpu = Cpu::new();
    cpu.registers.ime = false;
    cpu.registers.f = 0x80;
    let mut cycles = Vec::new();
    for _ in 0..3 {
        cycles.push(cpu.execute_next_instruction(&mut memory).unwrap());
    }
    assert_eq!(cpu.registers.hl(), 0x9028);
    assert_eq!(cpu.registers.f, 0xa0);
    for _ in 0..4 {
        cycles.push(cpu.execute_next_instruction(&mut memory).unwrap());
    }
    assert_eq!(cpu.registers.bc(), 0x0606);
    assert_eq!(cpu.registers.hl(), 0x9027);
    assert_eq!(cpu.registers.sp, 0x0000);
    assert_eq!(cpu.registers.f, 0x30);
    cycles.push(cpu.execute_next_instruction(&mut memory).unwrap());
    assert_eq!(cpu.registers.hl(), 0xffff);
    assert_eq!(cpu.registers.f, 0x00);
    for _ in 0..2 {
        cycles.push(cpu.execute_next_instruction(&mut memory).unwrap());
    }
    assert_eq!(cpu.registers.sp, 0xffff);
    assert_eq!(memory.read_u16(0xc000), 0xffff);
    assert_eq!(cycles, vec![12, 12, 8, 8, 8, 12, 16, 12, 8, 20]);
}

#[test]
fn accumulator_rotations_clear_the_zero_flag() {
    // LD A,0x80; RLCA; RLA; RRCA; RRA
    let mut memory = cpu_test_memory(&[0x3e, 0x80, 0x07, 0x17, 0x0f, 0x1f]);
    let mut cpu = Cpu::new();
    cpu.registers.ime = false;
    cpu.registers.f = 0x00;
    let mut results = Vec::new();
    for _ in 0..5 {
        cpu.execute_next_instruction(&mut memory).unwrap();
        results.push((cpu.registers.a, cpu.registers.f));
    }
    assert_eq!(
        results,
        vec![(0x80, 0x00), (0x01, 0x10), (0x03, 0x00), (0x81, 0x10), (0xc0, 0x10)]
    );
}

#[test]
fn decimal_adjustment_and_the_flag_instructions() {
    // LD A,0x15; ADD A,0x27; DAA; SUB 0x05; DAA; CPL; SCF; CCF
    let program = [0x3e, 0x15, 0xc6, 0x27, 0x27, 0xd6, 0x05, 0x27, 0x2f, 0x37, 0x3f];
    let mut memory = cpu_test_memory(&program);
    let mut cpu = Cpu::new();
    cpu.registers.ime = false;
    let mut results = Vec::new();
    for _ in 0..8 {
        cpu.execute_next_instruction(&mut memory).unwrap();
        results.push((cpu.registers.a, cpu.registers.f));
    }
    assert_eq!(
        results,
        vec![
            (0x15, 0xb0),
            (0x3c, 0x00),
            (0x42, 0x00),
            (0x3d, 0x60),
            (0x37, 0x40),
            (0xc8, 0x60),
            (0xc8, 0x10),
            (0xc8, 0x00),
        ]
    );
}

#[test]
fn the_extended_table_through_the_processor() {
    // LD HL,0xc000; LD (HL),0x81; RLC (HL); BIT 7,(HL); SET 7,(HL); RES 0,(HL); SWAP A
    let program = [
        0x21, 0x00, 0xc0, 0x36, 0x81, 0xcb, 0x06, 0xcb, 0x7e, 0xcb, 0xfe, 0xcb, 0x86, 0xcb, 0x37,
    ];
    let mut memory = cpu_test_memory(&program);
    let mut cpu = Cpu::new();
    cpu.registers.ime = false;
    cpu.registers.a = 0x12;
    let mut results = Vec::new();
    for _ in 0..7 {
        let cycles = cpu.execute_next_instruction(&mut memory).unwrap();
        results.push((memory.read(0xc000), cpu.registers.f, cycles, cpu.registers.pc));
    }
    assert_eq!(
        results,
        vec![
            (0x00, 0xb0, 12, 0x103),
            (0x81, 0xb0, 12, 0x105),
            (0x03, 0x10, 16, 0x107),
            (0x03, 0xb0, 16, 0x109),
            (0x83, 0xb0, 16, 0x10b),
            (0x82, 0xb0, 16, 0x10d),
            (0x82, 0x00, 8, 0x10f),
        ]
    );
    assert_eq!(cpu.registers.a, 0x21);
}

#[test]
fn interrupts_are_served_in_priority_order() {
    let vectors = [(0x01u8, 0x0040u16), (0x02, 0x0048), (0x04, 0x0050), (0x08, 0x0058), (0x10, 0x0060)];
    for (index, (flag, vector)) in vectors.iter().enumerate() {
        let mut memory = cpu_test_memory(&[0x00]);
        let mut cpu = Cpu::new();
        // This source and all of lower priority are pending.
        let pending: u8 = (0x1f << index) & 0x1f;
        *memory.direct_access(0xff0f) = 0xe0 | pending;
        memory.write(0xffff, 0xff);
        assert_eq!(cpu.execute_next_instruction(&mut memory), Ok(4));
        assert_eq!(cpu.registers.pc, *vector);
        assert!(!cpu.registers.ime);
        assert_eq!(cpu.registers.sp, 0xfffc);
        assert_eq!(memory.read_u16(0xfffc), 0x0101);
        assert_eq!(memory.read(0xff0f), 0xe0 | (pending & !flag));
    }
}

#[test]
fn interrupts_wait_for_the_master_enable_and_the_mask() {
    // DI; NOP; EI; NOP
    let mut memory = cpu_test_memory(&[0xf3, 0x00, 0xfb, 0x00]);
    let mut cpu = Cpu::new();
    *memory.direct_access(0xff0f) = 0xe4;
    memory.write(0xffff, 0x00);
    assert_eq!(cpu.execute_next_instruction(&mut memory), Ok(4));
    assert!(!cpu.registers.ime);
    memory.write(0xffff, 0x04);
    cpu.execute_next_instruction(&mut memory).unwrap();
    assert_eq!(cpu.registers.pc, 0x0102);
    assert_eq!(memory.read(0xff0f), 0xe4);
    cpu.execute_next_instruction(&mut memory).unwrap();
    assert_eq!(cpu.registers.pc, 0x0050);
    assert_eq!(memory.read(0xff0f), 0xe0);
    assert_eq!(memory.read_u16(0xfffc), 0x0103);
    // The three unused bits of the request register are no source.
    let mut memory = cpu_test_memory(&[0x00]);
    let mut cpu = Cpu::new();
    *memory.direct_access(0xff0f) = 0xe0;
    memory.write(0xffff, 0xff);
    cpu.execute_next_instruction(&mut memory).unwrap();
    assert_eq!(cpu.registers.pc, 0x0101);
    assert!(cpu.registers.ime);
}

#[test]
fn halt_waits_four_cycles_a_step_until_a_request() {
    // HALT; INC A
    let mut memory = cpu_test_memory(&[0x76, 0x3c]);
    let mut cpu = Cpu::new();
    *memory.direct_access(0xff0f) = 0xe0;
    memory.write(0xffff, 0x01);
    assert_eq!(cpu.execute_next_instruction(&mut memory), Ok(4));
    assert!(cpu.is_halted);
    assert_eq!(cpu.registers.pc, 0x0101);
    for _ in 0..10 {
        assert_eq!(cpu.execute_next_instruction(&mut memory), Ok(4));
        assert!(cpu.is_halted);
        assert_eq!(cpu.registers.pc, 0x0101);
    }
    *memory.direct_access(0xff0f) = 0xe1;
    assert_eq!(cpu.execute_next_instruction(&mut memory), Ok(4));
    assert!(!cpu.is_halted);
    assert_eq!(cpu.registers.pc, 0x0040);
    // With interrupts disabled HALT does not halt.
    let mut memory = cpu_test_memory(&[0x76, 0x3c]);
    let mut cpu = Cpu::new();
    cpu.registers.ime = false;
    cpu.execute_next_instruction(&mut memory).unwrap();
    assert!(!cpu.is_halted);
    cpu.execute_next_instruction(&mut memory).unwrap();
    assert_eq!(cpu.registers.a, 0x02);
    // A halted processor with interrupts disabled wakes without serving.
    let mut memory = cpu_test_memory(&[0x00, 0x3c]);
    let mut cpu = Cpu::new();
    cpu.is_halted = true;
    cpu.registers.ime = false;
    *memory.direct_access(0xff0f) = 0xe4;
    memory.write(0xffff, 0x04);
    assert_eq!(cpu.execute_next_instruction(&mut memory), Ok(4));
    assert!(!cpu.is_halted);
    assert_eq!(cpu.registers.pc, 0x0100);
    assert_eq!(memory.read(0xff0f), 0xe4);
}

#[test]
fn return_from_interrupt_enables_interrupts() {
    let mut memory = cpu_test_memory(&[0xd9]);
    let mut cpu = Cpu::new();
    cpu.registers.ime = false;
    cpu.registers.sp = 0xc000;
    memory.write_u16(0xc000, 0x0234);
    *memory.direct_access(0xff0f) = 0xe0;
    assert_eq!(cpu.execute_next_instruction(&mut memory), Ok(16));
    assert_eq!(cpu.registers.pc, 0x0234);
    assert!(cpu.registers.ime);
    assert_eq!(cpu.registers.sp, 0xc002);
}

#[test]
fn fetch_reads_the_instruction_with_its_immediate_and_operand() {
    let mut memory = cpu_test_memory(&[0xfa, 0x00, 0xc0]);
    memory.write(0xc000, 0x77);
    let cpu = Cpu::new();
    let fetched = cpu.fetch(&memory).unwrap();
    assert_eq!(fetched.instr, Instr::LoadAbs);
    assert_eq!(fetched.immediate, 0xc000);
    assert_eq!(fetched.operand, 0x77);
}
