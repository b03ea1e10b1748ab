use robin_gb::cpu::instructions::cb::apply_extended;
use robin_gb::cpu::instructions::cb::bit;
use robin_gb::cpu::instructions::cb::execute_cb_instruction;
use robin_gb::cpu::instructions::cb::get_bit_index_from_immediate_byte;
use robin_gb::cpu::instructions::cb::res;
use robin_gb::cpu::instructions::cb::rl;
use robin_gb::cpu::instructions::cb::rlc;
use robin_gb::cpu::instructions::cb::rr;
use robin_gb::cpu::instructions::cb::rrc;
use robin_gb::cpu::instructions::cb::sla;
use robin_gb::cpu::instructions::cb::sra;
use robin_gb::cpu::instructions::cb::srl;
use robin_gb::cpu::instructions::cb::swap;
use robin_gb::cpu::Registers;
use robin_gb::memory::Memory;

#[test]
fn test_get_bit_index_from_immediate_byte() {
    assert_eq!(get_bit_index_from_immediate_byte(0x40), 0);
    assert_eq!(get_bit_index_from_immediate_byte(0x47), 0);
    assert_eq!(get_bit_index_from_immediate_byte(0x48), 1);
    assert_eq!(get_bit_index_from_immediate_byte(0x4f), 1);
    assert_eq!(get_bit_index_from_immediate_byte(0x50), 2);
    assert_eq!(get_bit_index_from_immediate_byte(0x57), 2);
    assert_eq!(get_bit_index_from_immediate_byte(0x58), 3);
    assert_eq!(get_bit_index_from_immediate_byte(0x5f), 3);
    assert_eq!(get_bit_index_from_immediate_byte(0x60), 4);
    assert_eq!(get_bit_index_from_immediate_byte(0x67), 4);
    assert_eq!(get_bit_index_from_immediate_byte(0x68), 5);
    assert_eq!(get_bit_index_from_immediate_byte(0x6f), 5);
    assert_eq!(get_bit_index_from_immediate_byte(0x70), 6);
    assert_eq!(get_bit_index_from_immediate_byte(0x77), 6);
    assert_eq!(get_bit_index_from_immediate_byte(0x78), 7);
    assert_eq!(get_bit_index_from_immediate_byte(0x7f), 7);
    assert_eq!(get_bit_index_from_immediate_byte(0x80), 0);
    assert_eq!(get_bit_index_from_immediate_byte(0x87), 0);
    assert_eq!(get_bit_index_from_immediate_byte(0x88), 1);
    assert_eq!(get_bit_index_from_immediate_byte(0x8f), 1);
    assert_eq!(get_bit_index_from_immediate_byte(0x90), 2);
    assert_eq!(get_bit_index_from_immediate_byte(0x97), 2);
    assert_eq!(get_bit_index_from_immediate_byte(0x98), 3);
    assert_eq!(get_bit_index_from_immediate_byte(0x9f), 3);
    assert_eq!(get_bit_index_from_immediate_byte(0xa0), 4);
    assert_eq!(get_bit_index_from_immediate_byte(0xa7), 4);
    assert_eq!(get_bit_index_from_immediate_byte(0xa8), 5);
    assert_eq!(get_bit_index_from_immediate_byte(0xaf), 5);
    assert_eq!(get_bit_index_from_immediate_byte(0xb0), 6);
    assert_eq!(get_bit_index_from_immediate_byte(0xb7), 6);
    assert_eq!(get_bit_index_from_immediate_byte(0xb8), 7);
    assert_eq!(get_bit_index_from_immediate_byte(0xbf), 7);
    assert_eq!(get_bit_index_from_immediate_byte(0xc0), 0);
    assert_eq!(get_bit_index_from_immediate_byte(0xc7), 0);
    assert_eq!(get_bit_index_from_immediate_byte(0xc8), 1);
    assert_eq!(get_bit_index_from_immediate_byte(0xcf), 1);
    assert_eq!(get_bit_index_from_immediate_byte(0xd0), 2);
    assert_eq!(get_bit_index_from_immediate_byte(0xd7), 2);
    assert_eq!(get_bit_index_from_immediate_byte(0xd8), 3);
    assert_eq!(get_bit_index_from_immediate_byte(0xdf), 3);
    assert_eq!(get_bit_index_from_immediate_byte(0xe0), 4);
    assert_eq!(get_bit_index_from_immediate_byte(0xe7), 4);
    assert_eq!(get_bit_index_from_immediate_byte(0xe8), 5);
    assert_eq!(get_bit_index_from_immediate_byte(0xef), 5);
    assert_eq!(get_bit_index_from_immediate_byte(0xf0), 6);
    assert_eq!(get_bit_index_from_immediate_byte(0xf7), 6);
    assert_eq!(get_bit_index_from_immediate_byte(0xf8), 7);
    assert_eq!(get_bit_index_from_immediate_byte(0xff), 7);
}

#[test]
fn test_rl_instruction() {
    let mut byte_to_rotate = 0;
    let flag_diff = rl(&mut byte_to_rotate, false);
    assert_eq!(byte_to_rotate, 0);
    assert_eq!(flag_diff.z, Some(true));
    assert_eq!(flag_diff.n, Some(false));
    assert_eq!(flag_diff.h, Some(false));
    assert_eq!(flag_diff.c, Some(false));

    let mut byte_to_rotate = 0b01000001;
    let flag_diff = rl(&mut byte_to_rotate, true);
    assert_eq!(byte_to_rotate, 0b10000011);
    assert_eq!(flag_diff.z, Some(false));
    assert_eq!(flag_diff.n, Some(false));
    assert_eq!(flag_diff.h, Some(false));
    assert_eq!(flag_diff.c, Some(false));

    let mut byte_to_rotate = 0b10000001;
    let flag_diff = rl(&mut byte_to_rotate, false);
    assert_eq!(byte_to_rotate, 0b00000010);
    assert_eq!(flag_diff.z, Some(false));
    assert_eq!(flag_diff.n, Some(false));
    assert_eq!(flag_diff.h, Some(false));
    assert_eq!(flag_diff.c, Some(true));

    let mut byte_to_rotate = 0b10000001;
    let flag_diff = rl(&mut byte_to_rotate, true);
    assert_eq!(byte_to_rotate, 0b00000011);
    assert_eq!(flag_diff.z, Some(false));
    assert_eq!(flag_diff.n, Some(false));
    assert_eq!(flag_diff.h, Some(false));
    assert_eq!(flag_diff.c, Some(true));
}

#[test]
fn test_srl_instruction() {
    for immediate_byte in 0..=0xff {
        let mut mutated_immediate_byte = immediate_byte;
        let flag_diff = srl(&mut mutated_immediate_byte);
        assert_eq!(mutated_immediate_byte, immediate_byte >> 1);
        assert_eq!(flag_diff.z, Some(immediate_byte & 0b11111110 == 0));
        assert_eq!(flag_diff.z, Some(mutated_immediate_byte == 0));
        assert_eq!(flag_diff.h, Some(false));
        assert_eq!(flag_diff.n, Some(false));
        assert_eq!(flag_diff.c, Some(immediate_byte & 0b00000001 != 0));
    }
}

#[test]
fn test_bit_instruction() {
    // Test n, h, and c flags.
    // These flags should be the same for all calls to bit(...).
    let bit_outer = |bit_index, byte_to_check| {
        let flag_diff = bit(byte_to_check, bit_index);

        assert_eq!(flag_diff.n, Some(false));
        assert_eq!(flag_diff.h, Some(true));
        assert_eq!(flag_diff.c, None);
        flag_diff
    };

    // Test z flag.
    assert_eq!(bit_outer(0, 0b11111111).z, Some(false));
    assert_eq!(bit_outer(0, 0b11111110).z, Some(true));
    assert_eq!(bit_outer(0, 0b00000000).z, Some(true));

    assert_eq!(bit_outer(1, 0b11111111).z, Some(false));
    assert_eq!(bit_outer(1, 0b11111101).z, Some(true));
    assert_eq!(bit_outer(1, 0b00000000).z, Some(true));

    assert_eq!(bit_outer(2, 0b11111111).z, Some(false));
    assert_eq!(bit_outer(2, 0b11111011).z, Some(true));
    assert_eq!(bit_outer(2, 0b00000000).z, Some(true));

    assert_eq!(bit_outer(3, 0b11111111).z, Some(false));
    assert_eq!(bit_outer(3, 0b11110111).z, Some(true));
    assert_eq!(bit_outer(3, 0b00000000).z, Some(true));

    assert_eq!(bit_outer(4, 0b11111111).z, Some(false));
    assert_eq!(bit_outer(4, 0b11101111).z, Some(true));
    assert_eq!(bit_outer(4, 0b00000000).z, Some(true));

    assert_eq!(bit_outer(5, 0b11111111).z, Some(false));
    assert_eq!(bit_outer(5, 0b11011111).z, Some(true));
    assert_eq!(bit_outer(5, 0b00000000).z, Some(true));

    assert_eq!(bit_outer(6, 0b11111111).z, Some(false));
    assert_eq!(bit_outer(6, 0b10111111).z, Some(true));
    assert_eq!(bit_outer(6, 0b00000000).z, Some(true));

    assert_eq!(bit_outer(7, 0b11111111).z, Some(false));
    assert_eq!(bit_outer(7, 0b01111111).z, Some(true));
    assert_eq!(bit_outer(7, 0b00000000).z, Some(true));
}

#[test]
fn extended_opcodes_decode_to_bit_and_operand() {
    let mut seen = vec![false; 256];
    for group in 0u8..4 {
        for bit_index in 0u8..8 {
            for operand in 0u8..8 {
                let opcode = 64 * group + 8 * bit_index + operand;
                assert_eq!(get_bit_index_from_immediate_byte(opcode), bit_index);
                assert_eq!(opcode & 0x07, operand);
                assert!(!seen[opcode as usize]);
                seen[opcode as usize] = true;
            }
        }
    }
    assert!(seen.iter().all(|s| *s));
    // 0x40 tests bit 0 of B and 0x7f tests bit 7 of A.
    assert_eq!(apply_extended(0x40, 0x01, false).1.z, Some(false));
    assert_eq!(apply_extended(0x40, 0xfe, false).1.z, Some(true));
    assert_eq!(apply_extended(0x7f, 0x80, false).1.z, Some(false));
    assert_eq!(apply_extended(0x7f, 0x7f, false).1.z, Some(true));
}

#[test]
fn rotations_and_shifts_give_the_documented_results() {
    let mut v = 0x85;
    let f = rlc(&mut v);
    assert_eq!((v, f.z, f.c), (0x0b, Some(false), Some(true)));
    let mut v = 0x01;
    let f = rrc(&mut v);
    assert_eq!((v, f.c), (0x80, Some(true)));
    let mut v = 0x01;
    let f = rr(&mut v, false);
    assert_eq!((v, f.z, f.c), (0x00, Some(true), Some(true)));
    let mut v = 0x02;
    let f = rr(&mut v, true);
    assert_eq!((v, f.c), (0x81, Some(false)));
    let mut v = 0xc1;
    let f = sla(&mut v);
    assert_eq!((v, f.c), (0x82, Some(true)));
    let mut v = 0x81;
    let f = sra(&mut v);
    assert_eq!((v, f.c), (0xc0, Some(true)));
    let mut v = 0x7e;
    let f = sra(&mut v);
    assert_eq!((v, f.c), (0x3f, Some(false)));
    let mut v = 0xa5;
    let f = swap(&mut v);
    assert_eq!((v, f.z, f.c), (0x5a, Some(false), Some(false)));
    let mut v = 0x00;
    let f = swap(&mut v);
    assert_eq!((v, f.z), (0x00, Some(true)));
}

#[test]
fn res_and_set_change_one_bit_and_no_flag() {
    for index in 0u8..8 {
        for byte in 0u16..256 {
            let byte = byte as u8;
            let mut cleared = byte;
            let f = res(&mut cleared, index);
            assert_eq!(cleared, byte & !(1 << index));
            assert_eq!((f.z, f.n, f.h, f.c), (None, None, None, None));
            let mut raised = byte;
            let f = robin_gb::cpu::instructions::cb::set(&mut raised, index);
            assert_eq!(raised, byte | (1 << index));
            assert_eq!((f.z, f.n, f.h, f.c), (None, None, None, None));
        }
    }
}

fn cb_test_rom() -> Vec<u8> {
    vec![0u8; 0x8000]
}

#[test]
fn extended_instruction_on_memory_operand_takes_sixteen_cycles() {
    let mut rom = cb_test_rom();
    rom[0x100] = 0xcb;
    rom[0x101] = 0xc6; // SET 0,(HL)
    let mut memory = Memory::new(&rom).unwrap();
    let mut registers = Registers::new();
    registers.set_hl(0xc123);
    let diff = execute_cb_instruction(&mut registers, &mut memory);
    assert_eq!(diff.cycles, 16);
    assert_eq!(diff.pc_delta, 2);
    assert_eq!(memory.read(0xc123), 0x01);
    assert_eq!(memory.read(0xe123), 0x01);
}

#[test]
fn extended_instruction_on_register_takes_eight_cycles() {
    let mut rom = cb_test_rom();
    rom[0x100] = 0xcb;
    rom[0x101] = 0x37; // SWAP A
    let mut memory = Memory::new(&rom).unwrap();
    let mut registers = Registers::new();
    registers.a = 0xf1;
    let diff = execute_cb_instruction(&mut registers, &mut memory);
    assert_eq!(diff.cycles, 8);
    assert_eq!(registers.a, 0x1f);
    assert_eq!(diff.flag_diff.z, Some(false));
}

#[test]
fn bit_test_on_memory_leaves_memory_alone() {
    let mut rom = cb_test_rom();
    rom[0x100] = 0xcb;
    rom[0x101] = 0x46; // BIT 0,(HL)
    let mut memory = Memory::new(&rom).unwrap();
    memory.write(0xff02, 0x00);
    let mut registers = Registers::new();
    registers.set_hl(0xff46);
    *memory.direct_access(0xfe00) = 0x55;
    let diff = execute_cb_instruction(&mut registers, &mut memory);
    assert_eq!(diff.cycles, 16);
    // A write to 0xff46 would have started a transfer over the table.
    assert_eq!(memory.read(0xfe00), 0x55);
    assert_eq!(diff.flag_diff.c, None);
}
