//! What each instruction does, as a function from the state before it to
//! the state after it.

use vstd::prelude::*;
use crate::address;
use crate::bits::low_byte;
use crate::bits::signed_value;
use crate::cpu::decode::decode_spec;
use crate::cpu::decode::Instr;
use crate::cpu::flag_is_set;
use crate::cpu::instructions::add_half_carry;
use crate::cpu::instructions::addition16_flags;
use crate::cpu::instructions::addition_flags;
use crate::cpu::instructions::carry_in;
use crate::cpu::instructions::cb::extended_diff;
use crate::cpu::instructions::cb::extended_memory;
use crate::cpu::instructions::cb::extended_registers;
use crate::cpu::instructions::cb::low_bit;
use crate::cpu::instructions::cb::operand_code_of;
use crate::cpu::instructions::cb::shifted_left;
use crate::cpu::instructions::cb::shifted_right;
use crate::cpu::instructions::cb::top_bit;
use crate::cpu::instructions::difference8;
use crate::cpu::instructions::sub_half_carry;
use crate::cpu::instructions::subtraction_flags;
use crate::cpu::instructions::sum8;
use crate::cpu::instructions::CpuDiff;
use crate::cpu::instructions::FlagDiff;
use crate::cpu::memory_after_operand_write;
use crate::cpu::registers_after_operand_write;
use crate::cpu::with_flags;
use crate::cpu::Cpu;
use crate::cpu::Registers;
use crate::cpu::FLAG_CARRY;
use crate::cpu::FLAG_HALFCARRY;
use crate::cpu::FLAG_SUBTRACTION;
use crate::cpu::FLAG_ZERO;
use crate::interrupt;
use crate::memory::checked_read_spec;
use crate::memory::checked_read_u16_spec;
use crate::memory::Fault;
use crate::memory::MemoryModel;

verus! {

/// Where the operand of an instruction comes from.
pub enum Source {
    /// The instruction reads no operand.
    Nothing,
    /// The register with this code.
    Register(u8),
    /// The byte in memory at this address.
    Byte(u16),
    /// The word in memory at this address.
    Word(u16),
}

/// An instruction with all that it reads before it acts.
#[derive(Clone, Copy, Debug, PartialEq, Eq, Structural)]
pub struct Fetched {
    pub instr: Instr,
    /// The bytes that follow the opcode, as one number; zero where none do.
    pub immediate: u16,
    /// The value of the operand; zero where there is none.
    pub operand: u16,
}

/// The state after an instruction has acted, before the program counter has
/// moved and the flags have changed.
pub struct Effect {
    pub registers: Registers,
    pub is_halted: bool,
    pub memory: MemoryModel,
    pub diff: CpuDiff,
}

/// The state after one step of the processor, and the cycles it took.
pub struct Stepped {
    pub cpu: Cpu,
    pub memory: MemoryModel,
    pub cycles: u8,
}

/// The number of bytes that follow the opcode.
pub open spec fn immediate_length(instr: Instr) -> int {
    match instr {
        Instr::StoreSp
        | Instr::LoadPairImm(_)
        | Instr::JpCond(_)
        | Instr::Jp
        | Instr::CallCond(_)
        | Instr::Call
        | Instr::StoreAbs
        | Instr::LoadAbs => 2,
        Instr::Jr
        | Instr::JrCond(_)
        | Instr::LoadImm(_)
        | Instr::AluImm(_)
        | Instr::StoreHigh
        | Instr::LoadHigh
        | Instr::AddSp
        | Instr::LoadHlSp
        | Instr::Prefixed => 1,
        _ => 0,
    }
}

/// The bytes that follow the opcode at `pc`, or the fault of reading them.
pub open spec fn immediate_spec(instr: Instr, pc: u16, m: MemoryModel) -> Result<u16, Fault> {
    if immediate_length(instr) == 2 {
        checked_read_u16_spec(m, pc.wrapping_add(1))
    } else if immediate_length(instr) == 1 {
        match checked_read_spec(m, pc.wrapping_add(1)) {
            Ok(byte) => Ok(byte as u16),
            Err(fault) => Err(fault),
        }
    } else {
        Ok(0)
    }
}

/// Whether a condition code holds of the flags: not-zero, zero, not-carry,
/// carry.
pub open spec fn condition_holds(condition: u8, f: u8) -> bool {
    if condition == 0 {
        !flag_is_set(f, FLAG_ZERO)
    } else if condition == 1 {
        flag_is_set(f, FLAG_ZERO)
    } else if condition == 2 {
        !flag_is_set(f, FLAG_CARRY)
    } else {
        flag_is_set(f, FLAG_CARRY)
    }
}

/// The pair that a code names: BC, DE, HL, SP.
pub open spec fn pair_value(r: Registers, pair: u8) -> u16 {
    if pair == 0 {
        r.bc_spec()
    } else if pair == 1 {
        r.de_spec()
    } else if pair == 2 {
        r.hl_spec()
    } else {
        r.sp
    }
}

/// The registers with the pair that a code names replaced.
pub open spec fn with_pair(r: Registers, pair: u8, value: u16) -> Registers {
    if pair == 0 {
        r.with_bc(value)
    } else if pair == 1 {
        r.with_de(value)
    } else if pair == 2 {
        r.with_hl(value)
    } else {
        Registers { sp: value, ..r }
    }
}

/// The pair that a code names where the stack is concerned: BC, DE, HL, AF.
pub open spec fn stack_pair_value(r: Registers, pair: u8) -> u16 {
    if pair == 3 {
        r.af_spec()
    } else {
        pair_value(r, pair)
    }
}

/// The registers with the pair replaced that a code names where the stack is
/// concerned.
pub open spec fn with_stack_pair(r: Registers, pair: u8, value: u16) -> Registers {
    if pair == 3 {
        r.with_af(value)
    } else {
        with_pair(r, pair, value)
    }
}

/// The address that an indirect code names: BC, DE, and HL for the two codes
/// that move HL afterwards.
pub open spec fn indirect_address(r: Registers, indirect: u8) -> u16 {
    if indirect == 0 {
        r.bc_spec()
    } else if indirect == 1 {
        r.de_spec()
    } else {
        r.hl_spec()
    }
}

/// The registers after an indirect access: code 2 increments HL and code 3
/// decrements it.
pub open spec fn after_indirect(r: Registers, indirect: u8) -> Registers {
    if indirect == 2 {
        r.with_hl(r.hl_spec().wrapping_add(1))
    } else if indirect == 3 {
        r.with_hl(r.hl_spec().wrapping_sub(1))
    } else {
        r
    }
}

/// A word plus a signed byte, within 16 bits.
pub open spec fn offset16(word: u16, offset: u8) -> u16 {
    ((word + signed_value(offset)) % 0x10000) as u16
}

/// The flags of adding a signed byte to SP: the carries out of bit 3 and
/// bit 7 of the unsigned addition of the low bytes.
pub open spec fn offset_flags(sp: u16, offset: u8) -> FlagDiff {
    FlagDiff::all(false, false, (sp % 16) + (offset % 16) > 0x0f, (sp % 256) + offset > 0xff)
}

/// Where the operand of an instruction comes from.
pub open spec fn source_of(instr: Instr, r: Registers, immediate: u16) -> Source {
    match instr {
        Instr::LoadA(indirect) => Source::Byte(indirect_address(r, indirect)),
        Instr::Inc(code) | Instr::Dec(code) | Instr::Load(_, code) | Instr::Alu(_, code) => if code
            == 6 {
            Source::Byte(r.hl_spec())
        } else {
            Source::Register(code)
        },
        Instr::RetCond(condition) => if condition_holds(condition, r.f) {
            Source::Word(r.sp)
        } else {
            Source::Nothing
        },
        Instr::Ret | Instr::Reti | Instr::Pop(_) => Source::Word(r.sp),
        Instr::LoadHigh => Source::Byte((0xff00 + low_byte(immediate)) as u16),
        Instr::LoadHighC => Source::Byte((0xff00 + r.c) as u16),
        Instr::LoadAbs => Source::Byte(immediate),
        Instr::Prefixed => if operand_code_of(low_byte(immediate)) == 6 {
            Source::Byte(r.hl_spec())
        } else {
            Source::Register(operand_code_of(low_byte(immediate)))
        },
        _ => Source::Nothing,
    }
}

/// The value of an operand, or the fault of reading it.
pub open spec fn operand_spec(source: Source, r: Registers, m: MemoryModel) -> Result<u16, Fault> {
    match source {
        Source::Nothing => Ok(0),
        Source::Register(code) => Ok(r.operand_register(code) as u16),
        Source::Byte(address) => match checked_read_spec(m, address) {
            Ok(byte) => Ok(byte as u16),
            Err(fault) => Err(fault),
        },
        Source::Word(address) => checked_read_u16_spec(m, address),
    }
}

/// The instruction at the program counter with its immediate and its
/// operand. It fails, in this order, where the opcode cannot be read, where
/// it is no instruction, where its immediate cannot be read, and where its
/// operand cannot be read.
pub open spec fn fetch_spec(r: Registers, m: MemoryModel) -> Result<Fetched, Fault> {
    match checked_read_spec(m, r.pc) {
        Err(fault) => Err(fault),
        Ok(opcode) => {
            let instr = decode_spec(opcode);
            if instr == Instr::Undefined {
                Err(Fault::UndefinedOpcode(opcode))
            } else {
                match immediate_spec(instr, r.pc, m) {
                    Err(fault) => Err(fault),
                    Ok(immediate) => match operand_spec(source_of(instr, r, immediate), r, m) {
                        Err(fault) => Err(fault),
                        Ok(operand) => Ok(Fetched { instr, immediate, operand }),
                    },
                }
            }
        },
    }
}

/// The registers and the address space after a word was pushed.
pub open spec fn push_spec(r: Registers, m: MemoryModel, value: u16) -> (Registers, MemoryModel) {
    let sp = r.sp.wrapping_sub(2);
    (Registers { sp, ..r }, m.write_u16(sp, value))
}

/// What one of the eight operations makes of A and a value, and the flags it
/// leaves: add, add with carry, subtract, subtract with carry, and, xor, or,
/// compare.
pub open spec fn alu_result(operation: u8, a: u8, value: u8, f: u8) -> (u8, FlagDiff) {
    if operation == 0 {
        (sum8(a, value, 0), addition_flags(a, value, 0))
    } else if operation == 1 {
        (sum8(a, value, carry_in(f, true)), addition_flags(a, value, carry_in(f, true)))
    } else if operation == 2 {
        (difference8(a, value, 0), subtraction_flags(a, value, 0))
    } else if operation == 3 {
        (difference8(a, value, carry_in(f, true)), subtraction_flags(a, value, carry_in(f, true)))
    } else if operation == 4 {
        (a & value, FlagDiff::all(a & value == 0, false, true, false))
    } else if operation == 5 {
        (a ^ value, FlagDiff::all(a ^ value == 0, false, false, false))
    } else if operation == 6 {
        (a | value, FlagDiff::all(a | value == 0, false, false, false))
    } else {
        (a, subtraction_flags(a, value, 0))
    }
}

/// The intermediate of the decimal adjustment of `a`, a 16-bit number whose
/// low byte is the new A and whose bit 8 is the new carry.
pub open spec fn decimal_adjusted(a: u8, f: u8) -> int {
    let half = flag_is_set(f, FLAG_HALFCARRY);
    let carry = flag_is_set(f, FLAG_CARRY);
    if !flag_is_set(f, FLAG_SUBTRACTION) {
        let low = if half || a % 16 > 9 {
            a + 6
        } else {
            a as int
        };
        if carry || low > 0x9f {
            low + 0x60
        } else {
            low
        }
    } else {
        let low = if half {
            if carry {
                (a - 6) % 0x10000
            } else {
                (a - 6) % 0x100
            }
        } else {
            a as int
        };
        if carry {
            (low - 0x60) % 0x10000
        } else {
            low
        }
    }
}

/// The registers with A replaced.
pub open spec fn with_a(r: Registers, a: u8) -> Registers {
    Registers { a, ..r }
}

/// What a fetched instruction does to the registers, the halt state and the
/// address space, and what it leaves to be done to the program counter and
/// the flags.
pub open spec fn effect_spec(f: Fetched, r: Registers, is_halted: bool, m: MemoryModel) -> Effect {
    let imm8 = low_byte(f.immediate);
    let imm16 = f.immediate;
    let value = low_byte(f.operand);
    match f.instr {
        Instr::Nop | Instr::Undefined => Effect {
            registers: r,
            is_halted,
            memory: m,
            diff: CpuDiff::plain(1, 4),
        },
        Instr::StoreSp => Effect {
            registers: r,
            is_halted,
            memory: m.write_u16(imm16, r.sp),
            diff: CpuDiff::plain(3, 20),
        },
        Instr::Jr => Effect {
            registers: r,
            is_halted,
            memory: m,
            diff: CpuDiff::plain((2 + signed_value(imm8)) as i16, 12),
        },
        Instr::JrCond(condition) => Effect {
            registers: r,
            is_halted,
            memory: m,
            diff: if condition_holds(condition, r.f) {
                CpuDiff::plain((2 + signed_value(imm8)) as i16, 12)
            } else {
                CpuDiff::plain(2, 8)
            },
        },
        Instr::LoadPairImm(pair) => Effect {
            registers: with_pair(r, pair, imm16),
            is_halted,
            memory: m,
            diff: CpuDiff::plain(3, 12),
        },
        Instr::AddHl(pair) => Effect {
            registers: r.with_hl(((r.hl_spec() + pair_value(r, pair)) % 0x10000) as u16),
            is_halted,
            memory: m,
            diff: CpuDiff::with(1, 8, addition16_flags(pair_value(r, pair), r.hl_spec())),
        },
        Instr::StoreA(indirect) => Effect {
            registers: after_indirect(r, indirect),
            is_halted,
            memory: m.write(indirect_address(r, indirect), r.a),
            diff: CpuDiff::plain(1, 8),
        },
        Instr::LoadA(indirect) => Effect {
            registers: after_indirect(with_a(r, value), indirect),
            is_halted,
            memory: m,
            diff: CpuDiff::plain(1, 8),
        },
        Instr::IncPair(pair) => Effect {
            registers: with_pair(r, pair, pair_value(r, pair).wrapping_add(1)),
            is_halted,
            memory: m,
            diff: CpuDiff::plain(1, 8),
        },
        Instr::DecPair(pair) => Effect {
            registers: with_pair(r, pair, pair_value(r, pair).wrapping_sub(1)),
            is_halted,
            memory: m,
            diff: CpuDiff::plain(1, 8),
        },
        Instr::Inc(code) => Effect {
            registers: registers_after_operand_write(r, code, sum8(value, 1, 0)),
            is_halted,
            memory: memory_after_operand_write(r, m, code, sum8(value, 1, 0)),
            diff: CpuDiff::with(
                1,
                if code == 6 {
                    12
                } else {
                    4
                },
                FlagDiff {
                    z: Some(sum8(value, 1, 0) == 0),
                    n: Some(false),
                    h: Some(add_half_carry(value, 1, 0)),
                    c: None,
                },
            ),
        },
        Instr::Dec(code) => Effect {
            registers: registers_after_operand_write(r, code, difference8(value, 1, 0)),
            is_halted,
            memory: memory_after_operand_write(r, m, code, difference8(value, 1, 0)),
            diff: CpuDiff::with(
                1,
                if code == 6 {
                    12
                } else {
                    4
                },
                FlagDiff {
                    z: Some(difference8(value, 1, 0) == 0),
                    n: Some(true),
                    h: Some(sub_half_carry(value, 1, 0)),
                    c: None,
                },
            ),
        },
        Instr::LoadImm(code) => Effect {
            registers: registers_after_operand_write(r, code, imm8),
            is_halted,
            memory: memory_after_operand_write(r, m, code, imm8),
            diff: CpuDiff::plain(
                2,
                if code == 6 {
                    12
                } else {
                    8
                },
            ),
        },
        Instr::Rlca => Effect {
            registers: with_a(r, shifted_left(r.a, top_bit(r.a))),
            is_halted,
            memory: m,
            diff: CpuDiff::with(1, 4, FlagDiff::all(false, false, false, top_bit(r.a))),
        },
        Instr::Rrca => Effect {
            registers: with_a(r, shifted_right(r.a, low_bit(r.a))),
            is_halted,
            memory: m,
            diff: CpuDiff::with(1, 4, FlagDiff::all(false, false, false, low_bit(r.a))),
        },
        Instr::Rla => Effect {
            registers: with_a(r, shifted_left(r.a, r.carry())),
            is_halted,
            memory: m,
            diff: CpuDiff::with(1, 4, FlagDiff::all(false, false, false, top_bit(r.a))),
        },
        Instr::Rra => Effect {
            registers: with_a(r, shifted_right(r.a, r.carry())),
            is_halted,
            memory: m,
            diff: CpuDiff::with(1, 4, FlagDiff::all(false, false, false, low_bit(r.a))),
        },
        Instr::Daa => Effect {
            registers: with_a(r, (decimal_adjusted(r.a, r.f) % 256) as u8),
            is_halted,
            memory: m,
            diff: CpuDiff::with(
                1,
                4,
                FlagDiff {
                    z: Some(decimal_adjusted(r.a, r.f) % 256 == 0),
                    n: None,
                    h: Some(false),
                    c: Some((decimal_adjusted(r.a, r.f) / 256) % 2 == 1),
                },
            ),
        },
        Instr::Cpl => Effect {
            registers: with_a(r, r.a ^ 0xff),
            is_halted,
            memory: m,
            diff: CpuDiff::with(
                1,
                4,
                FlagDiff { z: None, n: Some(true), h: Some(true), c: None },
            ),
        },
        Instr::Scf => Effect {
            registers: r,
            is_halted,
            memory: m,
            diff: CpuDiff::with(
                1,
                4,
                FlagDiff { z: None, n: Some(false), h: Some(false), c: Some(true) },
            ),
        },
        Instr::Ccf => Effect {
            registers: r,
            is_halted,
            memory: m,
            diff: CpuDiff::with(
                1,
                4,
                FlagDiff { z: None, n: Some(false), h: Some(false), c: Some(!r.carry()) },
            ),
        },
        Instr::Halt => Effect {
            registers: r,
            is_halted: is_halted || r.ime,
            memory: m,
            diff: CpuDiff::plain(1, 4),
        },
        Instr::Load(dst, src) => Effect {
            registers: registers_after_operand_write(r, dst, value),
            is_halted,
            memory: memory_after_operand_write(r, m, dst, value),
            diff: CpuDiff::plain(
                1,
                if dst == 6 || src == 6 {
                    8
                } else {
                    4
                },
            ),
        },
        Instr::Alu(operation, code) => Effect {
            registers: with_a(r, alu_result(operation, r.a, value, r.f).0),
            is_halted,
            memory: m,
            diff: CpuDiff::with(
                1,
                if code == 6 {
                    8
                } else {
                    4
                },
                alu_result(operation, r.a, value, r.f).1,
            ),
        },
        Instr::AluImm(operation) => Effect {
            registers: with_a(r, alu_result(operation, r.a, imm8, r.f).0),
            is_halted,
            memory: m,
            diff: CpuDiff::with(
                2,
                if operation == 5 {
                    4
                } else {
                    8
                },
                alu_result(operation, r.a, imm8, r.f).1,
            ),
        },
        Instr::RetCond(condition) => if condition_holds(condition, r.f) {
            Effect {
                registers: Registers { pc: f.operand, sp: r.sp.wrapping_add(2), ..r },
                is_halted,
                memory: m,
                diff: CpuDiff::plain(0, 20),
            }
        } else {
            Effect { registers: r, is_halted, memory: m, diff: CpuDiff::plain(1, 8) }
        },
        Instr::Ret => Effect {
            registers: Registers { pc: f.operand, sp: r.sp.wrapping_add(2), ..r },
            is_halted,
            memory: m,
            diff: CpuDiff::plain(0, 16),
        },
        Instr::Reti => Effect {
            registers: Registers { pc: f.operand, sp: r.sp.wrapping_add(2), ime: true, ..r },
            is_halted,
            memory: m,
            diff: CpuDiff::plain(0, 16),
        },
        Instr::Pop(pair) => Effect {
            registers: with_stack_pair(
                Registers { sp: r.sp.wrapping_add(2), ..r },
                pair,
                f.operand,
            ),
            is_halted,
            memory: m,
            diff: CpuDiff::plain(1, 12),
        },
        Instr::Push(pair) => Effect {
            registers: push_spec(r, m, stack_pair_value(r, pair)).0,
            is_halted,
            memory: push_spec(r, m, stack_pair_value(r, pair)).1,
            diff: CpuDiff::plain(1, 16),
        },
        Instr::JpCond(condition) => if condition_holds(condition, r.f) {
            Effect {
                registers: Registers { pc: imm16, ..r },
                is_halted,
                memory: m,
                diff: CpuDiff::plain(0, 16),
            }
        } else {
            Effect { registers: r, is_halted, memory: m, diff: CpuDiff::plain(3, 12) }
        },
        Instr::Jp => Effect {
            registers: Registers { pc: imm16, ..r },
            is_halted,
            memory: m,
            diff: CpuDiff::plain(0, 16),
        },
        Instr::JpHl => Effect {
            registers: Registers { pc: r.hl_spec(), ..r },
            is_halted,
            memory: m,
            diff: CpuDiff::plain(0, 4),
        },
        Instr::CallCond(condition) => if condition_holds(condition, r.f) {
            call_effect(r, is_halted, m, r.pc.wrapping_add(3), imm16, 24)
        } else {
            Effect { registers: r, is_halted, memory: m, diff: CpuDiff::plain(3, 12) }
        },
        Instr::Call => call_effect(r, is_halted, m, r.pc.wrapping_add(3), imm16, 24),
        Instr::Rst(target) => call_effect(r, is_halted, m, r.pc.wrapping_add(1), target as u16, 16),
        Instr::StoreHigh => Effect {
            registers: r,
            is_halted,
            memory: m.write((0xff00 + imm8) as u16, r.a),
            diff: CpuDiff::plain(2, 12),
        },
        Instr::LoadHigh => Effect {
            registers: with_a(r, value),
            is_halted,
            memory: m,
            diff: CpuDiff::plain(2, 12),
        },
        Instr::StoreHighC => Effect {
            registers: r,
            is_halted,
            memory: m.write((0xff00 + r.c) as u16, r.a),
            diff: CpuDiff::plain(1, 8),
        },
        Instr::LoadHighC => Effect {
            registers: with_a(r, value),
            is_halted,
            memory: m,
            diff: CpuDiff::plain(1, 8),
        },
        Instr::StoreAbs => Effect {
            registers: r,
            is_halted,
            memory: m.write(imm16, r.a),
            diff: CpuDiff::plain(3, 16),
        },
        Instr::LoadAbs => Effect {
            registers: with_a(r, value),
            is_halted,
            memory: m,
            diff: CpuDiff::plain(3, 16),
        },
        Instr::AddSp => Effect {
            registers: Registers { sp: offset16(r.sp, imm8), ..r },
            is_halted,
            memory: m,
            diff: CpuDiff::with(2, 16, offset_flags(r.sp, imm8)),
        },
        Instr::LoadHlSp => Effect {
            registers: r.with_hl(offset16(r.sp, imm8)),
            is_halted,
            memory: m,
            diff: CpuDiff::with(2, 12, offset_flags(r.sp, imm8)),
        },
        Instr::LoadSpHl => Effect {
            registers: Registers { sp: r.hl_spec(), ..r },
            is_halted,
            memory: m,
            diff: CpuDiff::plain(1, 8),
        },
        Instr::Di => Effect {
            registers: Registers { ime: false, ..r },
            is_halted,
            memory: m,
            diff: CpuDiff::plain(1, 4),
        },
        Instr::Ei => Effect {
            registers: Registers { ime: true, ..r },
            is_halted,
            memory: m,
            diff: CpuDiff::plain(1, 4),
        },
        Instr::Prefixed => Effect {
            registers: extended_registers(r, imm8, value),
            is_halted,
            memory: extended_memory(r, m, imm8, value),
            diff: extended_diff(r, imm8, value),
        },
    }
}

/// A call: the return address is pushed and the program counter is set to
/// the target.
pub open spec fn call_effect(
    r: Registers,
    is_halted: bool,
    m: MemoryModel,
    return_address: u16,
    target: u16,
    cycles: u8,
) -> Effect {
    Effect {
        registers: Registers { pc: target, ..push_spec(r, m, return_address).0 },
        is_halted,
        memory: push_spec(r, m, return_address).1,
        diff: CpuDiff::plain(0, cycles),
    }
}

/// The registers after the program counter has moved and the flags have
/// changed as a diff says.
pub open spec fn finished(r: Registers, diff: CpuDiff) -> Registers {
    Registers { pc: r.pc.wrapping_add_signed(diff.pc_delta), f: with_flags(r.f, diff.flag_diff), ..r }
}

/// One instruction: a halted processor waits four cycles and changes
/// nothing; a running one fetches and executes the instruction at its
/// program counter, or fails with everything left as it was.
pub open spec fn execute_spec(cpu: Cpu, m: MemoryModel) -> Result<Stepped, Fault> {
    if cpu.is_halted {
        Ok(Stepped { cpu, memory: m, cycles: 4 })
    } else {
        match fetch_spec(cpu.registers, m) {
            Err(fault) => Err(fault),
            Ok(fetched) => {
                let effect = effect_spec(fetched, cpu.registers, cpu.is_halted, m);
                Ok(
                    Stepped {
                        cpu: Cpu {
                            registers: finished(effect.registers, effect.diff),
                            is_halted: effect.is_halted,
                        },
                        memory: effect.memory,
                        cycles: effect.diff.cycles,
                    },
                )
            },
        }
    }
}

/// The requests that are both raised and enabled, among the five sources.
pub open spec fn pending_interrupts(m: MemoryModel) -> u8 {
    m.bytes[address::INTERRUPT_FLAGS as int] & m.bytes[address::INTERRUPT_ENABLE as int] & 0x1f
}

/// The request of highest priority among those pending: the lowest bit set.
pub open spec fn highest_priority(pending: u8) -> u8 {
    if pending & interrupt::FLAG_VBLANK != 0 {
        interrupt::FLAG_VBLANK
    } else if pending & interrupt::FLAG_LCD_STAT != 0 {
        interrupt::FLAG_LCD_STAT
    } else if pending & interrupt::FLAG_TIMER != 0 {
        interrupt::FLAG_TIMER
    } else if pending & interrupt::FLAG_SERIAL != 0 {
        interrupt::FLAG_SERIAL
    } else {
        interrupt::FLAG_JOYPAD
    }
}

/// The address at which the handler of a request starts.
pub open spec fn vector_of(interrupt_flag: u8) -> u16 {
    if interrupt_flag == interrupt::FLAG_VBLANK {
        0x0040
    } else if interrupt_flag == interrupt::FLAG_LCD_STAT {
        0x0048
    } else if interrupt_flag == interrupt::FLAG_TIMER {
        0x0050
    } else if interrupt_flag == interrupt::FLAG_SERIAL {
        0x0058
    } else {
        0x0060
    }
}

/// The check for interrupts that follows every instruction. A pending
/// request wakes a halted processor. Where interrupts are enabled it is also
/// served: interrupts are disabled, the program counter is pushed, the request
/// of highest priority is cleared and its handler entered.
pub open spec fn dispatch_spec(cpu: Cpu, m: MemoryModel) -> (Cpu, MemoryModel) {
    let pending = pending_interrupts(m);
    if pending == 0 {
        (cpu, m)
    } else if !cpu.registers.ime {
        (Cpu { is_halted: false, ..cpu }, m)
    } else {
        let served = highest_priority(pending);
        let pushed = push_spec(Registers { ime: false, ..cpu.registers }, m, cpu.registers.pc);
        (
            Cpu { registers: Registers { pc: vector_of(served), ..pushed.0 }, is_halted: false },
            pushed.1.store(
                address::INTERRUPT_FLAGS,
                m.bytes[address::INTERRUPT_FLAGS as int] & !served,
            ),
        )
    }
}

/// Whether the check for interrupts serves one.
pub open spec fn interrupt_served(cpu: Cpu, m: MemoryModel) -> bool {
    pending_interrupts(m) != 0 && cpu.registers.ime
}

/// One step of the processor: an instruction, then the check for
/// interrupts. The cycles are those of the instruction and those charged
/// for serving an interrupt.
pub open spec fn step_spec(cpu: Cpu, m: MemoryModel) -> Result<Stepped, Fault> {
    match execute_spec(cpu, m) {
        Err(fault) => Err(fault),
        Ok(stepped) => {
            let dispatched = dispatch_spec(stepped.cpu, stepped.memory);
            Ok(
                Stepped {
                    cpu: dispatched.0,
                    memory: dispatched.1,
                    cycles: if interrupt_served(stepped.cpu, stepped.memory) {
                        (stepped.cycles + interrupt::DISPATCH_CYCLES) as u8
                    } else {
                        stepped.cycles
                    },
                },
            )
        },
    }
}

/// Every instruction takes between 4 and 24 cycles.
pub proof fn lemma_effect_takes_time(f: Fetched, r: Registers, is_halted: bool, m: MemoryModel)
    ensures
        4 <= effect_spec(f, r, is_halted, m).diff.cycles <= 24,
{
}

/// Every step of the processor takes between 4 and 24 cycles.
pub proof fn lemma_step_takes_time(cpu: Cpu, m: MemoryModel)
    ensures
        step_spec(cpu, m) is Ok ==> 4 <= step_spec(cpu, m)->Ok_0.cycles <= 24,
{
    if !cpu.is_halted && fetch_spec(cpu.registers, m) is Ok {
        lemma_effect_takes_time(fetch_spec(cpu.registers, m)->Ok_0, cpu.registers, cpu.is_halted, m);
    }
}

} // verus!
