//! The extended instructions, which follow the prefix byte `0xCB`: rotations
//! and shifts, and the test, clearing and setting of single bits.

use vstd::prelude::*;
use crate::cpu::instructions::CpuDiff;
use crate::cpu::instructions::FlagDiff;
use crate::cpu::memory_after_operand_write;
use crate::cpu::operand_value;
use crate::cpu::registers_after_operand_write;
use crate::cpu::Registers;
use crate::memory::is_prohibited;
use crate::memory::Memory;
use crate::memory::MemoryModel;

verus! {

/// The bit on which an extended opcode works.
pub open spec fn bit_index_of(immediate_byte: u8) -> u8 {
    ((immediate_byte / 8) % 8) as u8
}

/// The operand code of an extended opcode: its low three bits.
pub open spec fn operand_code_of(immediate_byte: u8) -> u8 {
    (immediate_byte % 8) as u8
}

/// The group of an extended opcode: 0 for the rotations and shifts, then
/// 1, 2 and 3 for the test, the clearing and the setting of a bit.
pub open spec fn group_of(immediate_byte: u8) -> u8 {
    (immediate_byte / 64) as u8
}

/// Every extended opcode splits into a group, a bit index and an operand
/// code, each in its range; the opcodes from `0x40` to `0x7F` are the bit
/// tests, in the order of the bits and within one bit of the operands.
pub proof fn lemma_extended_decoding(immediate_byte: u8)
    ensures
        group_of(immediate_byte) < 4,
        bit_index_of(immediate_byte) < 8,
        operand_code_of(immediate_byte) < 8,
        immediate_byte == 64 * group_of(immediate_byte) + 8 * bit_index_of(immediate_byte)
            + operand_code_of(immediate_byte),
        bit_index_of(0x40) == 0 && operand_code_of(0x40) == 0 && group_of(0x40) == 1,
        bit_index_of(0x7f) == 7 && operand_code_of(0x7f) == 7 && group_of(0x7f) == 1,
{
}

/// The opcode built from a group, a bit index and an operand code decodes to
/// these three again, so no two opcodes share them.
pub proof fn lemma_extended_encoding(group: u8, bit_index: u8, operand_code: u8)
    requires
        group < 4,
        bit_index < 8,
        operand_code < 8,
    ensures
        ({
            let immediate_byte = (64 * group + 8 * bit_index + operand_code) as u8;
            &&& immediate_byte == 64 * group + 8 * bit_index + operand_code
            &&& group_of(immediate_byte) == group
            &&& bit_index_of(immediate_byte) == bit_index
            &&& operand_code_of(immediate_byte) == operand_code
        }),
{
}

pub fn get_bit_index_from_immediate_byte(immediate_byte: u8) -> (bit_index: u8)
    ensures
        bit_index == bit_index_of(immediate_byte),
        bit_index < 8,
{
    (immediate_byte / 8) % 8
}

/// The flags of a rotation or shift: zero as the result says, the carry as
/// given, the other two cleared.
pub open spec fn shift_flags(result: u8, carry: bool) -> FlagDiff {
    FlagDiff::all(result == 0, false, false, carry)
}

/// Bit 7 of a byte.
pub open spec fn top_bit(byte: u8) -> bool {
    byte >= 128
}

/// Bit 0 of a byte.
pub open spec fn low_bit(byte: u8) -> bool {
    byte % 2 == 1
}

/// A bit as a number.
pub open spec fn as_bit(bit: bool) -> int {
    if bit {
        1
    } else {
        0
    }
}

/// The byte shifted left by one, with `incoming` as the new bit 0.
pub open spec fn shifted_left(byte: u8, incoming: bool) -> u8 {
    ((2 * byte) % 256 + as_bit(incoming)) as u8
}

/// The byte shifted right by one, with `incoming` as the new bit 7.
pub open spec fn shifted_right(byte: u8, incoming: bool) -> u8 {
    (byte / 2 + 128 * as_bit(incoming)) as u8
}

/// The byte with its two nibbles exchanged.
pub open spec fn swapped(byte: u8) -> u8 {
    ((byte % 16) * 16 + byte / 16) as u8
}

/// Whether bit `bit_index` of a byte is set.
pub open spec fn bit_is_set(byte: u8, bit_index: u8) -> bool {
    byte & (1u8 << bit_index) != 0
}

/// The byte with bit `bit_index` cleared.
pub open spec fn with_bit_cleared(byte: u8, bit_index: u8) -> u8 {
    byte & !(1u8 << bit_index)
}

/// The byte with bit `bit_index` set.
pub open spec fn with_bit_set(byte: u8, bit_index: u8) -> u8 {
    byte | (1u8 << bit_index)
}

/// Setting a bit sets that bit and clearing it clears that bit; both leave
/// every other bit as it was.
pub proof fn lemma_single_bit(byte: u8, bit_index: u8, other: u8)
    by (bit_vector)
    requires
        bit_index < 8,
        other < 8,
    ensures
        bit_is_set(with_bit_set(byte, bit_index), other) == (other == bit_index || bit_is_set(
            byte,
            other,
        )),
        bit_is_set(with_bit_cleared(byte, bit_index), other) == (other != bit_index && bit_is_set(
            byte,
            other,
        )),
{
}

proof fn lemma_right_shifts(byte: u8)
    by (bit_vector)
    ensures
        (byte & 0x80 != 0) == (byte >= 128),
        (byte & 0x01 != 0) == (byte % 2 == 1),
        ((byte >> 1) | 0x80) == byte / 2 + 128,
        ((byte >> 1) & !0x80u8) == byte / 2,
        (byte >> 1) == byte / 2,
        ((byte >> 1) | (((byte >> 1) & 0x40) << 1)) == byte / 2 + 128 * (byte / 128),
        (((byte & 0xf0) >> 4) | ((byte & 0x0f) << 4)) == (byte % 16) * 16 + byte / 16,
{
}

proof fn lemma_left_shifts(byte: u8)
    by (bit_vector)
    ensures
        ((byte << 1) | 0x01) == (2 * byte) % 256 + 1,
        ((byte << 1) & !0x01u8) == (2 * byte) % 256,
        (byte << 1) == (2 * byte) % 256,
{
}

proof fn lemma_shifts(byte: u8)
    ensures
        (byte & 0x80 != 0) == (byte >= 128),
        (byte & 0x01 != 0) == (byte % 2 == 1),
        ((byte << 1) | 0x01) == (2 * byte) % 256 + 1,
        ((byte << 1) & !0x01u8) == (2 * byte) % 256,
        (byte << 1) == (2 * byte) % 256,
        ((byte >> 1) | 0x80) == byte / 2 + 128,
        ((byte >> 1) & !0x80u8) == byte / 2,
        (byte >> 1) == byte / 2,
        ((byte >> 1) | (((byte >> 1) & 0x40) << 1)) == byte / 2 + 128 * (byte / 128),
        (((byte & 0xf0) >> 4) | ((byte & 0x0f) << 4)) == (byte % 16) * 16 + byte / 16,
{
    lemma_right_shifts(byte);
    lemma_left_shifts(byte);
}

pub fn rlc(byte_to_rotate: &mut u8) -> (flags: FlagDiff)
    ensures
        *final(byte_to_rotate) == shifted_left(*old(byte_to_rotate), top_bit(*old(byte_to_rotate))),
        flags == shift_flags(*final(byte_to_rotate), top_bit(*old(byte_to_rotate))),
{
    proof {
        lemma_shifts(*byte_to_rotate);
    }
    let carry = if *byte_to_rotate & 0x80 != 0 {
        *byte_to_rotate = *byte_to_rotate << 1;
        *byte_to_rotate = *byte_to_rotate | 0x01;
        true
    } else {
        *byte_to_rotate = *byte_to_rotate << 1;
        *byte_to_rotate = *byte_to_rotate & !0x01u8;
        false
    };
    FlagDiff { z: Some(*byte_to_rotate == 0), n: Some(false), h: Some(false), c: Some(carry) }
}

pub fn rrc(byte_to_rotate: &mut u8) -> (flags: FlagDiff)
    ensures
        *final(byte_to_rotate) == shifted_right(*old(byte_to_rotate), low_bit(*old(byte_to_rotate))),
        flags == shift_flags(*final(byte_to_rotate), low_bit(*old(byte_to_rotate))),
{
    proof {
        lemma_shifts(*byte_to_rotate);
    }
    let carry = if *byte_to_rotate & 0x01 != 0 {
        *byte_to_rotate = *byte_to_rotate >> 1;
        *byte_to_rotate = *byte_to_rotate | 0x80;
        true
    } else {
        *byte_to_rotate = *byte_to_rotate >> 1;
        *byte_to_rotate = *byte_to_rotate & !0x80u8;
        false
    };
    FlagDiff { z: Some(*byte_to_rotate == 0), n: Some(false), h: Some(false), c: Some(carry) }
}

pub fn rl(byte_to_rotate: &mut u8, previous_carry_flag: bool) -> (flags: FlagDiff)
    ensures
        *final(byte_to_rotate) == shifted_left(*old(byte_to_rotate), previous_carry_flag),
        flags == shift_flags(*final(byte_to_rotate), top_bit(*old(byte_to_rotate))),
{
    proof {
        lemma_shifts(*byte_to_rotate);
    }
    let new_carry_flag = *byte_to_rotate & 0x80 != 0;
    *byte_to_rotate = *byte_to_rotate << 1;
    if previous_carry_flag {
        *byte_to_rotate = *byte_to_rotate | 0x01;
    }
    FlagDiff {
        z: Some(*byte_to_rotate == 0),
        n: Some(false),
        h: Some(false),
        c: Some(new_carry_flag),
    }
}

pub fn rr(byte_to_rotate: &mut u8, previous_carry_flag: bool) -> (flags: FlagDiff)
    ensures
        *final(byte_to_rotate) == shifted_right(*old(byte_to_rotate), previous_carry_flag),
        flags == shift_flags(*final(byte_to_rotate), low_bit(*old(byte_to_rotate))),
{
    proof {
        lemma_shifts(*byte_to_rotate);
    }
    let new_carry_flag = *byte_to_rotate & 0x01 != 0;
    *byte_to_rotate = *byte_to_rotate >> 1;
    if previous_carry_flag {
        *byte_to_rotate = *byte_to_rotate | 0x80;
    }
    FlagDiff {
        z: Some(*byte_to_rotate == 0),
        n: Some(false),
        h: Some(false),
        c: Some(new_carry_flag),
    }
}

pub fn sla(byte_to_shift: &mut u8) -> (flags: FlagDiff)
    ensures
        *final(byte_to_shift) == shifted_left(*old(byte_to_shift), false),
        flags == shift_flags(*final(byte_to_shift), top_bit(*old(byte_to_shift))),
{
    proof {
        lemma_shifts(*byte_to_shift);
    }
    let carry = *byte_to_shift & 0x80 != 0;
    *byte_to_shift = *byte_to_shift << 1;
    FlagDiff { z: Some(*byte_to_shift == 0), n: Some(false), h: Some(false), c: Some(carry) }
}

pub fn sra(byte_to_shift: &mut u8) -> (flags: FlagDiff)
    ensures
        *final(byte_to_shift) == shifted_right(*old(byte_to_shift), top_bit(*old(byte_to_shift))),
        flags == shift_flags(*final(byte_to_shift), low_bit(*old(byte_to_shift))),
{
    proof {
        lemma_shifts(*byte_to_shift);
    }
    let carry = *byte_to_shift & 0x01 != 0;
    *byte_to_shift = *byte_to_shift >> 1;
    *byte_to_shift = *byte_to_shift | ((*byte_to_shift & 0x40) << 1);
    FlagDiff { z: Some(*byte_to_shift == 0), n: Some(false), h: Some(false), c: Some(carry) }
}

pub fn swap(byte_to_swap: &mut u8) -> (flags: FlagDiff)
    ensures
        *final(byte_to_swap) == swapped(*old(byte_to_swap)),
        flags == shift_flags(*final(byte_to_swap), false),
{
    proof {
        lemma_shifts(*byte_to_swap);
    }
    let upper_4_bits: u8 = (*byte_to_swap) & 0xf0;
    let lower_4_bits: u8 = (*byte_to_swap) & 0x0f;
    *byte_to_swap = (upper_4_bits >> 4) | (lower_4_bits << 4);
    FlagDiff { z: Some(*byte_to_swap == 0), n: Some(false), h: Some(false), c: Some(false) }
}

pub fn srl(byte_to_shift: &mut u8) -> (flags: FlagDiff)
    ensures
        *final(byte_to_shift) == shifted_right(*old(byte_to_shift), false),
        *final(byte_to_shift) == *old(byte_to_shift) / 2,
        flags == shift_flags(*final(byte_to_shift), low_bit(*old(byte_to_shift))),
{
    proof {
        lemma_shifts(*byte_to_shift);
    }
    let carry_flag = (*byte_to_shift) & 0x01 != 0;
    *byte_to_shift = *byte_to_shift >> 1;
    FlagDiff {
        z: Some((*byte_to_shift) == 0),
        n: Some(false),
        h: Some(false),
        c: Some(carry_flag),
    }
}

/// The flags of a bit test: zero where the bit is clear, half-carry set,
/// subtraction cleared, carry left alone.
pub open spec fn bit_test_flags(byte: u8, bit_index: u8) -> FlagDiff {
    FlagDiff { z: Some(!bit_is_set(byte, bit_index)), n: Some(false), h: Some(true), c: None }
}

pub fn bit(byte_to_check: u8, bit_index: u8) -> (flags: FlagDiff)
    requires
        bit_index < 8,
    ensures
        flags == bit_test_flags(byte_to_check, bit_index),
{
    FlagDiff {
        z: Some(byte_to_check & (0x01u8 << bit_index) == 0),
        n: Some(false),
        h: Some(true),
        c: None,
    }
}

pub fn res(byte_to_reset: &mut u8, bit_index: u8) -> (flags: FlagDiff)
    requires
        bit_index < 8,
    ensures
        *final(byte_to_reset) == with_bit_cleared(*old(byte_to_reset), bit_index),
        flags == FlagDiff::unchanged(),
{
    *byte_to_reset = *byte_to_reset & !(0x01u8 << bit_index);
    FlagDiff { z: None, n: None, h: None, c: None }
}

pub fn set(byte_to_set: &mut u8, bit_index: u8) -> (flags: FlagDiff)
    requires
        bit_index < 8,
    ensures
        *final(byte_to_set) == with_bit_set(*old(byte_to_set), bit_index),
        flags == FlagDiff::unchanged(),
{
    *byte_to_set = *byte_to_set | (0x01u8 << bit_index);
    FlagDiff { z: None, n: None, h: None, c: None }
}

/// What the rotation or shift that an opcode of group 0 names makes of a
/// byte, and the flags it leaves.
pub open spec fn shift_result(immediate_byte: u8, byte: u8, carry: bool) -> (u8, FlagDiff) {
    let family = bit_index_of(immediate_byte);
    if family == 0 {
        (shifted_left(byte, top_bit(byte)), shift_flags(shifted_left(byte, top_bit(byte)), top_bit(byte)))
    } else if family == 1 {
        (
            shifted_right(byte, low_bit(byte)),
            shift_flags(shifted_right(byte, low_bit(byte)), low_bit(byte)),
        )
    } else if family == 2 {
        (shifted_left(byte, carry), shift_flags(shifted_left(byte, carry), top_bit(byte)))
    } else if family == 3 {
        (shifted_right(byte, carry), shift_flags(shifted_right(byte, carry), low_bit(byte)))
    } else if family == 4 {
        (shifted_left(byte, false), shift_flags(shifted_left(byte, false), top_bit(byte)))
    } else if family == 5 {
        (
            shifted_right(byte, top_bit(byte)),
            shift_flags(shifted_right(byte, top_bit(byte)), low_bit(byte)),
        )
    } else if family == 6 {
        (swapped(byte), shift_flags(swapped(byte), false))
    } else {
        (shifted_right(byte, false), shift_flags(shifted_right(byte, false), low_bit(byte)))
    }
}

/// What an extended opcode makes of its operand, and the flags it leaves. A
/// bit test leaves the operand as it is.
pub open spec fn extended_result(immediate_byte: u8, byte: u8, carry: bool) -> (u8, FlagDiff) {
    let group = group_of(immediate_byte);
    let bit_index = bit_index_of(immediate_byte);
    if group == 0 {
        shift_result(immediate_byte, byte, carry)
    } else if group == 1 {
        (byte, bit_test_flags(byte, bit_index))
    } else if group == 2 {
        (with_bit_cleared(byte, bit_index), FlagDiff::unchanged())
    } else {
        (with_bit_set(byte, bit_index), FlagDiff::unchanged())
    }
}

/// Whether an extended opcode stores its result: all but the bit tests do.
pub open spec fn extended_stores(immediate_byte: u8) -> bool {
    group_of(immediate_byte) != 1
}

/// The cycles of an extended opcode: 16 where the operand is the byte at HL,
/// 8 otherwise.
pub open spec fn extended_cycles(immediate_byte: u8) -> u8 {
    if operand_code_of(immediate_byte) == 6 {
        16
    } else {
        8
    }
}

/// The registers after the extended instruction `immediate_byte` on the
/// operand value `operand`.
pub open spec fn extended_registers(registers: Registers, immediate_byte: u8, operand: u8) -> Registers {
    if extended_stores(immediate_byte) {
        registers_after_operand_write(
            registers,
            operand_code_of(immediate_byte),
            extended_result(immediate_byte, operand, registers.carry()).0,
        )
    } else {
        registers
    }
}

/// The address space after the extended instruction `immediate_byte` on the
/// operand value `operand`.
pub open spec fn extended_memory(
    registers: Registers,
    m: MemoryModel,
    immediate_byte: u8,
    operand: u8,
) -> MemoryModel {
    if extended_stores(immediate_byte) {
        memory_after_operand_write(
            registers,
            m,
            operand_code_of(immediate_byte),
            extended_result(immediate_byte, operand, registers.carry()).0,
        )
    } else {
        m
    }
}

/// What the extended instruction leaves to be done: its flags, two bytes of
/// program counter and its cycles.
pub open spec fn extended_diff(registers: Registers, immediate_byte: u8, operand: u8) -> CpuDiff {
    CpuDiff::with(
        2,
        extended_cycles(immediate_byte),
        extended_result(immediate_byte, operand, registers.carry()).1,
    )
}

proof fn lemma_cycle_nibble(immediate_byte: u8)
    by (bit_vector)
    ensures
        ((immediate_byte & 0x0f) == 0x06 || (immediate_byte & 0x0f) == 0x0e) == (immediate_byte % 8
            == 6),
        (immediate_byte & 0x07) == immediate_byte % 8,
{
}

/// Applies the extended opcode `immediate_byte` to an operand value.
pub fn apply_extended(immediate_byte: u8, operand: u8, carry: bool) -> (result: (u8, FlagDiff))
    ensures
        result == extended_result(immediate_byte, operand, carry),
{
    let bit_index: u8 = get_bit_index_from_immediate_byte(immediate_byte);
    let mut operand: u8 = operand;
    let flag_diff = if immediate_byte < 0x08 {
        rlc(&mut operand)
    } else if immediate_byte < 0x10 {
        rrc(&mut operand)
    } else if immediate_byte < 0x18 {
        rl(&mut operand, carry)
    } else if immediate_byte < 0x20 {
        rr(&mut operand, carry)
    } else if immediate_byte < 0x28 {
        sla(&mut operand)
    } else if immediate_byte < 0x30 {
        sra(&mut operand)
    } else if immediate_byte < 0x38 {
        swap(&mut operand)
    } else if immediate_byte < 0x40 {
        srl(&mut operand)
    } else if immediate_byte < 0x80 {
        bit(operand, bit_index)
    } else if immediate_byte < 0xc0 {
        res(&mut operand, bit_index)
    } else {
        set(&mut operand, bit_index)
    };
    (operand, flag_diff)
}

/// Executes the extended instruction whose opcode follows the prefix at the
/// program counter.
pub fn execute_cb_instruction(registers: &mut Registers, memory: &mut Memory) -> (diff: CpuDiff)
    requires
        !is_prohibited(old(registers).pc.wrapping_add(1)),
        operand_code_of(old(memory)@.read(old(registers).pc.wrapping_add(1))) == 6 ==> !is_prohibited(
            old(registers).hl_spec(),
        ),
    ensures
        ({
            let immediate_byte = old(memory)@.read(old(registers).pc.wrapping_add(1));
            let operand = operand_value(
                *old(registers),
                old(memory)@,
                operand_code_of(immediate_byte),
            );
            &&& *final(registers) == extended_registers(*old(registers), immediate_byte, operand)
            &&& final(memory)@ == extended_memory(
                *old(registers),
                old(memory)@,
                immediate_byte,
                operand,
            )
            &&& diff == extended_diff(*old(registers), immediate_byte, operand)
        }),
        old(memory)@.well_formed() ==> final(memory)@.well_formed(),
{
    let immediate_byte: u8 = memory.read(registers.pc.wrapping_add(1));
    proof {
        lemma_cycle_nibble(immediate_byte);
    }
    let operand_id: u8 = immediate_byte & 0x07;
    let operand: u8 = registers.read_operand_8bit(operand_id, memory);
    let carry: bool = registers.f & crate::cpu::FLAG_CARRY != 0;
    let result = apply_extended(immediate_byte, operand, carry);
    if immediate_byte < 0x40 || immediate_byte >= 0x80 {
        registers.write_operand_8bit(result.0, operand_id, memory);
    }
    let cycle_nybble: u8 = immediate_byte & 0x0f;
    let cycles: u8 = if cycle_nybble == 0x06 || cycle_nybble == 0x0e {
        16
    } else {
        8
    };
    CpuDiff { flag_diff: result.1, pc_delta: 2, cycles }
}

} // verus!
