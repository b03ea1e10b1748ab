//! The arithmetic and logic of the instruction set, with the flags that each
//! operation leaves.

use vstd::prelude::*;
use crate::cpu::semantics::push_spec;
use crate::cpu::stack_push;
use crate::cpu::Registers;
use crate::memory::is_prohibited;
use crate::memory::Memory;
use crate::cpu::FLAG_CARRY;

pub mod cb;

verus! {

/// The change that an instruction makes to each flag, `None` where it leaves
/// the flag alone.
#[derive(Clone, Copy, Debug, PartialEq, Eq, Structural)]
pub struct FlagDiff {
    pub z: Option<bool>,
    pub n: Option<bool>,
    pub h: Option<bool>,
    pub c: Option<bool>,
}

/// What an instruction leaves to be done after its own effect: the flag
/// changes, the movement of the program counter and the cycles it took.
#[derive(Clone, Copy, Debug, PartialEq, Eq, Structural)]
pub struct CpuDiff {
    pub flag_diff: FlagDiff,
    pub pc_delta: i16,
    pub cycles: u8,
}

impl FlagDiff {
    /// No flag changes.
    pub open spec fn unchanged() -> FlagDiff {
        FlagDiff { z: None, n: None, h: None, c: None }
    }

    /// All four flags are given.
    pub open spec fn all(z: bool, n: bool, h: bool, c: bool) -> FlagDiff {
        FlagDiff { z: Some(z), n: Some(n), h: Some(h), c: Some(c) }
    }
}

impl CpuDiff {
    /// A diff that changes no flag.
    pub open spec fn plain(pc_delta: i16, cycles: u8) -> CpuDiff {
        CpuDiff { flag_diff: FlagDiff::unchanged(), pc_delta, cycles }
    }

    /// A diff with the given flag changes.
    pub open spec fn with(pc_delta: i16, cycles: u8, flag_diff: FlagDiff) -> CpuDiff {
        CpuDiff { flag_diff, pc_delta, cycles }
    }

    pub fn new(pc_delta: i16, cycles: u8) -> (diff: CpuDiff)
        ensures
            diff == CpuDiff::plain(pc_delta, cycles),
    {
        CpuDiff { pc_delta, cycles, flag_diff: FlagDiff { z: None, n: None, h: None, c: None } }
    }

    pub fn flag_z(self, new_z: bool) -> (diff: CpuDiff)
        ensures
            diff == (CpuDiff { flag_diff: FlagDiff { z: Some(new_z), ..self.flag_diff }, ..self }),
    {
        let mut diff = self;
        diff.flag_diff.z = Some(new_z);
        diff
    }

    pub fn flag_n(self, new_n: bool) -> (diff: CpuDiff)
        ensures
            diff == (CpuDiff { flag_diff: FlagDiff { n: Some(new_n), ..self.flag_diff }, ..self }),
    {
        let mut diff = self;
        diff.flag_diff.n = Some(new_n);
        diff
    }

    pub fn flag_h(self, new_h: bool) -> (diff: CpuDiff)
        ensures
            diff == (CpuDiff { flag_diff: FlagDiff { h: Some(new_h), ..self.flag_diff }, ..self }),
    {
        let mut diff = self;
        diff.flag_diff.h = Some(new_h);
        diff
    }

    pub fn flag_c(self, new_c: bool) -> (diff: CpuDiff)
        ensures
            diff == (CpuDiff { flag_diff: FlagDiff { c: Some(new_c), ..self.flag_diff }, ..self }),
    {
        let mut diff = self;
        diff.flag_diff.c = Some(new_c);
        diff
    }
}

/// The carry that an operation takes in: the carry flag where the operation
/// includes it, and nothing otherwise.
pub open spec fn carry_in(register_f: u8, include_carry: bool) -> int {
    if include_carry && (register_f & FLAG_CARRY) != 0 {
        1
    } else {
        0
    }
}

/// The low eight bits of `a + b + carry`.
pub open spec fn sum8(a: u8, b: u8, carry: int) -> u8 {
    ((a + b + carry) % 256) as u8
}

/// The low eight bits of `a - b - carry`.
pub open spec fn difference8(a: u8, b: u8, carry: int) -> u8 {
    ((a - b - carry) % 256) as u8
}

/// The sum of two bytes and a carry does not fit in eight bits.
pub open spec fn add_full_carry(a: u8, b: u8, carry: int) -> bool {
    a + b + carry > 0xff
}

/// The sum of the low nibbles and a carry does not fit in four bits.
pub open spec fn add_half_carry(a: u8, b: u8, carry: int) -> bool {
    (a & 0x0f) + (b & 0x0f) + carry > 0x0f
}

/// The difference of two bytes, less a borrow, is negative.
pub open spec fn sub_full_carry(a: u8, b: u8, carry: int) -> bool {
    a - b - carry < 0
}

/// The difference of the low nibbles, less a borrow, is negative.
pub open spec fn sub_half_carry(a: u8, b: u8, carry: int) -> bool {
    (a & 0x0f) - (b & 0x0f) - carry < 0
}

/// The flags of an addition `a + b + carry`.
pub open spec fn addition_flags(a: u8, b: u8, carry: int) -> FlagDiff {
    FlagDiff::all(
        sum8(a, b, carry) == 0,
        false,
        add_half_carry(a, b, carry),
        add_full_carry(a, b, carry),
    )
}

/// The flags of a subtraction or comparison `a - b - carry`.
pub open spec fn subtraction_flags(a: u8, b: u8, carry: int) -> FlagDiff {
    FlagDiff::all(
        difference8(a, b, carry) == 0,
        true,
        sub_half_carry(a, b, carry),
        sub_full_carry(a, b, carry),
    )
}

/// For every pair of operands and either carry: an addition sets the zero
/// flag exactly when its 8-bit result is zero; a subtraction or comparison
/// sets the half-carry flag exactly when the low nibbles borrow, and the
/// carry flag exactly when the whole difference is negative.
pub proof fn lemma_arithmetic_flags(a: u8, b: u8, carry: int)
    requires
        carry == 0 || carry == 1,
    ensures
        addition_flags(a, b, carry).z == Some(sum8(a, b, carry) == 0x00),
        addition_flags(a, b, carry).c == Some(a + b + carry > 0xff),
        addition_flags(a, b, carry).h == Some((a & 0x0f) + (b & 0x0f) + carry > 0x0f),
        subtraction_flags(a, b, carry).h == Some((a & 0x0f) - (b & 0x0f) - carry < 0),
        subtraction_flags(a, b, carry).c == Some(a - b - carry < 0),
        subtraction_flags(a, b, carry).n == Some(true),
        addition_flags(a, b, carry).n == Some(false),
        add_full_carry(a, b, carry) <==> sum8(a, b, carry) != a + b + carry,
        sub_full_carry(a, b, carry) <==> difference8(a, b, carry) != a - b - carry,
{
}

pub fn subtraction_produces_full_carry(a: u8, b: u8) -> (carry: bool)
    ensures
        carry == sub_full_carry(a, b, 0),
{
    (a as i16) - (b as i16) < 0
}

pub fn addition_produces_full_carry(a: u8, b: u8) -> (carry: bool)
    ensures
        carry == add_full_carry(a, b, 0),
{
    (a as i16) + (b as i16) > 0xff
}

pub fn subtraction_produces_half_carry(a: u8, b: u8, register_f: u8, include_carry: bool) -> (carry:
    bool)
    ensures
        carry == sub_half_carry(a, b, carry_in(register_f, include_carry)),
{
    let optional_carry: i16 = if include_carry && (register_f & FLAG_CARRY) != 0 {
        1
    } else {
        0
    };
    ((a & 0x0f) as i16) - ((b & 0x0f) as i16) - optional_carry < 0
}

pub fn addition_produces_half_carry(a: u8, b: u8, register_f: u8, include_carry: bool) -> (carry:
    bool)
    ensures
        carry == add_half_carry(a, b, carry_in(register_f, include_carry)),
{
    let optional_carry: i16 = if include_carry && (register_f & FLAG_CARRY) != 0 {
        1
    } else {
        0
    };
    ((a & 0x0f) as i16) + ((b & 0x0f) as i16) + optional_carry > 0x0f
}

pub fn inc_u8(value_to_increment: &mut u8, register_f: u8, cycles: u8) -> (diff: CpuDiff)
    ensures
        *final(value_to_increment) == sum8(*old(value_to_increment), 1, 0),
        diff == CpuDiff::with(
            1,
            cycles,
            FlagDiff {
                z: Some(sum8(*old(value_to_increment), 1, 0) == 0),
                n: Some(false),
                h: Some(add_half_carry(*old(value_to_increment), 1, 0)),
                c: None,
            },
        ),
{
    let half_carry = addition_produces_half_carry(*value_to_increment, 1, register_f, false);
    *value_to_increment = value_to_increment.wrapping_add(1);
    CpuDiff::new(1, cycles).flag_z(*value_to_increment == 0).flag_n(false).flag_h(half_carry)
}

pub fn dec_u8(value_to_dec: &mut u8, register_f: u8, cycles: u8) -> (diff: CpuDiff)
    ensures
        *final(value_to_dec) == difference8(*old(value_to_dec), 1, 0),
        diff == CpuDiff::with(
            1,
            cycles,
            FlagDiff {
                z: Some(difference8(*old(value_to_dec), 1, 0) == 0),
                n: Some(true),
                h: Some(sub_half_carry(*old(value_to_dec), 1, 0)),
                c: None,
            },
        ),
{
    let half_carry = subtraction_produces_half_carry(*value_to_dec, 1, register_f, false);
    *value_to_dec = value_to_dec.wrapping_sub(1);
    CpuDiff::new(1, cycles).flag_h(half_carry).flag_n(true).flag_z(*value_to_dec == 0)
}

pub fn xor(xor_input: u8, register_a: &mut u8, pc_delta: i16, cycles: u8) -> (diff: CpuDiff)
    ensures
        *final(register_a) == *old(register_a) ^ xor_input,
        diff == CpuDiff::with(
            pc_delta,
            cycles,
            FlagDiff::all(*old(register_a) ^ xor_input == 0, false, false, false),
        ),
{
    *register_a = *register_a ^ xor_input;
    CpuDiff::new(pc_delta, cycles).flag_z(*register_a == 0).flag_n(false).flag_h(false).flag_c(
        false,
    )
}

pub fn or(or_input: u8, register_a: &mut u8, pc_delta: i16, cycles: u8) -> (diff: CpuDiff)
    ensures
        *final(register_a) == *old(register_a) | or_input,
        diff == CpuDiff::with(
            pc_delta,
            cycles,
            FlagDiff::all(*old(register_a) | or_input == 0, false, false, false),
        ),
{
    *register_a = *register_a | or_input;
    CpuDiff::new(pc_delta, cycles).flag_z(*register_a == 0).flag_n(false).flag_h(false).flag_c(
        false,
    )
}

pub fn and(and_input: u8, register_a: &mut u8, pc_delta: i16, cycles: u8) -> (diff: CpuDiff)
    ensures
        *final(register_a) == *old(register_a) & and_input,
        diff == CpuDiff::with(
            pc_delta,
            cycles,
            FlagDiff::all(*old(register_a) & and_input == 0, false, true, false),
        ),
{
    *register_a = *register_a & and_input;
    CpuDiff::new(pc_delta, cycles).flag_z(*register_a == 0).flag_n(false).flag_h(true).flag_c(
        false,
    )
}

pub fn ld_reg8_mem8(dst_register: &mut u8, src_memory: u8) -> (diff: CpuDiff)
    ensures
        *final(dst_register) == src_memory,
        diff == CpuDiff::plain(2, 8),
{
    *dst_register = src_memory;
    CpuDiff::new(2, 8)
}

pub fn ld_reg8_reg8(dst_register: &mut u8, src_register: u8) -> (diff: CpuDiff)
    ensures
        *final(dst_register) == src_register,
        diff == CpuDiff::plain(1, 4),
{
    *dst_register = src_register;
    CpuDiff::new(1, 4)
}

pub fn nop() -> (diff: CpuDiff)
    ensures
        diff == CpuDiff::plain(1, 4),
{
    CpuDiff::new(1, 4)
}

/// The flags of a 16-bit addition: the zero flag is left alone, the
/// half-carry is the carry out of bit 11, the carry that out of bit 15.
pub open spec fn addition16_flags(src: u16, dst: u16) -> FlagDiff {
    FlagDiff {
        z: None,
        n: Some(false),
        h: Some((dst & 0x0fff) + (src & 0x0fff) > 0x0fff),
        c: Some(dst + src > 0xffff),
    }
}

pub fn add_reg16(src: u16, dst_register: &mut u16) -> (diff: CpuDiff)
    ensures
        *final(dst_register) == ((*old(dst_register) + src) % 0x10000) as u16,
        diff == CpuDiff::with(1, 8, addition16_flags(src, *old(dst_register))),
{
    let full_carry = (*dst_register as u32) + (src as u32) > 0xffff;
    let half_carry = ((*dst_register & 0x0fff) as u32) + ((src & 0x0fff) as u32) > 0x0fff;
    *dst_register = dst_register.wrapping_add(src);
    CpuDiff::new(1, 8).flag_n(false).flag_h(half_carry).flag_c(full_carry)
}

pub fn add_u8(add_src: u8, registers: &mut Registers, pc_delta: i16, cycles: u8) -> (diff: CpuDiff)
    ensures
        *final(registers) == (Registers { a: sum8(old(registers).a, add_src, 0), ..*old(registers) }),
        diff == CpuDiff::with(pc_delta, cycles, addition_flags(old(registers).a, add_src, 0)),
{
    let half_carry = addition_produces_half_carry(registers.a, add_src, registers.f, false);
    let full_carry = addition_produces_full_carry(registers.a, add_src);
    registers.a = registers.a.wrapping_add(add_src);
    CpuDiff::new(pc_delta, cycles).flag_z(registers.a == 0).flag_n(false).flag_h(half_carry).flag_c(
        full_carry,
    )
}

pub fn adc(add_src: u8, registers: &mut Registers, pc_delta: i16, cycles: u8) -> (diff: CpuDiff)
    ensures
        *final(registers) == (Registers {
            a: sum8(old(registers).a, add_src, carry_in(old(registers).f, true)),
            ..*old(registers)
        }),
        diff == CpuDiff::with(
            pc_delta,
            cycles,
            addition_flags(old(registers).a, add_src, carry_in(old(registers).f, true)),
        ),
{
    let carry_value: u8 = if (registers.f & FLAG_CARRY) != 0 {
        1
    } else {
        0
    };
    let half_carry_flag = addition_produces_half_carry(registers.a, add_src, registers.f, true);
    let full_carry_flag = (registers.a as u16) + (add_src as u16) + (carry_value as u16) > 0xff;
    registers.a = registers.a.wrapping_add(add_src).wrapping_add(carry_value);
    CpuDiff::new(pc_delta, cycles).flag_h(half_carry_flag).flag_c(full_carry_flag).flag_z(
        registers.a == 0,
    ).flag_n(false)
}

pub fn sub(sub_src: u8, registers: &mut Registers, pc_delta: i16, cycles: u8) -> (diff: CpuDiff)
    ensures
        *final(registers) == (Registers {
            a: difference8(old(registers).a, sub_src, 0),
            ..*old(registers)
        }),
        diff == CpuDiff::with(pc_delta, cycles, subtraction_flags(old(registers).a, sub_src, 0)),
{
    let half_carry = subtraction_produces_half_carry(registers.a, sub_src, registers.f, false);
    let full_carry = subtraction_produces_full_carry(registers.a, sub_src);
    registers.a = registers.a.wrapping_sub(sub_src);
    CpuDiff::new(pc_delta, cycles).flag_z(registers.a == 0).flag_n(true).flag_h(half_carry).flag_c(
        full_carry,
    )
}

pub fn sbc(sub_src: u8, registers: &mut Registers, pc_delta: i16, cycles: u8) -> (diff: CpuDiff)
    ensures
        *final(registers) == (Registers {
            a: difference8(old(registers).a, sub_src, carry_in(old(registers).f, true)),
            ..*old(registers)
        }),
        diff == CpuDiff::with(
            pc_delta,
            cycles,
            subtraction_flags(old(registers).a, sub_src, carry_in(old(registers).f, true)),
        ),
{
    let carry: u8 = if (registers.f & FLAG_CARRY) != 0 {
        1
    } else {
        0
    };
    let half_carry = subtraction_produces_half_carry(registers.a, sub_src, registers.f, true);
    let full_carry = (registers.a as i16) - (sub_src as i16) - (carry as i16) < 0;
    registers.a = registers.a.wrapping_sub(sub_src).wrapping_sub(carry);
    CpuDiff::new(pc_delta, cycles).flag_z(registers.a == 0).flag_n(true).flag_h(half_carry).flag_c(
        full_carry,
    )
}

pub fn cp(comparator: u8, registers: &Registers, pc_delta: i16, cycles: u8) -> (diff: CpuDiff)
    ensures
        diff == CpuDiff::with(pc_delta, cycles, subtraction_flags(registers.a, comparator, 0)),
{
    let half_carry = subtraction_produces_half_carry(registers.a, comparator, registers.f, false);
    let full_carry = subtraction_produces_full_carry(registers.a, comparator);
    let sub_result: u8 = registers.a.wrapping_sub(comparator);
    CpuDiff::new(pc_delta, cycles).flag_z(sub_result == 0).flag_n(true).flag_h(half_carry).flag_c(
        full_carry,
    )
}

/// A call to the address that follows the opcode, where `condition` holds:
/// the address of the next instruction is pushed and the program counter is
/// set to the target.
pub fn call(condition: bool, registers: &mut Registers, memory: &mut Memory) -> (diff: CpuDiff)
    requires
        !is_prohibited(old(registers).pc.wrapping_add(1)),
        !is_prohibited(old(registers).pc.wrapping_add(2)),
    ensures
        condition ==> {
            let pushed = push_spec(
                *old(registers),
                old(memory)@,
                old(registers).pc.wrapping_add(3),
            );
            &&& *final(registers) == (Registers {
                pc: old(memory)@.read_u16(old(registers).pc.wrapping_add(1)),
                ..pushed.0
            })
            &&& final(memory)@ == pushed.1
            &&& diff == CpuDiff::plain(0, 24)
        },
        !condition ==> {
            &&& *final(registers) == *old(registers)
            &&& final(memory)@ == old(memory)@
            &&& diff == CpuDiff::plain(3, 12)
        },
        old(memory)@.well_formed() ==> final(memory)@.well_formed(),
{
    if condition {
        let target: u16 = memory.read_u16(registers.pc.wrapping_add(1));
        stack_push(registers.pc.wrapping_add(3), &mut registers.sp, memory);
        registers.pc = target;
        CpuDiff::new(0, 24)
    } else {
        CpuDiff::new(3, 12)
    }
}

/// A call to a fixed address in the first page.
pub fn rst(address_lower_byte: u8, registers: &mut Registers, memory: &mut Memory) -> (diff: CpuDiff)
    ensures
        ({
            let pushed = push_spec(
                *old(registers),
                old(memory)@,
                old(registers).pc.wrapping_add(1),
            );
            &&& *final(registers) == (Registers { pc: address_lower_byte as u16, ..pushed.0 })
            &&& final(memory)@ == pushed.1
            &&& diff == CpuDiff::plain(0, 16)
        }),
        old(memory)@.well_formed() ==> final(memory)@.well_formed(),
{
    stack_push(registers.pc.wrapping_add(1), &mut registers.sp, memory);
    registers.pc = address_lower_byte as u16;
    CpuDiff::new(0, 16)
}

} // verus!
