//! The processor: its registers, and the execution of one instruction at a
//! time with the interrupt dispatch that follows it.

use vstd::prelude::*;
use crate::bits::high_byte;
use crate::bits::low_byte;
use crate::bits::make_u16;
use crate::bits::split_u16;
use crate::bits::word_of;
use crate::address;
use crate::cpu::decode::decode;
use crate::cpu::decode::Instr;
use crate::cpu::instructions::CpuDiff;
use crate::cpu::instructions::FlagDiff;
use crate::cpu::semantics::condition_holds;
use crate::cpu::semantics::dispatch_spec;
use crate::cpu::semantics::effect_spec;
use crate::cpu::semantics::execute_spec;
use crate::cpu::semantics::fetch_spec;
use crate::cpu::semantics::pair_value;
use crate::cpu::semantics::step_spec;
use crate::cpu::semantics::with_pair;
use crate::cpu::semantics::Effect;
use crate::cpu::semantics::Fetched;
use crate::interrupt;
use crate::memory::Fault;
use crate::memory::is_prohibited;
use crate::memory::Memory;
use crate::memory::MemoryModel;

pub mod decode;
pub mod execute;
pub mod instructions;
pub mod semantics;

verus! {

/// Zero flag ("Z").
pub const FLAG_ZERO: u8 = 0x80;

/// Subtraction flag ("N").
pub const FLAG_SUBTRACTION: u8 = 0x40;

/// Half-carry flag ("H").
pub const FLAG_HALFCARRY: u8 = 0x20;

/// Carry flag ("C").
pub const FLAG_CARRY: u8 = 0x10;

/// The flags byte with the flag `mask` changed as `change` says.
pub open spec fn with_flag(f: u8, mask: u8, change: Option<bool>) -> u8 {
    match change {
        Some(true) => f | mask,
        Some(false) => f & !mask,
        None => f,
    }
}

/// The flags byte after the changes of `diff`.
pub open spec fn with_flags(f: u8, diff: FlagDiff) -> u8 {
    with_flag(
        with_flag(
            with_flag(with_flag(f, FLAG_ZERO, diff.z), FLAG_SUBTRACTION, diff.n),
            FLAG_HALFCARRY,
            diff.h,
        ),
        FLAG_CARRY,
        diff.c,
    )
}

/// Whether the flag `mask` is set in the flags byte `f`.
pub open spec fn flag_is_set(f: u8, mask: u8) -> bool {
    f & mask != 0
}

/// The flag that a change names holds its new value afterwards, every flag
/// without a change keeps its old one, and the low four bits stay as they
/// were.
pub proof fn lemma_with_flags(f: u8, diff: FlagDiff)
    ensures
        flag_is_set(with_flags(f, diff), FLAG_ZERO) == (match diff.z {
            Some(z) => z,
            None => flag_is_set(f, FLAG_ZERO),
        }),
        flag_is_set(with_flags(f, diff), FLAG_SUBTRACTION) == (match diff.n {
            Some(n) => n,
            None => flag_is_set(f, FLAG_SUBTRACTION),
        }),
        flag_is_set(with_flags(f, diff), FLAG_HALFCARRY) == (match diff.h {
            Some(h) => h,
            None => flag_is_set(f, FLAG_HALFCARRY),
        }),
        flag_is_set(with_flags(f, diff), FLAG_CARRY) == (match diff.c {
            Some(c) => c,
            None => flag_is_set(f, FLAG_CARRY),
        }),
        with_flags(f, diff) & 0x0f == f & 0x0f,
{
    let f1 = with_flag(f, FLAG_ZERO, diff.z);
    let f2 = with_flag(f1, FLAG_SUBTRACTION, diff.n);
    let f3 = with_flag(f2, FLAG_HALFCARRY, diff.h);
    lemma_one_flag(f, 0x80, 0x40);
    lemma_one_flag(f, 0x80, 0x20);
    lemma_one_flag(f, 0x80, 0x10);
    lemma_one_flag(f1, 0x40, 0x80);
    lemma_one_flag(f1, 0x40, 0x20);
    lemma_one_flag(f1, 0x40, 0x10);
    lemma_one_flag(f2, 0x20, 0x80);
    lemma_one_flag(f2, 0x20, 0x40);
    lemma_one_flag(f2, 0x20, 0x10);
    lemma_one_flag(f3, 0x10, 0x80);
    lemma_one_flag(f3, 0x10, 0x40);
    lemma_one_flag(f3, 0x10, 0x20);
}

/// Setting or clearing one of the four flag bits changes that bit alone.
pub proof fn lemma_one_flag(f: u8, mask: u8, other: u8)
    by (bit_vector)
    requires
        mask == 0x80 || mask == 0x40 || mask == 0x20 || mask == 0x10,
        other == 0x80 || other == 0x40 || other == 0x20 || other == 0x10,
        other != mask,
    ensures
        (f | mask) & mask != 0,
        (f & !mask) & mask == 0,
        (f | mask) & other == f & other,
        (f & !mask) & other == f & other,
        (f | mask) & 0x0f == f & 0x0f,
        (f & !mask) & 0x0f == f & 0x0f,
{
}

/// The register file.
#[derive(Clone, Copy, Debug, PartialEq, Eq, Structural)]
pub struct Registers {
    pub a: u8,
    pub b: u8,
    pub c: u8,
    pub d: u8,
    pub e: u8,
    /// The flags, in the high four bits.
    pub f: u8,
    pub h: u8,
    pub l: u8,
    /// Program counter.
    pub pc: u16,
    /// Stack pointer.
    pub sp: u16,
    /// Interrupt master enable.
    pub ime: bool,
}

impl Registers {
    /// The low four bits of the flags byte are zero.
    pub open spec fn well_formed(self) -> bool {
        self.f & 0x0f == 0
    }

    pub open spec fn af_spec(self) -> u16 {
        word_of(self.f, self.a)
    }

    pub open spec fn bc_spec(self) -> u16 {
        word_of(self.c, self.b)
    }

    pub open spec fn de_spec(self) -> u16 {
        word_of(self.e, self.d)
    }

    pub open spec fn hl_spec(self) -> u16 {
        word_of(self.l, self.h)
    }

    /// The registers with AF replaced; the low four bits of F read as zero
    /// whatever is written to them.
    pub open spec fn with_af(self, new_af: u16) -> Registers {
        Registers { f: low_byte(new_af) & 0xf0, a: high_byte(new_af), ..self }
    }

    pub open spec fn with_bc(self, new_bc: u16) -> Registers {
        Registers { c: low_byte(new_bc), b: high_byte(new_bc), ..self }
    }

    pub open spec fn with_de(self, new_de: u16) -> Registers {
        Registers { e: low_byte(new_de), d: high_byte(new_de), ..self }
    }

    pub open spec fn with_hl(self, new_hl: u16) -> Registers {
        Registers { l: low_byte(new_hl), h: high_byte(new_hl), ..self }
    }

    /// Whether the carry flag is set.
    pub open spec fn carry(self) -> bool {
        flag_is_set(self.f, FLAG_CARRY)
    }

    /// The register that the 3-bit operand code names; code 6 stands for the
    /// byte in memory at HL and names no register.
    pub open spec fn operand_register(self, operand_code_3bit: u8) -> u8 {
        if operand_code_3bit == 0 {
            self.b
        } else if operand_code_3bit == 1 {
            self.c
        } else if operand_code_3bit == 2 {
            self.d
        } else if operand_code_3bit == 3 {
            self.e
        } else if operand_code_3bit == 4 {
            self.h
        } else if operand_code_3bit == 5 {
            self.l
        } else {
            self.a
        }
    }

    /// The registers with the one that the operand code names replaced.
    pub open spec fn with_operand_register(self, operand_code_3bit: u8, value: u8) -> Registers {
        if operand_code_3bit == 0 {
            Registers { b: value, ..self }
        } else if operand_code_3bit == 1 {
            Registers { c: value, ..self }
        } else if operand_code_3bit == 2 {
            Registers { d: value, ..self }
        } else if operand_code_3bit == 3 {
            Registers { e: value, ..self }
        } else if operand_code_3bit == 4 {
            Registers { h: value, ..self }
        } else if operand_code_3bit == 5 {
            Registers { l: value, ..self }
        } else {
            Registers { a: value, ..self }
        }
    }

    /// The registers at power-on, after the boot program has run.
    pub open spec fn power_on() -> Registers {
        Registers {
            a: 0x01,
            b: 0x00,
            c: 0x13,
            d: 0x00,
            e: 0xd8,
            f: 0xb0,
            h: 0x01,
            l: 0x4d,
            pc: 0x0100,
            sp: 0xfffe,
            ime: true,
        }
    }

    /// The registers at power-on, after the boot program has run.
    pub fn new() -> (registers: Registers)
        ensures
            registers == Registers::power_on(),
            registers.af_spec() == 0x01b0,
            registers.bc_spec() == 0x0013,
            registers.de_spec() == 0x00d8,
            registers.hl_spec() == 0x014d,
            registers.well_formed(),
    {
        assert(0xb0u8 & 0x0f == 0) by (bit_vector);
        Registers {
            a: 0x01,
            b: 0x00,
            c: 0x13,
            d: 0x00,
            e: 0xd8,
            f: 0xb0,
            h: 0x01,
            l: 0x4d,
            pc: 0x0100,
            sp: 0xfffe,
            ime: true,
        }
    }

    pub fn af(&self) -> (af: u16)
        ensures
            af == self.af_spec(),
    {
        make_u16(self.f, self.a)
    }

    pub fn set_af(&mut self, new_af: u16)
        ensures
            *final(self) == old(self).with_af(new_af),
            final(self).well_formed(),
            final(self).a == high_byte(new_af),
    {
        let bytes = split_u16(new_af);
        let low: u8 = bytes.0;
        assert((low & 0xf0) & 0x0f == 0) by (bit_vector);
        self.f = low & 0xf0;
        self.a = bytes.1;
    }

    pub fn bc(&self) -> (bc: u16)
        ensures
            bc == self.bc_spec(),
    {
        make_u16(self.c, self.b)
    }

    pub fn set_bc(&mut self, new_bc: u16)
        ensures
            *final(self) == old(self).with_bc(new_bc),
            final(self).bc_spec() == new_bc,
    {
        let bytes = split_u16(new_bc);
        self.c = bytes.0;
        self.b = bytes.1;
    }

    pub fn de(&self) -> (de: u16)
        ensures
            de == self.de_spec(),
    {
        make_u16(self.e, self.d)
    }

    pub fn set_de(&mut self, new_de: u16)
        ensures
            *final(self) == old(self).with_de(new_de),
            final(self).de_spec() == new_de,
    {
        let bytes = split_u16(new_de);
        self.e = bytes.0;
        self.d = bytes.1;
    }

    pub fn hl(&self) -> (hl: u16)
        ensures
            hl == self.hl_spec(),
    {
        make_u16(self.l, self.h)
    }

    pub fn set_hl(&mut self, new_hl: u16)
        ensures
            *final(self) == old(self).with_hl(new_hl),
            final(self).hl_spec() == new_hl,
    {
        let bytes = split_u16(new_hl);
        self.l = bytes.0;
        self.h = bytes.1;
    }

    /// The value of the operand that a 3-bit code names: a register, or for
    /// code 6 the byte in memory at HL.
    pub fn read_operand_8bit(&self, operand_code_3bit: u8, memory: &Memory) -> (value: u8)
        requires
            operand_code_3bit < 8,
            operand_code_3bit == 6 ==> !is_prohibited(self.hl_spec()),
        ensures
            value == operand_value(*self, memory@, operand_code_3bit),
    {
        match operand_code_3bit {
            0x00 => self.b,
            0x01 => self.c,
            0x02 => self.d,
            0x03 => self.e,
            0x04 => self.h,
            0x05 => self.l,
            0x06 => memory.read(self.hl()),
            _ => self.a,
        }
    }

    /// Stores a value in the operand that a 3-bit code names: a register, or
    /// for code 6 the byte in memory at HL.
    pub fn write_operand_8bit(&mut self, operand_value: u8, operand_code_3bit: u8, memory: &mut Memory)
        requires
            operand_code_3bit < 8,
        ensures
            *final(self) == registers_after_operand_write(*old(self), operand_code_3bit, operand_value),
            final(memory)@ == memory_after_operand_write(
                *old(self),
                old(memory)@,
                operand_code_3bit,
                operand_value,
            ),
            old(memory)@.well_formed() ==> final(memory)@.well_formed(),
    {
        match operand_code_3bit {
            0x00 => self.b = operand_value,
            0x01 => self.c = operand_value,
            0x02 => self.d = operand_value,
            0x03 => self.e = operand_value,
            0x04 => self.h = operand_value,
            0x05 => self.l = operand_value,
            0x06 => memory.write(self.hl(), operand_value),
            _ => self.a = operand_value,
        };
    }

    /// Applies the flag changes of an instruction.
    pub fn update_flags(&mut self, flag_changes: FlagDiff)
        ensures
            *final(self) == (Registers { f: with_flags(old(self).f, flag_changes), ..*old(self) }),
            old(self).well_formed() ==> final(self).well_formed(),
    {
        proof {
            lemma_with_flags(self.f, flag_changes);
        }
        if let Some(z) = flag_changes.z {
            if z {
                self.f = self.f | FLAG_ZERO;
            } else {
                self.f = self.f & !FLAG_ZERO;
            }
        }
        if let Some(n) = flag_changes.n {
            if n {
                self.f = self.f | FLAG_SUBTRACTION;
            } else {
                self.f = self.f & !FLAG_SUBTRACTION;
            }
        }
        if let Some(h) = flag_changes.h {
            if h {
                self.f = self.f | FLAG_HALFCARRY;
            } else {
                self.f = self.f & !FLAG_HALFCARRY;
            }
        }
        if let Some(c) = flag_changes.c {
            if c {
                self.f = self.f | FLAG_CARRY;
            } else {
                self.f = self.f & !FLAG_CARRY;
            }
        }
    }
}

/// The value of an 8-bit operand: the register that the code names, or for
/// code 6 the byte in memory at HL.
pub open spec fn operand_value(registers: Registers, m: MemoryModel, operand_code_3bit: u8) -> u8 {
    if operand_code_3bit == 6 {
        m.read(registers.hl_spec())
    } else {
        registers.operand_register(operand_code_3bit)
    }
}

/// The registers after a value was stored in an 8-bit operand.
pub open spec fn registers_after_operand_write(
    registers: Registers,
    operand_code_3bit: u8,
    value: u8,
) -> Registers {
    if operand_code_3bit == 6 {
        registers
    } else {
        registers.with_operand_register(operand_code_3bit, value)
    }
}

/// The address space after a value was stored in an 8-bit operand.
pub open spec fn memory_after_operand_write(
    registers: Registers,
    m: MemoryModel,
    operand_code_3bit: u8,
    value: u8,
) -> MemoryModel {
    if operand_code_3bit == 6 {
        m.write(registers.hl_spec(), value)
    } else {
        m
    }
}

/// Pushes a word: the stack pointer moves down by two and the word is
/// written there, low byte first.
pub fn stack_push(value_to_push: u16, sp: &mut u16, memory: &mut Memory)
    ensures
        *final(sp) == old(sp).wrapping_sub(2),
        final(memory)@ == old(memory)@.write_u16(old(sp).wrapping_sub(2), value_to_push),
        old(memory)@.well_formed() ==> final(memory)@.well_formed(),
{
    *sp = sp.wrapping_sub(2);
    memory.write_u16(*sp, value_to_push);
}

/// Pops a word: it is read at the stack pointer, which then moves up by two.
pub fn stack_pop(sp: &mut u16, memory: &Memory) -> (popped_value: u16)
    requires
        !is_prohibited(*old(sp)),
        !is_prohibited(old(sp).wrapping_add(1)),
    ensures
        popped_value == memory@.read_u16(*old(sp)),
        *final(sp) == old(sp).wrapping_add(2),
{
    let popped_value = memory.read_u16(*sp);
    *sp = sp.wrapping_add(2);
    popped_value
}

/// The processor.
#[derive(Clone, Copy, Debug, PartialEq, Eq, Structural)]
pub struct Cpu {
    pub registers: Registers,
    /// Whether the processor waits for an interrupt.
    pub is_halted: bool,
}

impl Cpu {
    /// The low four bits of the flags byte are zero.
    pub open spec fn well_formed(self) -> bool {
        self.registers.well_formed()
    }

    /// What this state and an address space make of an instruction's result.
    pub open spec fn effect(self, memory: MemoryModel, diff: CpuDiff) -> Effect {
        Effect { registers: self.registers, is_halted: self.is_halted, memory, diff }
    }

    /// The processor at power-on.
    pub fn new() -> (cpu: Cpu)
        ensures
            cpu == (Cpu { registers: Registers::power_on(), is_halted: false }),
            cpu.registers.af_spec() == 0x01b0,
            cpu.registers.bc_spec() == 0x0013,
            cpu.registers.de_spec() == 0x00d8,
            cpu.registers.hl_spec() == 0x014d,
            cpu.well_formed(),
    {
        Cpu { registers: Registers::new(), is_halted: false }
    }

    pub fn condition(&self, condition: u8) -> (holds: bool)
        ensures
            holds == condition_holds(condition, self.registers.f),
    {
        if condition == 0 {
            self.registers.f & FLAG_ZERO == 0
        } else if condition == 1 {
            self.registers.f & FLAG_ZERO != 0
        } else if condition == 2 {
            self.registers.f & FLAG_CARRY == 0
        } else {
            self.registers.f & FLAG_CARRY != 0
        }
    }

    pub fn pair(&self, pair: u8) -> (value: u16)
        ensures
            value == pair_value(self.registers, pair),
    {
        if pair == 0 {
            self.registers.bc()
        } else if pair == 1 {
            self.registers.de()
        } else if pair == 2 {
            self.registers.hl()
        } else {
            self.registers.sp
        }
    }

    pub fn set_pair(&mut self, pair: u8, value: u16)
        ensures
            final(self).registers == with_pair(old(self).registers, pair, value),
            final(self).is_halted == old(self).is_halted,
    {
        if pair == 0 {
            self.registers.set_bc(value);
        } else if pair == 1 {
            self.registers.set_de(value);
        } else if pair == 2 {
            self.registers.set_hl(value);
        } else {
            self.registers.sp = value;
        }
    }

    /// Reads the instruction at the program counter, the bytes that follow
    /// it and its operand.
    pub fn fetch(&self, memory: &Memory) -> (fetched: Result<Fetched, Fault>)
        ensures
            fetched == fetch_spec(self.registers, memory@),
            fetched is Ok ==> fetched->Ok_0.instr.well_formed(),
    {
        let opcode: u8 = match memory.checked_read(self.registers.pc) {
            Ok(byte) => byte,
            Err(fault) => {
                return Err(fault);
            },
        };
        let instr = decode(opcode);
        let next: u16 = self.registers.pc.wrapping_add(1);
        let immediate: u16 = match instr {
            Instr::Undefined => {
                return Err(Fault::UndefinedOpcode(opcode));
            },
            Instr::StoreSp
            | Instr::LoadPairImm(_)
            | Instr::JpCond(_)
            | Instr::Jp
            | Instr::CallCond(_)
            | Instr::Call
            | Instr::StoreAbs
            | Instr::LoadAbs => match memory.checked_read_u16(next) {
                Ok(word) => word,
                Err(fault) => {
                    return Err(fault);
                },
            },
            Instr::Jr
            | Instr::JrCond(_)
            | Instr::LoadImm(_)
            | Instr::AluImm(_)
            | Instr::StoreHigh
            | Instr::LoadHigh
            | Instr::AddSp
            | Instr::LoadHlSp
            | Instr::Prefixed => match memory.checked_read(next) {
                Ok(byte) => byte as u16,
                Err(fault) => {
                    return Err(fault);
                },
            },
            _ => 0,
        };
        let operand: u16 = match self.fetch_operand(instr, immediate, memory) {
            Ok(operand) => operand,
            Err(fault) => {
                return Err(fault);
            },
        };
        Ok(Fetched { instr, immediate, operand })
    }

    fn fetch_operand(&self, instr: Instr, immediate: u16, memory: &Memory) -> (operand: Result<
        u16,
        Fault,
    >)
        requires
            instr.well_formed(),
        ensures
            operand == crate::cpu::semantics::operand_spec(
                crate::cpu::semantics::source_of(instr, self.registers, immediate),
                self.registers,
                memory@,
            ),
    {
        match instr {
            Instr::LoadA(indirect) => {
                let address: u16 = if indirect == 0 {
                    self.registers.bc()
                } else if indirect == 1 {
                    self.registers.de()
                } else {
                    self.registers.hl()
                };
                self.fetch_byte(address, memory)
            },
            Instr::Inc(code) | Instr::Dec(code) | Instr::Load(_, code) | Instr::Alu(_, code) => {
                self.fetch_operand_8bit(code, memory)
            },
            Instr::RetCond(condition) => {
                if self.condition(condition) {
                    memory.checked_read_u16(self.registers.sp)
                } else {
                    Ok(0)
                }
            },
            Instr::Ret | Instr::Reti | Instr::Pop(_) => memory.checked_read_u16(self.registers.sp),
            Instr::LoadHigh => {
                let offset: u8 = crate::bits::split_u16(immediate).0;
                self.fetch_byte(0xff00 + (offset as u16), memory)
            },
            Instr::LoadHighC => self.fetch_byte(0xff00 + (self.registers.c as u16), memory),
            Instr::LoadAbs => self.fetch_byte(immediate, memory),
            Instr::Prefixed => {
                let extended: u8 = crate::bits::split_u16(immediate).0;
                self.fetch_operand_8bit(extended % 8, memory)
            },
            _ => Ok(0),
        }
    }

    fn fetch_byte(&self, address: u16, memory: &Memory) -> (operand: Result<u16, Fault>)
        ensures
            operand == crate::cpu::semantics::operand_spec(
                crate::cpu::semantics::Source::Byte(address),
                self.registers,
                memory@,
            ),
    {
        match memory.checked_read(address) {
            Ok(byte) => Ok(byte as u16),
            Err(fault) => Err(fault),
        }
    }

    fn fetch_operand_8bit(&self, code: u8, memory: &Memory) -> (operand: Result<u16, Fault>)
        requires
            code < 8,
        ensures
            operand == crate::cpu::semantics::operand_spec(
                if code == 6 {
                    crate::cpu::semantics::Source::Byte(self.registers.hl_spec())
                } else {
                    crate::cpu::semantics::Source::Register(code)
                },
                self.registers,
                memory@,
            ),
    {
        if code == 6 {
            let address: u16 = self.registers.hl();
            if address >= 0xfea0 && address <= 0xfeff {
                return Err(Fault::ProhibitedRead(address));
            }
        }
        Ok(self.registers.read_operand_8bit(code, memory) as u16)
    }

    /// Serves a pending interrupt, and wakes the processor where one is
    /// pending. Says whether one was served.
    pub fn handle_interrupt_requests(&mut self, memory: &mut Memory) -> (served: bool)
        ensures
            (*final(self), final(memory)@) == dispatch_spec(*old(self), old(memory)@),
            served == crate::cpu::semantics::interrupt_served(*old(self), old(memory)@),
            old(self).well_formed() ==> final(self).well_formed(),
            old(memory)@.well_formed() ==> final(memory)@.well_formed(),
    {
        let mut requested_interrupts: u8 = memory.peek(address::INTERRUPT_FLAGS);
        let enabled_interrupts: u8 = memory.peek(address::INTERRUPT_ENABLE);
        let interrupts_to_handle: u8 = requested_interrupts & enabled_interrupts & 0x1f;
        if interrupts_to_handle != 0x00 {
            if self.is_halted {
                self.is_halted = false;
            }
            if self.registers.ime {
                self.registers.ime = false;
                stack_push(self.registers.pc, &mut self.registers.sp, memory);
                if interrupts_to_handle & interrupt::FLAG_VBLANK != 0 {
                    requested_interrupts = requested_interrupts & !interrupt::FLAG_VBLANK;
                    self.registers.pc = 0x0040;
                } else if interrupts_to_handle & interrupt::FLAG_LCD_STAT != 0 {
                    requested_interrupts = requested_interrupts & !interrupt::FLAG_LCD_STAT;
                    self.registers.pc = 0x0048;
                } else if interrupts_to_handle & interrupt::FLAG_TIMER != 0 {
                    requested_interrupts = requested_interrupts & !interrupt::FLAG_TIMER;
                    self.registers.pc = 0x0050;
                } else if interrupts_to_handle & interrupt::FLAG_SERIAL != 0 {
                    requested_interrupts = requested_interrupts & !interrupt::FLAG_SERIAL;
                    self.registers.pc = 0x0058;
                } else {
                    requested_interrupts = requested_interrupts & !interrupt::FLAG_JOYPAD;
                    self.registers.pc = 0x0060;
                }
                *memory.direct_access(address::INTERRUPT_FLAGS) = requested_interrupts;
                return true;
            }
        }
        false
    }

    /// Executes the next instruction and then checks for interrupts. Gives
    /// the cycles that the instruction took, or the fault that stopped it
    /// with nothing changed.
    pub fn execute_next_instruction(&mut self, memory: &mut Memory) -> (cycles: Result<u8, Fault>)
        ensures
            match cycles {
                Ok(count) => {
                    &&& step_spec(*old(self), old(memory)@) is Ok
                    &&& *final(self) == step_spec(*old(self), old(memory)@)->Ok_0.cpu
                    &&& final(memory)@ == step_spec(*old(self), old(memory)@)->Ok_0.memory
                    &&& count == step_spec(*old(self), old(memory)@)->Ok_0.cycles
                    &&& 4 <= count <= 24
                },
                Err(fault) => {
                    &&& step_spec(*old(self), old(memory)@) == Err::<
                        crate::cpu::semantics::Stepped,
                        Fault,
                    >(fault)
                    &&& *final(self) == *old(self)
                    &&& final(memory)@ == old(memory)@
                },
            },
            old(self).well_formed() ==> final(self).well_formed(),
            old(memory)@.well_formed() ==> final(memory)@.well_formed(),
    {
        let cycles: u8 = match self.execute_next_instruction_inner(memory) {
            Ok(count) => count,
            Err(fault) => {
                return Err(fault);
            },
        };
        if self.handle_interrupt_requests(memory) {
            Ok(cycles + interrupt::DISPATCH_CYCLES)
        } else {
            Ok(cycles)
        }
    }

    /// Executes the next instruction, or waits four cycles where the
    /// processor is halted.
    pub fn execute_next_instruction_inner(&mut self, memory: &mut Memory) -> (cycles: Result<
        u8,
        Fault,
    >)
        ensures
            match cycles {
                Ok(count) => {
                    &&& execute_spec(*old(self), old(memory)@) is Ok
                    &&& *final(self) == execute_spec(*old(self), old(memory)@)->Ok_0.cpu
                    &&& final(memory)@ == execute_spec(*old(self), old(memory)@)->Ok_0.memory
                    &&& count == execute_spec(*old(self), old(memory)@)->Ok_0.cycles
                    &&& 4 <= count <= 24
                },
                Err(fault) => {
                    &&& execute_spec(*old(self), old(memory)@) == Err::<
                        crate::cpu::semantics::Stepped,
                        Fault,
                    >(fault)
                    &&& *final(self) == *old(self)
                    &&& final(memory)@ == old(memory)@
                },
            },
            old(self).well_formed() ==> final(self).well_formed(),
            old(memory)@.well_formed() ==> final(memory)@.well_formed(),
    {
        if self.is_halted {
            return Ok(4);
        }
        let fetched = match self.fetch(memory) {
            Ok(fetched) => fetched,
            Err(fault) => {
                return Err(fault);
            },
        };
        let diff = self.execute(fetched, memory);
        self.registers.pc = self.registers.pc.wrapping_add_signed(diff.pc_delta);
        self.registers.update_flags(diff.flag_diff);
        Ok(diff.cycles)
    }

    /// Lets a fetched instruction act on the registers and the address
    /// space.
    pub fn execute(&mut self, fetched: Fetched, memory: &mut Memory) -> (diff: CpuDiff)
        requires
            !old(self).is_halted,
            fetch_spec(old(self).registers, old(memory)@) == Ok::<Fetched, Fault>(fetched),
            fetched.instr.well_formed(),
        ensures
            final(self).effect(final(memory)@, diff) == effect_spec(
                fetched,
                old(self).registers,
                old(self).is_halted,
                old(memory)@,
            ),
            4 <= diff.cycles <= 24,
            old(self).well_formed() ==> final(self).well_formed(),
            old(memory)@.well_formed() ==> final(memory)@.well_formed(),
    {
        match fetched.instr {
            Instr::Nop
            | Instr::Undefined
            | Instr::StoreSp
            | Instr::LoadPairImm(_)
            | Instr::StoreA(_)
            | Instr::LoadA(_)
            | Instr::LoadImm(_)
            | Instr::Load(_, _)
            | Instr::StoreHigh
            | Instr::LoadHigh
            | Instr::StoreHighC
            | Instr::LoadHighC
            | Instr::StoreAbs
            | Instr::LoadAbs
            | Instr::LoadSpHl
            | Instr::Push(_)
            | Instr::Pop(_) => self.execute_transfer(fetched, memory),
            Instr::Jr
            | Instr::JrCond(_)
            | Instr::RetCond(_)
            | Instr::Ret
            | Instr::Reti
            | Instr::JpCond(_)
            | Instr::Jp
            | Instr::JpHl
            | Instr::CallCond(_)
            | Instr::Call
            | Instr::Rst(_)
            | Instr::Halt
            | Instr::Di
            | Instr::Ei => self.execute_control(fetched, memory),
            Instr::Prefixed => self.execute_prefixed(fetched, memory),
            _ => self.execute_arithmetic(fetched, memory),
        }
    }
}

} // verus!
