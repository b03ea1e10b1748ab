//! The execution of the base instructions, family by family.

use vstd::prelude::*;
use crate::bits::split_u16;
use crate::bits::to_signed;
use crate::cpu::decode::Instr;
use crate::cpu::instructions::adc;
use crate::cpu::instructions::add_reg16;
use crate::cpu::instructions::add_u8;
use crate::cpu::instructions::and;
use crate::cpu::instructions::cb::rl;
use crate::cpu::instructions::cb::rlc;
use crate::cpu::instructions::cb::rr;
use crate::cpu::instructions::cb::rrc;
use crate::cpu::instructions::call;
use crate::cpu::instructions::cp;
use crate::cpu::instructions::dec_u8;
use crate::cpu::instructions::inc_u8;
use crate::cpu::instructions::nop;
use crate::cpu::instructions::or;
use crate::cpu::instructions::rst;
use crate::cpu::instructions::sbc;
use crate::cpu::instructions::xor;
use crate::cpu::instructions::CpuDiff;
use crate::cpu::semantics::decimal_adjusted;
use crate::cpu::semantics::effect_spec;
use crate::cpu::semantics::fetch_spec;
use crate::cpu::semantics::offset16;
use crate::cpu::semantics::offset_flags;
use crate::cpu::semantics::stack_pair_value;
use crate::cpu::semantics::with_stack_pair;
use crate::cpu::semantics::Fetched;
use crate::cpu::stack_pop;
use crate::cpu::stack_push;
use crate::cpu::Cpu;
use crate::cpu::FLAG_CARRY;
use crate::cpu::FLAG_HALFCARRY;
use crate::cpu::FLAG_SUBTRACTION;
use crate::memory::Fault;
use crate::memory::Memory;

verus! {

/// The instructions that move data without arithmetic.
pub open spec fn is_transfer(instr: Instr) -> bool {
    match instr {
        Instr::Nop
        | Instr::Undefined
        | Instr::StoreSp
        | Instr::LoadPairImm(_)
        | Instr::StoreA(_)
        | Instr::LoadA(_)
        | Instr::LoadImm(_)
        | Instr::Load(_, _)
        | Instr::StoreHigh
        | Instr::LoadHigh
        | Instr::StoreHighC
        | Instr::LoadHighC
        | Instr::StoreAbs
        | Instr::LoadAbs
        | Instr::LoadSpHl
        | Instr::Push(_)
        | Instr::Pop(_) => true,
        _ => false,
    }
}

/// The instructions that change the flow of control.
pub open spec fn is_control(instr: Instr) -> bool {
    match instr {
        Instr::Jr
        | Instr::JrCond(_)
        | Instr::RetCond(_)
        | Instr::Ret
        | Instr::Reti
        | Instr::JpCond(_)
        | Instr::Jp
        | Instr::JpHl
        | Instr::CallCond(_)
        | Instr::Call
        | Instr::Rst(_)
        | Instr::Halt
        | Instr::Di
        | Instr::Ei => true,
        _ => false,
    }
}

/// The instructions that compute.
pub open spec fn is_arithmetic(instr: Instr) -> bool {
    !is_transfer(instr) && !is_control(instr) && instr != Instr::Prefixed
}

proof fn lemma_masks16(x: u16)
    by (bit_vector)
    ensures
        (x & 0x0f) == x % 16,
        (x & 0xff) == x % 256,
        (x & 0x100 != 0) == ((x / 256) % 2 == 1),
        (x & 0x10 != 0) == ((x / 16) % 2 == 1),
{
}

proof fn lemma_offset_carries(sp: u16, offset: u16, sum: u16)
    by (bit_vector)
    requires
        sum == ((sp + offset) % 0x10000) as u16,
    ensures
        ((sp ^ offset ^ sum) & 0x10 != 0) == ((sp % 16) + (offset % 16) > 0x0f),
        ((sp ^ offset ^ sum) & 0x100 != 0) == ((sp % 256) + (offset % 256) > 0xff),
{
}

/// What a successful fetch of the prefix says of the bytes it read.
proof fn lemma_prefixed_fetch(r: crate::cpu::Registers, m: crate::memory::MemoryModel, fetched: Fetched)
    requires
        fetched.instr == Instr::Prefixed,
        fetch_spec(r, m) == Ok::<Fetched, Fault>(fetched),
    ensures
        !crate::memory::is_prohibited(r.pc.wrapping_add(1)),
        crate::bits::low_byte(fetched.immediate) == m.read(r.pc.wrapping_add(1)),
        crate::cpu::instructions::cb::operand_code_of(m.read(r.pc.wrapping_add(1))) == 6
            ==> !crate::memory::is_prohibited(r.hl_spec()),
        crate::bits::low_byte(fetched.operand) == crate::cpu::operand_value(
            r,
            m,
            crate::cpu::instructions::cb::operand_code_of(m.read(r.pc.wrapping_add(1))),
        ),
{
    let opcode = m.read(r.pc);
    let instr = crate::cpu::decode::decode_spec(opcode);
    assert(instr == Instr::Prefixed);
    let immediate = crate::cpu::semantics::immediate_spec(instr, r.pc, m);
    assert(immediate is Ok);
    assert(immediate->Ok_0 == fetched.immediate);
    let source = crate::cpu::semantics::source_of(instr, r, fetched.immediate);
    assert(crate::cpu::semantics::operand_spec(source, r, m) == Ok::<u16, Fault>(fetched.operand));
}

impl Cpu {
    fn stack_pair(&self, pair: u8) -> (value: u16)
        ensures
            value == stack_pair_value(self.registers, pair),
    {
        if pair == 3 {
            self.registers.af()
        } else {
            self.pair(pair)
        }
    }

    fn set_stack_pair(&mut self, pair: u8, value: u16)
        ensures
            final(self).registers == with_stack_pair(old(self).registers, pair, value),
            final(self).is_halted == old(self).is_halted,
            old(self).well_formed() ==> final(self).well_formed(),
    {
        if pair == 3 {
            self.registers.set_af(value);
        } else {
            self.set_pair(pair, value);
        }
    }

    fn after_indirect(&mut self, indirect: u8)
        ensures
            final(self).registers == crate::cpu::semantics::after_indirect(
                old(self).registers,
                indirect,
            ),
            final(self).is_halted == old(self).is_halted,
    {
        if indirect == 2 {
            let hl: u16 = self.registers.hl();
            self.registers.set_hl(hl.wrapping_add(1));
        } else if indirect == 3 {
            let hl: u16 = self.registers.hl();
            self.registers.set_hl(hl.wrapping_sub(1));
        }
    }

    /// Executes an instruction that moves data.
    pub fn execute_transfer(&mut self, fetched: Fetched, memory: &mut Memory) -> (diff: CpuDiff)
        requires
            is_transfer(fetched.instr),
            fetched.instr.well_formed(),
            fetch_spec(old(self).registers, old(memory)@) == Ok::<Fetched, Fault>(fetched),
        ensures
            final(self).effect(final(memory)@, diff) == effect_spec(
                fetched,
                old(self).registers,
                old(self).is_halted,
                old(memory)@,
            ),
            4 <= diff.cycles <= 24,
            old(self).well_formed() ==> final(self).well_formed(),
            old(memory)@.well_formed() ==> final(memory)@.well_formed(),
    {
        let immediate: u16 = fetched.immediate;
        let immediate_byte: u8 = split_u16(fetched.immediate).0;
        let value: u8 = split_u16(fetched.operand).0;
        match fetched.instr {
            Instr::StoreSp => {
                memory.write_u16(immediate, self.registers.sp);
                CpuDiff::new(3, 20)
            },
            Instr::LoadPairImm(pair) => {
                self.set_pair(pair, immediate);
                CpuDiff::new(3, 12)
            },
            Instr::StoreA(indirect) => {
                let address: u16 = if indirect == 0 {
                    self.registers.bc()
                } else if indirect == 1 {
                    self.registers.de()
                } else {
                    self.registers.hl()
                };
                memory.write(address, self.registers.a);
                self.after_indirect(indirect);
                CpuDiff::new(1, 8)
            },
            Instr::LoadA(indirect) => {
                self.registers.a = value;
                self.after_indirect(indirect);
                CpuDiff::new(1, 8)
            },
            Instr::LoadImm(code) => {
                self.registers.write_operand_8bit(immediate_byte, code, memory);
                if code == 6 {
                    CpuDiff::new(2, 12)
                } else {
                    CpuDiff::new(2, 8)
                }
            },
            Instr::Load(dst, src) => {
                self.registers.write_operand_8bit(value, dst, memory);
                if dst == 6 || src == 6 {
                    CpuDiff::new(1, 8)
                } else {
                    CpuDiff::new(1, 4)
                }
            },
            Instr::StoreHigh => {
                memory.write(0xff00 + (immediate_byte as u16), self.registers.a);
                CpuDiff::new(2, 12)
            },
            Instr::LoadHigh => {
                self.registers.a = value;
                CpuDiff::new(2, 12)
            },
            Instr::StoreHighC => {
                memory.write(0xff00 + (self.registers.c as u16), self.registers.a);
                CpuDiff::new(1, 8)
            },
            Instr::LoadHighC => {
                self.registers.a = value;
                CpuDiff::new(1, 8)
            },
            Instr::StoreAbs => {
                memory.write(immediate, self.registers.a);
                CpuDiff::new(3, 16)
            },
            Instr::LoadAbs => {
                self.registers.a = value;
                CpuDiff::new(3, 16)
            },
            Instr::LoadSpHl => {
                self.registers.sp = self.registers.hl();
                CpuDiff::new(1, 8)
            },
            Instr::Push(pair) => {
                let pushed: u16 = self.stack_pair(pair);
                stack_push(pushed, &mut self.registers.sp, memory);
                CpuDiff::new(1, 16)
            },
            Instr::Pop(pair) => {
                let popped: u16 = stack_pop(&mut self.registers.sp, memory);
                self.set_stack_pair(pair, popped);
                CpuDiff::new(1, 12)
            },
            _ => nop(),
        }
    }

    /// Executes an instruction that changes the flow of control.
    pub fn execute_control(&mut self, fetched: Fetched, memory: &mut Memory) -> (diff: CpuDiff)
        requires
            is_control(fetched.instr),
            fetched.instr.well_formed(),
            fetch_spec(old(self).registers, old(memory)@) == Ok::<Fetched, Fault>(fetched),
        ensures
            final(self).effect(final(memory)@, diff) == effect_spec(
                fetched,
                old(self).registers,
                old(self).is_halted,
                old(memory)@,
            ),
            4 <= diff.cycles <= 24,
            old(self).well_formed() ==> final(self).well_formed(),
            old(memory)@.well_formed() ==> final(memory)@.well_formed(),
    {
        let immediate: u16 = fetched.immediate;
        let immediate_byte: u8 = split_u16(fetched.immediate).0;
        match fetched.instr {
            Instr::Jr => CpuDiff::new(2 + to_signed(immediate_byte), 12),
            Instr::JrCond(condition) => {
                if self.condition(condition) {
                    CpuDiff::new(2 + to_signed(immediate_byte), 12)
                } else {
                    CpuDiff::new(2, 8)
                }
            },
            Instr::RetCond(condition) => {
                if self.condition(condition) {
                    self.registers.pc = stack_pop(&mut self.registers.sp, memory);
                    CpuDiff::new(0, 20)
                } else {
                    CpuDiff::new(1, 8)
                }
            },
            Instr::Ret => {
                self.registers.pc = stack_pop(&mut self.registers.sp, memory);
                CpuDiff::new(0, 16)
            },
            Instr::Reti => {
                self.registers.pc = stack_pop(&mut self.registers.sp, memory);
                self.registers.ime = true;
                CpuDiff::new(0, 16)
            },
            Instr::JpCond(condition) => {
                if self.condition(condition) {
                    self.registers.pc = immediate;
                    CpuDiff::new(0, 16)
                } else {
                    CpuDiff::new(3, 12)
                }
            },
            Instr::Jp => {
                self.registers.pc = immediate;
                CpuDiff::new(0, 16)
            },
            Instr::JpHl => {
                self.registers.pc = self.registers.hl();
                CpuDiff::new(0, 4)
            },
            Instr::CallCond(condition) => {
                let taken: bool = self.condition(condition);
                call(taken, &mut self.registers, memory)
            },
            Instr::Call => call(true, &mut self.registers, memory),
            Instr::Rst(target) => rst(target, &mut self.registers, memory),
            Instr::Halt => {
                if self.registers.ime {
                    self.is_halted = true;
                }
                CpuDiff::new(1, 4)
            },
            Instr::Di => {
                self.registers.ime = false;
                CpuDiff::new(1, 4)
            },
            _ => {
                self.registers.ime = true;
                CpuDiff::new(1, 4)
            },
        }
    }

    fn alu(&mut self, operation: u8, value: u8, pc_delta: i16, cycles: u8) -> (diff: CpuDiff)
        ensures
            final(self).registers == crate::cpu::semantics::with_a(
                old(self).registers,
                crate::cpu::semantics::alu_result(
                    operation,
                    old(self).registers.a,
                    value,
                    old(self).registers.f,
                ).0,
            ),
            final(self).is_halted == old(self).is_halted,
            diff == CpuDiff::with(
                pc_delta,
                cycles,
                crate::cpu::semantics::alu_result(
                    operation,
                    old(self).registers.a,
                    value,
                    old(self).registers.f,
                ).1,
            ),
    {
        if operation == 0 {
            add_u8(value, &mut self.registers, pc_delta, cycles)
        } else if operation == 1 {
            adc(value, &mut self.registers, pc_delta, cycles)
        } else if operation == 2 {
            crate::cpu::instructions::sub(value, &mut self.registers, pc_delta, cycles)
        } else if operation == 3 {
            sbc(value, &mut self.registers, pc_delta, cycles)
        } else if operation == 4 {
            and(value, &mut self.registers.a, pc_delta, cycles)
        } else if operation == 5 {
            xor(value, &mut self.registers.a, pc_delta, cycles)
        } else if operation == 6 {
            or(value, &mut self.registers.a, pc_delta, cycles)
        } else {
            cp(value, &self.registers, pc_delta, cycles)
        }
    }

    fn decimal_adjust(&mut self) -> (diff: CpuDiff)
        ensures
            final(self).registers == crate::cpu::semantics::with_a(
                old(self).registers,
                (decimal_adjusted(old(self).registers.a, old(self).registers.f) % 256) as u8,
            ),
            final(self).is_halted == old(self).is_halted,
            diff == CpuDiff::with(
                1,
                4,
                crate::cpu::instructions::FlagDiff {
                    z: Some(
                        decimal_adjusted(old(self).registers.a, old(self).registers.f) % 256 == 0,
                    ),
                    n: None,
                    h: Some(false),
                    c: Some(
                        (decimal_adjusted(old(self).registers.a, old(self).registers.f) / 256) % 2
                            == 1,
                    ),
                },
            ),
    {
        let f: u8 = self.registers.f;
        let mut new_a: u16 = self.registers.a as u16;
        if f & FLAG_SUBTRACTION == 0 {
            proof {
                lemma_masks16(new_a);
            }
            if (f & FLAG_HALFCARRY != 0) || (new_a & 0x0f) > 0x09 {
                new_a = new_a + 0x06;
            }
            if (f & FLAG_CARRY != 0) || new_a > 0x9f {
                new_a = new_a + 0x60;
            }
        } else {
            if f & FLAG_HALFCARRY != 0 {
                new_a = new_a.wrapping_sub(0x06);
                if f & FLAG_CARRY == 0 {
                    proof {
                        lemma_masks16(new_a);
                    }
                    new_a = new_a & 0xff;
                }
            }
            if f & FLAG_CARRY != 0 {
                new_a = new_a.wrapping_sub(0x60);
            }
        }
        proof {
            lemma_masks16(new_a);
        }
        let low: u16 = new_a & 0xff;
        self.registers.a = low as u8;
        CpuDiff::new(1, 4).flag_z(self.registers.a == 0).flag_h(false).flag_c(new_a & 0x100 != 0)
    }

    fn offset_stack_pointer(&self, offset_byte: u8) -> (result: (u16, bool, bool))
        ensures
            result.0 == offset16(self.registers.sp, offset_byte),
            crate::cpu::instructions::FlagDiff::all(false, false, result.1, result.2)
                == offset_flags(self.registers.sp, offset_byte),
    {
        let offset: u16 = if offset_byte < 128 {
            offset_byte as u16
        } else {
            0xff00 + (offset_byte as u16)
        };
        let sp: u16 = self.registers.sp;
        let sum: u16 = sp.wrapping_add(offset);
        let xor_result: u16 = sp ^ offset ^ sum;
        proof {
            lemma_offset_carries(sp, offset, sum);
        }
        (sum, xor_result & 0x10 != 0, xor_result & 0x100 != 0)
    }

    /// Executes an extended instruction.
    pub fn execute_prefixed(&mut self, fetched: Fetched, memory: &mut Memory) -> (diff: CpuDiff)
        requires
            fetched.instr == Instr::Prefixed,
            fetch_spec(old(self).registers, old(memory)@) == Ok::<Fetched, Fault>(fetched),
        ensures
            final(self).effect(final(memory)@, diff) == effect_spec(
                fetched,
                old(self).registers,
                old(self).is_halted,
                old(memory)@,
            ),
            4 <= diff.cycles <= 24,
            old(self).well_formed() ==> final(self).well_formed(),
            old(memory)@.well_formed() ==> final(memory)@.well_formed(),
    {
        proof {
            lemma_prefixed_fetch(self.registers, memory@, fetched);
        }
        let diff = crate::cpu::instructions::cb::execute_cb_instruction(&mut self.registers, memory);
        diff
    }

    /// Executes an instruction that computes.
    pub fn execute_arithmetic(&mut self, fetched: Fetched, memory: &mut Memory) -> (diff: CpuDiff)
        requires
            is_arithmetic(fetched.instr),
            fetched.instr.well_formed(),
        ensures
            final(self).effect(final(memory)@, diff) == effect_spec(
                fetched,
                old(self).registers,
                old(self).is_halted,
                old(memory)@,
            ),
            4 <= diff.cycles <= 24,
            old(self).well_formed() ==> final(self).well_formed(),
            old(memory)@.well_formed() ==> final(memory)@.well_formed(),
    {
        let immediate_byte: u8 = split_u16(fetched.immediate).0;
        let value: u8 = split_u16(fetched.operand).0;
        match fetched.instr {
            Instr::AddHl(pair) => {
                let mut hl: u16 = self.registers.hl();
                let diff = add_reg16(self.pair(pair), &mut hl);
                self.registers.set_hl(hl);
                diff
            },
            Instr::IncPair(pair) => {
                let value: u16 = self.pair(pair);
                self.set_pair(pair, value.wrapping_add(1));
                CpuDiff::new(1, 8)
            },
            Instr::DecPair(pair) => {
                let value: u16 = self.pair(pair);
                self.set_pair(pair, value.wrapping_sub(1));
                CpuDiff::new(1, 8)
            },
            Instr::Inc(code) => {
                let mut changed: u8 = value;
                let cycles: u8 = if code == 6 {
                    12
                } else {
                    4
                };
                let diff = inc_u8(&mut changed, self.registers.f, cycles);
                self.registers.write_operand_8bit(changed, code, memory);
                diff
            },
            Instr::Dec(code) => {
                let mut changed: u8 = value;
                let cycles: u8 = if code == 6 {
                    12
                } else {
                    4
                };
                let diff = dec_u8(&mut changed, self.registers.f, cycles);
                self.registers.write_operand_8bit(changed, code, memory);
                diff
            },
            Instr::Alu(operation, code) => {
                let cycles: u8 = if code == 6 {
                    8
                } else {
                    4
                };
                self.alu(operation, value, 1, cycles)
            },
            Instr::AluImm(operation) => {
                let cycles: u8 = if operation == 5 {
                    4
                } else {
                    8
                };
                self.alu(operation, immediate_byte, 2, cycles)
            },
            Instr::AddSp => {
                let result = self.offset_stack_pointer(immediate_byte);
                self.registers.sp = result.0;
                CpuDiff::new(2, 16).flag_z(false).flag_n(false).flag_h(result.1).flag_c(result.2)
            },
            Instr::LoadHlSp => {
                let result = self.offset_stack_pointer(immediate_byte);
                self.registers.set_hl(result.0);
                CpuDiff::new(2, 12).flag_z(false).flag_n(false).flag_h(result.1).flag_c(result.2)
            },
            Instr::Rlca => {
                let flags = rlc(&mut self.registers.a);
                CpuDiff { flag_diff: flags, pc_delta: 1, cycles: 4 }.flag_z(false)
            },
            Instr::Rrca => {
                let flags = rrc(&mut self.registers.a);
                CpuDiff { flag_diff: flags, pc_delta: 1, cycles: 4 }.flag_z(false)
            },
            Instr::Rla => {
                let carry: bool = self.registers.f & FLAG_CARRY != 0;
                let flags = rl(&mut self.registers.a, carry);
                CpuDiff { flag_diff: flags, pc_delta: 1, cycles: 4 }.flag_z(false)
            },
            Instr::Rra => {
                let carry: bool = self.registers.f & FLAG_CARRY != 0;
                let flags = rr(&mut self.registers.a, carry);
                CpuDiff { flag_diff: flags, pc_delta: 1, cycles: 4 }.flag_z(false)
            },
            Instr::Daa => self.decimal_adjust(),
            Instr::Cpl => {
                self.registers.a = self.registers.a ^ 0xff;
                CpuDiff::new(1, 4).flag_n(true).flag_h(true)
            },
            Instr::Scf => CpuDiff::new(1, 4).flag_n(false).flag_h(false).flag_c(true),
            _ => CpuDiff::new(1, 4).flag_n(false).flag_h(false).flag_c(
                self.registers.f & FLAG_CARRY == 0,
            ),
        }
    }
}

} // verus!
