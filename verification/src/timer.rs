//! The timer: a free-running cycle counter whose high byte is the divider
//! register, and a counter register that runs at a selectable rate.

use vstd::prelude::*;
use crate::address;
use crate::bits::high_byte;
use crate::interrupt;
use crate::memory::Memory;
use crate::memory::MemoryModel;

verus! {

/// The bit of the control register that lets the counter run.
pub const TIMER_ENABLED_BIT: u8 = 0x04;

/// The longest period of the counter, in cycles.
pub const MAXIMUM_CYCLES_PER_COUNTER_INCREMENT: u16 = 1024;

/// The value of the cycle counter at power-on.
pub const POWER_ON_CYCLES: u16 = 0xabcc;

/// The timer of one console.
#[derive(Clone, Copy, Debug, PartialEq, Eq, Structural)]
pub struct Timer {
    /// Cycles since the counter register last moved.
    pub cycles_since_last_tima_increment: u16,
    /// The free-running cycle counter.
    pub incrementer_every_cycle: u16,
}

/// The cycles between two increments of the counter register, chosen by the
/// low two bits of the control register.
pub open spec fn cycles_per_increment(control: u8) -> int {
    let rate = control & 0x03;
    if rate == 0 {
        1024
    } else if rate == 1 {
        16
    } else if rate == 2 {
        64
    } else {
        256
    }
}

/// The counter register after `ticks` increments, and whether it overflowed
/// on the way. An increment of 255 is an overflow: the counter takes the
/// value of the modulo register.
pub open spec fn ticked(counter: u8, modulo: u8, ticks: nat) -> (u8, bool)
    decreases ticks,
{
    if ticks == 0 {
        (counter, false)
    } else {
        let before = ticked(counter, modulo, (ticks - 1) as nat);
        if before.0 == 255 {
            (modulo, true)
        } else {
            ((before.0 + 1) as u8, before.1)
        }
    }
}

/// A counter that starts at zero overflows on its 256th increment and not
/// before, and holds the value of the modulo register right after.
pub proof fn lemma_first_overflow(modulo: u8, ticks: nat)
    requires
        ticks <= 256,
    ensures
        ticks < 256 ==> ticked(0, modulo, ticks) == (ticks as u8, false),
        ticks == 256 ==> ticked(0, modulo, ticks) == (modulo, true),
    decreases ticks,
{
    if ticks > 0 {
        lemma_first_overflow(modulo, (ticks - 1) as nat);
    }
}

/// Increments done in two runs are the increments of one run.
pub proof fn lemma_ticks_add(counter: u8, modulo: u8, first: nat, second: nat)
    ensures
        ticked(counter, modulo, first + second).0 == ticked(
            ticked(counter, modulo, first).0,
            modulo,
            second,
        ).0,
        ticked(counter, modulo, first + second).1 == (ticked(counter, modulo, first).1 || ticked(
            ticked(counter, modulo, first).0,
            modulo,
            second,
        ).1),
    decreases second,
{
    if second > 0 {
        lemma_ticks_add(counter, modulo, first, (second - 1) as nat);
        assert(first + second - 1 == first + (second - 1) as nat);
    }
}

proof fn lemma_raised_again(pending: u8)
    by (bit_vector)
    ensures
        (pending | 0x04 | 0xe0) | 0x04 | 0xe0 == pending | 0x04 | 0xe0,
{
}

proof fn lemma_rates(control: u8)
    by (bit_vector)
    ensures
        control & 0x03 == 0 || control & 0x03 == 1 || control & 0x03 == 2 || control & 0x03 == 3,
{
}

/// Cycles can be given to the timer in one update or in two: the timer and
/// the address space end up the same. With the start of the counter at zero
/// this makes 16 times 256 cycles at the fastest rate, in updates of any
/// size, one overflow.
pub proof fn lemma_update_splits(timer: Timer, m: MemoryModel, first: u8, second: u8)
    requires
        timer.well_formed(),
        m.bytes.len() == crate::memory::ADDRESS_SPACE_SIZE,
        first + second <= 255,
    ensures
        ({
            let once = timer.updated(m, (first + second) as u8);
            let halfway = timer.updated(m, first);
            let twice = halfway.0.updated(halfway.1, second);
            &&& twice.0 == once.0
            &&& twice.1.bytes =~= once.1.bytes
            &&& twice.1 == (MemoryModel { bytes: twice.1.bytes, ..once.1 })
            &&& halfway.0.well_formed()
        }),
{
    let control = m.bytes[address::TIMER_CONTROL as int];
    let period = cycles_per_increment(control);
    lemma_rates(control);
    let halfway = timer.updated(m, first);
    assert(halfway.1.bytes[address::TIMER_CONTROL as int] == control);
    assert(!halfway.1.divider_reset);
    if control & TIMER_ENABLED_BIT != 0 {
        let since = timer.phase(m) + first;
        let counter = m.bytes[address::TIMER_COUNTER as int];
        let modulo = m.bytes[address::TIMER_MODULO as int];
        let ticks_first = (since / period) as nat;
        let ticks_second = ((since % period + second) / period) as nat;
        assert((since + second) / period == ticks_first + ticks_second && (since + second) % period
            == (since % period + second) % period) by {
            if period == 16 {
            } else if period == 64 {
            } else if period == 256 {
            } else {
            }
        }
        lemma_ticks_add(counter, modulo, ticks_first, ticks_second);
        assert(halfway.1.bytes[address::TIMER_COUNTER as int] == ticked(
            counter,
            modulo,
            ticks_first,
        ).0);
        assert(halfway.1.bytes[address::TIMER_MODULO as int] == modulo);
        lemma_raised_again(m.bytes[address::INTERRUPT_FLAGS as int]);
    }
}

impl Timer {
    /// The cycles since the last increment lie within the longest period.
    pub open spec fn well_formed(self) -> bool {
        self.cycles_since_last_tima_increment < MAXIMUM_CYCLES_PER_COUNTER_INCREMENT
    }

    /// The cycle counter as the next update finds it: zero where the divider
    /// was written since the last one.
    pub open spec fn accumulator(self, m: MemoryModel) -> u16 {
        if m.divider_reset {
            0
        } else {
            self.incrementer_every_cycle
        }
    }

    /// The cycles since the last increment as the next update finds them: a
    /// write to the divider starts the period again.
    pub open spec fn phase(self, m: MemoryModel) -> u16 {
        if m.divider_reset {
            0
        } else {
            self.cycles_since_last_tima_increment
        }
    }

    /// The divider register shows the high byte of the cycle counter.
    pub open spec fn in_step(self, m: MemoryModel) -> bool {
        m.bytes[address::TIMER_DIVIDER as int] == high_byte(self.accumulator(m))
    }

    /// The timer and the address space after `elapsed_cycles`.
    ///
    /// The cycle counter moves on by the cycles, within 16 bits, and the
    /// divider register takes its high byte. While the control register
    /// enables it, the counter register is incremented once for every full
    /// period that has passed; where it overflows, the timer interrupt is
    /// requested.
    pub open spec fn updated(self, m: MemoryModel, elapsed_cycles: u8) -> (Timer, MemoryModel) {
        let control = m.bytes[address::TIMER_CONTROL as int];
        let accumulator = ((self.accumulator(m) + elapsed_cycles) % 0x10000) as u16;
        let m1 = (MemoryModel { divider_reset: false, ..m }).store(
            address::TIMER_DIVIDER,
            high_byte(accumulator),
        );
        if control & TIMER_ENABLED_BIT == 0 {
            (
                Timer {
                    cycles_since_last_tima_increment: self.phase(m),
                    incrementer_every_cycle: accumulator,
                },
                m1,
            )
        } else {
            let since = self.phase(m) + elapsed_cycles;
            let period = cycles_per_increment(control);
            let counted = ticked(
                m.bytes[address::TIMER_COUNTER as int],
                m.bytes[address::TIMER_MODULO as int],
                (since / period) as nat,
            );
            let m2 = m1.store(address::TIMER_COUNTER, counted.0);
            (
                Timer {
                    cycles_since_last_tima_increment: (since % period) as u16,
                    incrementer_every_cycle: accumulator,
                },
                if counted.1 {
                    interrupt::request_spec(m2, interrupt::FLAG_TIMER)
                } else {
                    m2
                },
            )
        }
    }

    /// The timer at power-on; the divider register is set to match.
    pub fn new(memory: &mut Memory) -> (timer: Timer)
        ensures
            timer == (Timer {
                cycles_since_last_tima_increment: 0,
                incrementer_every_cycle: POWER_ON_CYCLES,
            }),
            timer.well_formed(),
            final(memory)@ == old(memory)@.store(address::TIMER_DIVIDER, 0xab),
            old(memory)@.well_formed() ==> final(memory)@.well_formed(),
            !old(memory)@.divider_reset ==> timer.in_step(final(memory)@),
    {
        let new_timer = Timer {
            cycles_since_last_tima_increment: 0,
            incrementer_every_cycle: POWER_ON_CYCLES,
        };
        proof {
            memory.lemma_size();
        }
        let div_byte: u8 = crate::bits::split_u16(new_timer.incrementer_every_cycle).1;
        *memory.direct_access(address::TIMER_DIVIDER) = div_byte;
        new_timer
    }

    /// Moves the timer forward by the cycles that an instruction took.
    pub fn update(&mut self, elapsed_cycles: u8, memory: &mut Memory)
        requires
            old(self).well_formed(),
        ensures
            (*final(self), final(memory)@) == old(self).updated(old(memory)@, elapsed_cycles),
            final(self).well_formed(),
            final(self).in_step(final(memory)@),
            old(memory)@.well_formed() ==> final(memory)@.well_formed(),
    {
        proof {
            memory.lemma_size();
        }
        let control_value: u8 = memory.read(address::TIMER_CONTROL);
        if memory.take_divider_reset() {
            self.incrementer_every_cycle = 0;
            self.cycles_since_last_tima_increment = 0;
        }
        self.incrementer_every_cycle = self.incrementer_every_cycle.wrapping_add(
            elapsed_cycles as u16,
        );
        let div_byte: u8 = crate::bits::split_u16(self.incrementer_every_cycle).1;
        *memory.direct_access(address::TIMER_DIVIDER) = div_byte;
        if control_value & TIMER_ENABLED_BIT != 0 {
            self.cycles_since_last_tima_increment = self.cycles_since_last_tima_increment + (
            elapsed_cycles as u16);
            let rate: u8 = control_value & 0x03;
            let cycles_per_tima_increment: u16 = if rate == 0x00 {
                1024
            } else if rate == 0x01 {
                16
            } else if rate == 0x02 {
                64
            } else {
                256
            };
            let modulo: u8 = memory.read(address::TIMER_MODULO);
            let mut counter: u8 = memory.read(address::TIMER_COUNTER);
            let mut overflowed: bool = false;
            let ghost since: int = self.cycles_since_last_tima_increment as int;
            let ghost first: u8 = counter;
            let ghost done: nat = 0;
            while self.cycles_since_last_tima_increment >= cycles_per_tima_increment
                invariant
                    cycles_per_tima_increment == cycles_per_increment(control_value),
                    since == done * cycles_per_tima_increment
                        + self.cycles_since_last_tima_increment,
                    ticked(first, modulo, done) == (counter, overflowed),
                    self.incrementer_every_cycle == old(self).updated(
                        old(memory)@,
                        elapsed_cycles,
                    ).0.incrementer_every_cycle,
                decreases self.cycles_since_last_tima_increment,
            {
                if counter == 255 {
                    counter = modulo;
                    overflowed = true;
                } else {
                    counter = counter + 1;
                }
                self.cycles_since_last_tima_increment = self.cycles_since_last_tima_increment
                    - cycles_per_tima_increment;
                proof {
                    assert((done + 1) * cycles_per_tima_increment == done
                        * cycles_per_tima_increment + cycles_per_tima_increment)
                        by (nonlinear_arith);
                    done = done + 1;
                }
            }
            proof {
                vstd::arithmetic::div_mod::lemma_fundamental_div_mod_converse(
                    since,
                    cycles_per_tima_increment as int,
                    done as int,
                    self.cycles_since_last_tima_increment as int,
                );
            }
            *memory.direct_access(address::TIMER_COUNTER) = counter;
            if overflowed {
                interrupt::make_request(interrupt::FLAG_TIMER, memory);
            }
        }
    }
}

} // verus!
