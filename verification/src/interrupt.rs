//! The interrupt protocol: five request bits, in priority order from bit 0.

use vstd::prelude::*;
use crate::address;
use crate::memory::Memory;
use crate::memory::MemoryModel;

verus! {

pub const FLAG_VBLANK: u8 = 0x01;

pub const FLAG_LCD_STAT: u8 = 0x02;

pub const FLAG_TIMER: u8 = 0x04;

pub const FLAG_SERIAL: u8 = 0x08;

pub const FLAG_JOYPAD: u8 = 0x10;

/// Cycles charged for serving an interrupt, on top of those of the
/// instruction before it: the push of the program counter and the jump to the
/// handler are counted as taking no time.
pub const DISPATCH_CYCLES: u8 = 0;

/// The request register after `interrupt_flag` was raised: the flag is added
/// to what was pending, and the three unused top bits read as ones.
pub open spec fn raised(pending: u8, interrupt_flag: u8) -> u8 {
    pending | interrupt_flag | 0xe0
}

/// The address space after a request for `interrupt_flag`.
pub open spec fn request_spec(m: MemoryModel, interrupt_flag: u8) -> MemoryModel {
    m.store(address::INTERRUPT_FLAGS, raised(m.bytes[address::INTERRUPT_FLAGS as int], interrupt_flag))
}

pub fn make_request(interrupt_flag: u8, memory: &mut Memory)
    ensures
        final(memory)@ == request_spec(old(memory)@, interrupt_flag),
{
    let cell = memory.direct_access(address::INTERRUPT_FLAGS);
    *cell = *cell | interrupt_flag | 0xe0;
}

} // verus!
