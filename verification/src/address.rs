//! Fixed addresses of the memory-mapped registers.

use vstd::prelude::*;

verus! {

/// Joypad register.
pub const JOYPAD: u16 = 0xff00;

/// Serial data byte ("SB").
pub const SERIAL_BYTE: u16 = 0xff01;

/// Serial control ("SC").
pub const SERIAL_CONTROL: u16 = 0xff02;

/// Timer divider ("DIV").
pub const TIMER_DIVIDER: u16 = 0xff04;

/// Timer counter ("TIMA").
pub const TIMER_COUNTER: u16 = 0xff05;

/// Timer modulo ("TMA").
pub const TIMER_MODULO: u16 = 0xff06;

/// Timer control ("TAC").
pub const TIMER_CONTROL: u16 = 0xff07;

/// Interrupt request flags ("IF").
pub const INTERRUPT_FLAGS: u16 = 0xff0f;

/// Display control ("LCDC").
pub const LCD_CONTROL: u16 = 0xff40;

/// Display status ("STAT").
pub const LCD_STATUS: u16 = 0xff41;

/// Background vertical scroll ("SCY").
pub const LCD_SCROLL_Y: u16 = 0xff42;

/// Background horizontal scroll ("SCX").
pub const LCD_SCROLL_X: u16 = 0xff43;

/// Current scanline ("LY").
pub const LCD_LY: u16 = 0xff44;

/// Scanline compare ("LYC").
pub const LCD_LYC: u16 = 0xff45;

/// Writing here starts a transfer into the object attribute table.
pub const OAM_DMA: u16 = 0xff46;

/// Background palette ("BGP").
pub const BG_PALETTE: u16 = 0xff47;

/// First object palette ("OBP0").
pub const OBJECT_PALETTE_0: u16 = 0xff48;

/// Second object palette ("OBP1").
pub const OBJECT_PALETTE_1: u16 = 0xff49;

/// Interrupt enable mask ("IE").
pub const INTERRUPT_ENABLE: u16 = 0xffff;

} // verus!
