//! The display controller: the scanline state machine, and the buffer of
//! finished pixels.

use vstd::prelude::*;
use crate::address;
use crate::interrupt;
use crate::lcd::render::Renderer;
use crate::memory::Memory;
use crate::memory::MemoryModel;

pub mod render;

verus! {

/// Pixels in one scanline.
pub const LCD_WIDTH: usize = 160;

/// Visible scanlines.
pub const LCD_HEIGHT: usize = 144;

/// Pixels in one frame.
pub const PIXEL_COUNT: usize = 23040;

/// The bit of the control register that switches the display on.
pub const LCDC_ENABLED_BIT: u8 = 0x80;

/// Cycles that one scanline takes.
pub const NUM_CYCLES_PER_LY_INCREMENT: u32 = 456;

/// Cycles that one frame takes, the vertical blank included.
pub const NUM_CYCLES_PER_FULL_SCREEN_REFRESH: u32 = 70224;

/// The first scanline of the vertical blank.
pub const LY_VBLANK_ENTRY_VALUE: u8 = 144;

/// Scanlines in one frame, the vertical blank included.
pub const LY_MAXIMUM_VALUE: u8 = 154;

/// Cycles of a visible scanline spent in mode 2, the scan of the objects.
pub const MODE_2_CYCLE_DURATION: u32 = 80;

/// Cycles of a visible scanline spent in mode 3, the transfer of pixels.
pub const MODE_3_CYCLE_DURATION: u32 = 172;

/// The status register while the display is off.
pub const STATUS_WHILE_OFF: u8 = 0xf8;

/// The status bit that says that the scanline is the one to compare with.
pub const STATUS_COINCIDENCE: u8 = 0x04;

/// The state of a display controller.
pub struct LcdModel {
    /// The shades that the renderer last used for the background.
    pub renderer: Renderer,
    /// Cycles spent on the current scanline.
    pub elapsed_cycles: int,
    /// The finished pixels, row by row.
    pub pixels: Seq<u8>,
}

/// Whether the display is switched on.
pub open spec fn display_enabled(m: MemoryModel) -> bool {
    m.bytes[address::LCD_CONTROL as int] & LCDC_ENABLED_BIT != 0
}

/// The scanline that follows `ly`: the count starts again after the last
/// line of the vertical blank.
pub open spec fn next_line(ly: u8) -> u8 {
    if ly + 1 >= LY_MAXIMUM_VALUE {
        0
    } else {
        (ly + 1) as u8
    }
}

/// The mode of the display on scanline `ly` after `elapsed_cycles` of it: 2
/// and then 3 and then 0 on a visible line, 1 during the vertical blank.
pub open spec fn mode_at(ly: u8, elapsed_cycles: int) -> u8 {
    if ly < LY_VBLANK_ENTRY_VALUE {
        if elapsed_cycles >= MODE_2_CYCLE_DURATION + MODE_3_CYCLE_DURATION {
            0
        } else if elapsed_cycles >= MODE_2_CYCLE_DURATION {
            3
        } else {
            2
        }
    } else {
        1
    }
}

/// The status bit that enables the interrupt of a mode; mode 3 has none.
pub open spec fn mode_interrupt_enable(mode: u8) -> u8 {
    if mode == 0 {
        0x08
    } else if mode == 1 {
        0x10
    } else if mode == 2 {
        0x20
    } else {
        0x00
    }
}

/// The status register after the comparison of the scanline with the
/// compare register and with the mode replaced.
pub open spec fn status_after(status: u8, coincidence: bool, mode: u8) -> u8 {
    ((if coincidence {
        status | STATUS_COINCIDENCE
    } else {
        status & !STATUS_COINCIDENCE
    }) & 0xfc) | mode
}

/// The address space with a request raised where `condition` holds.
pub open spec fn request_if(m: MemoryModel, condition: bool, interrupt_flag: u8) -> MemoryModel {
    if condition {
        interrupt::request_spec(m, interrupt_flag)
    } else {
        m
    }
}

/// The pixels with row `ly` replaced by `line`.
pub open spec fn with_row(pixels: Seq<u8>, ly: int, line: Seq<u8>) -> Seq<u8> {
    Seq::new(
        pixels.len(),
        |i: int|
            if ly * LCD_WIDTH <= i < (ly + 1) * LCD_WIDTH {
                line[i - ly * LCD_WIDTH]
            } else {
                pixels[i]
            },
    )
}

impl LcdModel {
    /// The buffer holds one frame and the cycle count lies within one
    /// scanline.
    pub open spec fn well_formed(self) -> bool {
        &&& 0 <= self.elapsed_cycles < NUM_CYCLES_PER_LY_INCREMENT
        &&& self.pixels.len() == PIXEL_COUNT
    }

    /// How far into the frame the display is, in cycles.
    pub open spec fn position(self, m: MemoryModel) -> int {
        m.bytes[address::LCD_LY as int] * NUM_CYCLES_PER_LY_INCREMENT + self.elapsed_cycles
    }

    /// The display and the address space after `newly_elapsed_cycles`.
    ///
    /// While the display is off, the scanline register is held at zero and
    /// the status register at its idle value. Otherwise the cycles are
    /// counted; after 456 of them the scanline register moves on. The
    /// coincidence bit then says whether the scanline is the one in the
    /// compare register, and a move onto that line requests the status
    /// interrupt where bit 6 enables it. Last the status register takes the
    /// mode of the moment. On entering a mode the status interrupt is
    /// requested where the bit of that mode enables it; on entering the
    /// vertical blank its own interrupt is requested too; on entering mode
    /// 3 the scanline is rendered into its row of the buffer.
    pub open spec fn update(self, m: MemoryModel, newly_elapsed_cycles: u8) -> (
        LcdModel,
        MemoryModel,
    ) {
        if !display_enabled(m) {
            (self, m.store(address::LCD_LY, 0x00).store(address::LCD_STATUS, STATUS_WHILE_OFF))
        } else {
            let total = self.elapsed_cycles + newly_elapsed_cycles;
            let moved = total >= NUM_CYCLES_PER_LY_INCREMENT;
            let elapsed = if moved {
                total - NUM_CYCLES_PER_LY_INCREMENT
            } else {
                total
            };
            let ly = if moved {
                next_line(m.bytes[address::LCD_LY as int])
            } else {
                m.bytes[address::LCD_LY as int]
            };
            let coincidence = ly == m.bytes[address::LCD_LYC as int];
            let before = m.bytes[address::LCD_STATUS as int];
            let mode = mode_at(ly, elapsed);
            let status = status_after(before, coincidence, mode);
            let entered = before & 0x03 != mode;
            let m1 = m.store(address::LCD_LY, ly).store(address::LCD_STATUS, status);
            let m2 = request_if(
                m1,
                moved && coincidence && before & 0x40 != 0,
                interrupt::FLAG_LCD_STAT,
            );
            let m3 = request_if(m2, entered && mode == 1, interrupt::FLAG_VBLANK);
            let m4 = request_if(
                m3,
                entered && before & mode_interrupt_enable(mode) != 0,
                interrupt::FLAG_LCD_STAT,
            );
            if entered && mode == 3 {
                (
                    LcdModel {
                        renderer: crate::lcd::render::shades_after_line(m4, self.renderer),
                        elapsed_cycles: elapsed,
                        pixels: with_row(
                            self.pixels,
                            ly as int,
                            crate::lcd::render::screen_line(m4),
                        ),
                    },
                    m4,
                )
            } else {
                (LcdModel { elapsed_cycles: elapsed, ..self }, m4)
            }
        }
    }
}

proof fn lemma_status_bits(status: u8, mode: u8)
    by (bit_vector)
    requires
        mode < 4,
    ensures
        (((status | 0x04) & 0xfc) | mode) & 0x04 != 0,
        (((status & !0x04u8) & 0xfc) | mode) & 0x04 == 0,
        (((status | 0x04) & 0xfc) | mode) & 0x03 == mode,
        (((status & !0x04u8) & 0xfc) | mode) & 0x03 == mode,
        (((status | 0x04) & 0xfc) | mode) & 0x78 == status & 0x78,
        (((status & !0x04u8) & 0xfc) | mode) & 0x78 == status & 0x78,
{
}

/// While the display is on, an update moves it forward in the frame by
/// exactly the cycles given, and the frame starts again after 154 scanlines
/// of 456 cycles. Afterwards the coincidence bit is set exactly when the
/// scanline is the one in the compare register, and the low two bits of the
/// status register are the mode.
pub proof fn lemma_update_advances(lcd: LcdModel, m: MemoryModel, newly_elapsed_cycles: u8)
    requires
        lcd.well_formed(),
        m.bytes.len() == crate::memory::ADDRESS_SPACE_SIZE,
        display_enabled(m),
        m.bytes[address::LCD_LY as int] < LY_MAXIMUM_VALUE,
    ensures
        ({
            let after = lcd.update(m, newly_elapsed_cycles);
            let ly = after.1.bytes[address::LCD_LY as int];
            let status = after.1.bytes[address::LCD_STATUS as int];
            &&& after.0.well_formed()
            &&& ly < LY_MAXIMUM_VALUE
            &&& after.0.position(after.1) == (lcd.position(m) + newly_elapsed_cycles)
                % (NUM_CYCLES_PER_FULL_SCREEN_REFRESH as int)
            &&& (status & STATUS_COINCIDENCE != 0) == (ly == after.1.bytes[address::LCD_LYC as int])
            &&& status & 0x03 == mode_at(ly, after.0.elapsed_cycles)
        }),
{
    let before = m.bytes[address::LCD_STATUS as int];
    let total = lcd.elapsed_cycles + newly_elapsed_cycles;
    let moved = total >= NUM_CYCLES_PER_LY_INCREMENT;
    let elapsed = if moved {
        total - NUM_CYCLES_PER_LY_INCREMENT
    } else {
        total
    };
    let ly = if moved {
        next_line(m.bytes[address::LCD_LY as int])
    } else {
        m.bytes[address::LCD_LY as int]
    };
    lemma_status_bits(before, mode_at(ly, elapsed));
}

/// A display that has moved forward by the 456 cycles of one scanline is on
/// the next scanline, as far into it as before.
pub proof fn lemma_scanline_period(
    ly_before: int,
    elapsed_before: int,
    ly_after: int,
    elapsed_after: int,
)
    requires
        0 <= ly_before < LY_MAXIMUM_VALUE,
        0 <= ly_after < LY_MAXIMUM_VALUE,
        0 <= elapsed_before < NUM_CYCLES_PER_LY_INCREMENT,
        0 <= elapsed_after < NUM_CYCLES_PER_LY_INCREMENT,
        ly_after * NUM_CYCLES_PER_LY_INCREMENT + elapsed_after == (ly_before
            * NUM_CYCLES_PER_LY_INCREMENT + elapsed_before + NUM_CYCLES_PER_LY_INCREMENT) % (
        NUM_CYCLES_PER_FULL_SCREEN_REFRESH as int),
    ensures
        ly_after == (ly_before + 1) % (LY_MAXIMUM_VALUE as int),
        elapsed_after == elapsed_before,
{
}

/// The display controller.
pub struct Lcd {
    renderer: Renderer,
    elapsed_cycles: u32,
    pixels: [u8; PIXEL_COUNT],
}

impl View for Lcd {
    type V = LcdModel;

    closed spec fn view(&self) -> LcdModel {
        LcdModel {
            renderer: self.renderer,
            elapsed_cycles: self.elapsed_cycles as int,
            pixels: self.pixels@,
        }
    }
}

impl Lcd {
    /// A display at the start of a scanline, with a black buffer.
    pub fn new() -> (lcd: Lcd)
        ensures
            lcd@.well_formed(),
            lcd@.elapsed_cycles == 0,
            lcd@.renderer == crate::lcd::render::palette_shades(0),
            forall|i: int| 0 <= i < PIXEL_COUNT ==> lcd@.pixels[i] == 0,
    {
        Lcd { renderer: Renderer::new(), elapsed_cycles: 0, pixels: [0u8; PIXEL_COUNT] }
    }

    fn store_row(&mut self, ly: u8, line: &[u8; LCD_WIDTH])
        requires
            ly < LY_VBLANK_ENTRY_VALUE,
        ensures
            final(self)@ == (LcdModel {
                pixels: with_row(old(self)@.pixels, ly as int, line@),
                ..old(self)@
            }),
    {
        let start: usize = (ly as usize) * LCD_WIDTH;
        let mut x: usize = 0;
        while x < LCD_WIDTH
            invariant
                x <= LCD_WIDTH,
                ly < LY_VBLANK_ENTRY_VALUE,
                start == ly * LCD_WIDTH,
                self.renderer == old(self).renderer,
                self.elapsed_cycles == old(self).elapsed_cycles,
                forall|i: int|
                    0 <= i < PIXEL_COUNT ==> #[trigger] self.pixels@[i] == (if start <= i < start
                        + x {
                        line@[i - start]
                    } else {
                        old(self).pixels@[i]
                    }),
            decreases LCD_WIDTH - x,
        {
            self.pixels[start + x] = line[x];
            x += 1;
        }
        assert(self.pixels@ =~= with_row(old(self).pixels@, ly as int, line@));
    }

    /// Moves the display forward by the cycles that an instruction took.
    pub fn update(&mut self, newly_elapsed_cycles: u8, memory: &mut Memory)
        requires
            old(self)@.well_formed(),
        ensures
            (final(self)@, final(memory)@) == old(self)@.update(
                old(memory)@,
                newly_elapsed_cycles,
            ),
            final(self)@.well_formed(),
            old(memory)@.well_formed() ==> final(memory)@.well_formed(),
    {
        proof {
            memory.lemma_size();
        }
        if (memory.read(address::LCD_CONTROL) & LCDC_ENABLED_BIT) == 0 {
            *memory.direct_access(address::LCD_LY) = 0x00;
            *memory.direct_access(address::LCD_STATUS) = STATUS_WHILE_OFF;
            return ;
        }
        self.elapsed_cycles = self.elapsed_cycles + (newly_elapsed_cycles as u32);
        let mut ly: u8 = memory.read(address::LCD_LY);
        let moved: bool = self.elapsed_cycles >= NUM_CYCLES_PER_LY_INCREMENT;
        if moved {
            self.elapsed_cycles = self.elapsed_cycles - NUM_CYCLES_PER_LY_INCREMENT;
            ly = if ly >= LY_MAXIMUM_VALUE - 1 {
                0
            } else {
                ly + 1
            };
        }
        *memory.direct_access(address::LCD_LY) = ly;
        let before: u8 = memory.read(address::LCD_STATUS);
        let coincidence: bool = ly == memory.read(address::LCD_LYC);
        let compared: u8 = if coincidence {
            before | STATUS_COINCIDENCE
        } else {
            before & !STATUS_COINCIDENCE
        };
        let previous_mode: u8 = before & 0x03;
        let mode: u8 = if ly < LY_VBLANK_ENTRY_VALUE {
            if self.elapsed_cycles >= MODE_2_CYCLE_DURATION + MODE_3_CYCLE_DURATION {
                0x00
            } else if self.elapsed_cycles >= MODE_2_CYCLE_DURATION {
                0x03
            } else {
                0x02
            }
        } else {
            0x01
        };
        *memory.direct_access(address::LCD_STATUS) = (compared & 0xfc) | mode;
        if moved && coincidence && before & 0x40 != 0 {
            interrupt::make_request(interrupt::FLAG_LCD_STAT, memory);
        }
        if previous_mode != mode {
            if mode == 0x00 {
                if before & 0x08 != 0 {
                    interrupt::make_request(interrupt::FLAG_LCD_STAT, memory);
                }
            } else if mode == 0x03 {
                proof {
                    lemma_no_mode_3_interrupt(before);
                }
                let mut renderer = self.renderer;
                let line = renderer.render_screen_line(memory);
                self.renderer = renderer;
                self.store_row(ly, &line);
            } else if mode == 0x02 {
                if before & 0x20 != 0 {
                    interrupt::make_request(interrupt::FLAG_LCD_STAT, memory);
                }
            } else {
                interrupt::make_request(interrupt::FLAG_VBLANK, memory);
                if before & 0x10 != 0 {
                    interrupt::make_request(interrupt::FLAG_LCD_STAT, memory);
                }
            }
        }
    }

    /// The finished pixels, row by row, one byte of brightness each.
    pub fn pixels(&self) -> (pixels: &[u8; PIXEL_COUNT])
        ensures
            pixels@ == self@.pixels,
    {
        &self.pixels
    }
}

proof fn lemma_no_mode_3_interrupt(status: u8)
    by (bit_vector)
    ensures
        status & 0x00 == 0,
{
}

} // verus!
