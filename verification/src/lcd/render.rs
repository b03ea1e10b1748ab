//! The scanline compositor: background tiles first, then the objects.

use vstd::prelude::*;
use crate::address;
use crate::bits::signed_value;
use crate::bits::to_signed;
use crate::cpu::instructions::cb::bit_is_set;
use crate::lcd::LCD_WIDTH;
use crate::memory::is_prohibited;
use crate::memory::Memory;
use crate::memory::MemoryModel;

verus! {

pub const LCDC_WINDOW_TILE_MAP_SELECT: u8 = 0x40;

pub const LCDC_WINDOW_ENABLED: u8 = 0x20;

pub const LCDC_BG_AND_WINDOW_TILE_DATA_SELECT: u8 = 0x10;

pub const LCDC_BG_TILE_MAP_SELECT: u8 = 0x08;

pub const LCDC_DOUBLE_HEIGHT_OBJECTS: u8 = 0x04;

pub const LCDC_OBJECTS_ENABLED: u8 = 0x02;

pub const LCDC_BG_AND_WINDOW_ENABLED: u8 = 0x01;

pub const NUM_BYTES_PER_TILE: i32 = 16;

pub const NUM_BYTES_PER_TILE_LINE: i32 = 2;

pub const NUM_TILES_PER_BG_LINE: u8 = 32;

pub const TILE_WIDTH: usize = 8;

pub const TILE_HEIGHT: u8 = 8;

/// Entries in the object attribute table.
pub const NUM_OBJECTS: usize = 40;

/// The bit that marks the shade of color 0, so that it can be told from the
/// other three whatever the palette maps it to.
pub const SHADE_0_FLAG: u8 = 0x04;

/// The shades that the four colors of a tile are shown in.
#[derive(Clone, Copy, Debug, PartialEq, Eq, Structural)]
pub struct Renderer {
    pub shade_0: u8,
    pub shade_1: u8,
    pub shade_2: u8,
    pub shade_3: u8,
}

/// The shades that a palette byte gives the four colors: two bits each, from
/// the low end, and the mark on the shade of color 0.
pub open spec fn palette_shades(palette: u8) -> Renderer {
    Renderer {
        shade_0: (palette & 0x03) | SHADE_0_FLAG,
        shade_1: (palette & 0x0c) >> 2,
        shade_2: (palette & 0x30) >> 4,
        shade_3: (palette & 0xc0) >> 6,
    }
}

/// The color of one pixel of a tile row, from its two bit planes: column 0 is
/// the leftmost pixel and lies in bit 7.
pub open spec fn pixel_color(lower: u8, upper: u8, column: int) -> int {
    (if bit_is_set(upper, (7 - column) as u8) {
        2int
    } else {
        0int
    }) + (if bit_is_set(lower, (7 - column) as u8) {
        1int
    } else {
        0int
    })
}

/// The address of a row of a tile: tiles take 16 bytes and rows two.
pub open spec fn tile_row_address(tile_bank_address: u16, tile_index: int, tile_line_index: int) -> u16 {
    ((tile_bank_address + 16 * tile_index + 2 * tile_line_index) % 0x10000) as u16
}

/// The brightness of a shade on the screen: shade 0 is the brightest, and the
/// mark on it is dropped.
pub open spec fn luminance(pixel: u8) -> u8 {
    ((3 - (pixel & 0x03)) * 85) as u8
}

/// The scanline on which the display works.
pub open spec fn current_line(m: MemoryModel) -> u8 {
    m.bytes[address::LCD_LY as int]
}

/// The display control register.
pub open spec fn lcd_control(m: MemoryModel) -> u8 {
    m.bytes[address::LCD_CONTROL as int]
}

/// Where the map of background tiles starts.
pub open spec fn bg_tile_map(m: MemoryModel) -> u16 {
    if lcd_control(m) & LCDC_BG_TILE_MAP_SELECT != 0 {
        0x9c00
    } else {
        0x9800
    }
}

/// Where the tile data of the background starts. The bank at 0x9000 is
/// indexed by a signed number, the one at 0x8000 by an unsigned one.
pub open spec fn bg_tile_data(m: MemoryModel) -> u16 {
    if lcd_control(m) & LCDC_BG_AND_WINDOW_TILE_DATA_SELECT != 0 {
        0x8000
    } else {
        0x9000
    }
}

/// The index of the tile that the map at `tile_map_address_space` holds for
/// a place of the 32 by 32 grid.
pub open spec fn bg_tile_index(
    m: MemoryModel,
    tile_map_address_space: u16,
    tile_data_bank_address: u16,
    coord_x: int,
    coord_y: int,
) -> int {
    let number = m.read(((tile_map_address_space + coord_x + 32 * coord_y) % 0x10000) as u16);
    if tile_data_bank_address == 0x9000 {
        signed_value(number)
    } else {
        number as int
    }
}

/// The column of the background that shows at column `x` of the screen.
pub open spec fn bg_column(m: MemoryModel, x: int) -> int {
    (x + m.bytes[address::LCD_SCROLL_X as int]) % 256
}

/// The row of the background that shows on the current scanline.
pub open spec fn bg_row(m: MemoryModel) -> int {
    (current_line(m) + m.bytes[address::LCD_SCROLL_Y as int]) % 256
}

/// The object height that the control register selects.
pub open spec fn object_height(m: MemoryModel) -> int {
    if lcd_control(m) & LCDC_DOUBLE_HEIGHT_OBJECTS != 0 {
        16
    } else {
        8
    }
}

/// A byte of the entry of object `index` in the attribute table: the
/// vertical place, the horizontal place, the tile and the flags.
pub open spec fn object_byte(m: MemoryModel, index: int, field: int) -> u8 {
    m.bytes[0xfe00 + 4 * index + field]
}

/// Whether object `index` lies on the current scanline.
pub open spec fn object_on_line(m: MemoryModel, index: int) -> bool {
    let top = object_byte(m, index, 0) - 16;
    top <= current_line(m) < top + object_height(m)
}

/// The row of its tile data that object `index` shows on the current
/// scanline: counted from its top, or from its bottom where it is flipped
/// vertically.
pub open spec fn object_row(m: MemoryModel, index: int) -> int {
    let row = current_line(m) - (object_byte(m, index, 0) - 16);
    if object_byte(m, index, 3) & 0x40 != 0 {
        object_height(m) - 1 - row
    } else {
        row
    }
}

/// The tile of object `index`; a tall object starts at an even tile.
pub open spec fn object_tile(m: MemoryModel, index: int) -> u8 {
    if object_height(m) > 8 {
        object_byte(m, index, 2) & 0xfe
    } else {
        object_byte(m, index, 2)
    }
}

/// The palette of object `index`.
pub open spec fn object_palette(m: MemoryModel, index: int) -> u8 {
    if object_byte(m, index, 3) & 0x10 != 0 {
        m.bytes[address::OBJECT_PALETTE_1 as int]
    } else {
        m.bytes[address::OBJECT_PALETTE_0 as int]
    }
}

/// The pixel at column `x` after object `index` was drawn over `beneath`.
/// The object shows where it covers the column on this scanline with a color
/// other than 0, unless it is marked as lying behind the background and what
/// is beneath is not the shade of color 0.
pub open spec fn object_pixel_over(m: MemoryModel, index: int, x: int, beneath: u8) -> u8 {
    let column = x - (object_byte(m, index, 1) - 8);
    let flags = object_byte(m, index, 3);
    if object_on_line(m, index) && 0 <= column < 8 {
        let tile_column = if flags & 0x20 != 0 {
            7 - column
        } else {
            column
        };
        let shade = palette_shades(object_palette(m, index)).tile_pixel(
            m,
            0x8000,
            object_tile(m, index) as int,
            object_row(m, index),
            tile_column,
        );
        if shade & SHADE_0_FLAG == 0 && (flags & 0x80 == 0 || beneath & SHADE_0_FLAG != 0) {
            shade
        } else {
            beneath
        }
    } else {
        beneath
    }
}

/// The scanline after object `index` was drawn over it.
pub open spec fn object_over(m: MemoryModel, index: int, line: Seq<u8>) -> Seq<u8> {
    Seq::new(line.len(), |x: int| object_pixel_over(m, index, x, line[x]))
}

/// The scanline after the objects from the last down to `from` were drawn
/// over it in that order, so that an object earlier in the table covers a
/// later one.
pub open spec fn objects_over(m: MemoryModel, from: int, line: Seq<u8>) -> Seq<u8>
    decreases NUM_OBJECTS - from,
{
    if from >= NUM_OBJECTS {
        line
    } else {
        object_over(m, from, objects_over(m, from + 1, line))
    }
}

/// The shades that the renderer is left with after a scanline: those of the
/// background palette where the background is enabled.
pub open spec fn shades_after_line(m: MemoryModel, before: Renderer) -> Renderer {
    if lcd_control(m) & LCDC_BG_AND_WINDOW_ENABLED != 0 {
        palette_shades(m.bytes[address::BG_PALETTE as int])
    } else {
        before
    }
}

/// The current scanline before the objects: the background where it is
/// enabled, and otherwise a line of zeros.
pub open spec fn base_line(m: MemoryModel) -> Seq<u8> {
    if lcd_control(m) & LCDC_BG_AND_WINDOW_ENABLED != 0 {
        palette_shades(m.bytes[address::BG_PALETTE as int]).background_line(m)
    } else {
        Seq::new(LCD_WIDTH as nat, |x: int| 0u8)
    }
}

/// The current scanline as shades: the base line, with the objects over it
/// where they are enabled.
pub open spec fn composed_line(m: MemoryModel) -> Seq<u8> {
    if lcd_control(m) & LCDC_OBJECTS_ENABLED != 0 {
        objects_over(m, 0, base_line(m))
    } else {
        base_line(m)
    }
}

/// The current scanline as it is shown: the brightness of each shade.
pub open spec fn screen_line(m: MemoryModel) -> Seq<u8> {
    Seq::new(LCD_WIDTH as nat, |x: int| luminance(composed_line(m)[x]))
}

impl Renderer {
    /// The shade of color 0 carries the mark and no other shade does.
    pub open spec fn well_formed(self) -> bool {
        &&& self.shade_0 & SHADE_0_FLAG != 0
        &&& self.shade_1 & SHADE_0_FLAG == 0
        &&& self.shade_2 & SHADE_0_FLAG == 0
        &&& self.shade_3 & SHADE_0_FLAG == 0
    }

    /// The shade of a color.
    pub open spec fn shade(self, color: int) -> u8 {
        if color == 0 {
            self.shade_0
        } else if color == 1 {
            self.shade_1
        } else if color == 2 {
            self.shade_2
        } else {
            self.shade_3
        }
    }

    /// One pixel of a tile row as this palette shows it.
    pub open spec fn tile_pixel(
        self,
        m: MemoryModel,
        tile_bank_address: u16,
        tile_index: int,
        tile_line_index: int,
        column: int,
    ) -> u8 {
        let row = tile_row_address(tile_bank_address, tile_index, tile_line_index);
        self.shade(pixel_color(m.read(row), m.read(row.wrapping_add(1)), column))
    }

    /// The pixel of the background at column `x` of the current scanline.
    /// The background is a grid of 32 by 32 tiles that wraps around, shifted
    /// by the two scroll registers.
    pub open spec fn background_pixel(self, m: MemoryModel, x: int) -> u8 {
        self.tile_pixel(
            m,
            bg_tile_data(m),
            bg_tile_index(m, bg_tile_map(m), bg_tile_data(m), bg_column(m, x) / 8, bg_row(m) / 8),
            bg_row(m) % 8,
            bg_column(m, x) % 8,
        )
    }

    /// The background on the current scanline.
    pub open spec fn background_line(self, m: MemoryModel) -> Seq<u8> {
        Seq::new(LCD_WIDTH as nat, |x: int| self.background_pixel(m, x))
    }

    /// The shades of palette byte 0.
    pub fn new() -> (renderer: Renderer)
        ensures
            renderer == palette_shades(0),
            renderer.well_formed(),
    {
        let mut renderer = Renderer { shade_0: 0x00, shade_1: 0x00, shade_2: 0x00, shade_3: 0x00 };
        renderer.set_palette(0);
        renderer
    }

    pub fn set_palette(&mut self, palette: u8)
        ensures
            *final(self) == palette_shades(palette),
            final(self).well_formed(),
    {
        proof {
            lemma_palette(palette);
        }
        self.shade_0 = (palette & 0x03) | SHADE_0_FLAG;
        self.shade_1 = (palette & 0x0c) >> 2;
        self.shade_2 = (palette & 0x30) >> 4;
        self.shade_3 = (palette & 0xc0) >> 6;
    }

    /// Decodes one row of a tile into the shades of its eight pixels.
    pub fn get_tile_line(
        &self,
        memory: &Memory,
        tile_bank_address: u16,
        tile_index: i16,
        tile_line_index: u8,
        line_out: &mut [u8; TILE_WIDTH],
    )
        requires
            !is_prohibited(tile_row_address(tile_bank_address, tile_index as int, tile_line_index as int)),
            !is_prohibited(
                tile_row_address(
                    tile_bank_address,
                    tile_index as int,
                    tile_line_index as int,
                ).wrapping_add(1),
            ),
        ensures
            forall|column: int|
                0 <= column < TILE_WIDTH ==> #[trigger] final(line_out)@[column] == self.tile_pixel(
                    memory@,
                    tile_bank_address,
                    tile_index as int,
                    tile_line_index as int,
                    column,
                ),
    {
        let tile_address: i32 = (tile_bank_address as i32) + (tile_index as i32)
            * NUM_BYTES_PER_TILE;
        let tile_line_address: i32 = tile_address + (tile_line_index as i32)
            * NUM_BYTES_PER_TILE_LINE;
        let wrapped: u32 = ((tile_line_address + 0x80000) as u32) % 0x10000;
        let row: u16 = wrapped as u16;
        let lower: u8 = memory.read(row);
        let upper: u8 = memory.read(row.wrapping_add(1));
        let mut column: usize = 0;
        while column < TILE_WIDTH
            invariant
                column <= TILE_WIDTH,
                row == tile_row_address(tile_bank_address, tile_index as int, tile_line_index as int),
                lower == memory@.read(row),
                upper == memory@.read(row.wrapping_add(1)),
                forall|done: int|
                    0 <= done < column ==> #[trigger] line_out@[done] == self.tile_pixel(
                        memory@,
                        tile_bank_address,
                        tile_index as int,
                        tile_line_index as int,
                        done,
                    ),
            decreases TILE_WIDTH - column,
        {
            let shift: u8 = column as u8;
            let mask: u8 = 0x80u8 >> shift;
            proof {
                lemma_column_mask(lower, shift);
                lemma_column_mask(upper, shift);
            }
            let shade: u8 = if upper & mask != 0 {
                if lower & mask != 0 {
                    self.shade_3
                } else {
                    self.shade_2
                }
            } else {
                if lower & mask != 0 {
                    self.shade_1
                } else {
                    self.shade_0
                }
            };
            line_out[column] = shade;
            column += 1;
        }
    }
    /// Decodes the row of the background tile at a place of the grid.
    pub fn get_bg_tile_line(
        &self,
        memory: &Memory,
        coord_x: u8,
        coord_y: u8,
        tile_map_address_space: u16,
        tile_data_bank_address: u16,
        tile_line_index: u8,
        line_out: &mut [u8; TILE_WIDTH],
    )
        requires
            !is_prohibited(((tile_map_address_space + coord_x + 32 * coord_y) % 0x10000) as u16),
            !is_prohibited(
                tile_row_address(
                    tile_data_bank_address,
                    bg_tile_index(
                        memory@,
                        tile_map_address_space,
                        tile_data_bank_address,
                        coord_x as int,
                        coord_y as int,
                    ),
                    tile_line_index as int,
                ),
            ),
            !is_prohibited(
                tile_row_address(
                    tile_data_bank_address,
                    bg_tile_index(
                        memory@,
                        tile_map_address_space,
                        tile_data_bank_address,
                        coord_x as int,
                        coord_y as int,
                    ),
                    tile_line_index as int,
                ).wrapping_add(1),
            ),
        ensures
            forall|column: int|
                0 <= column < TILE_WIDTH ==> #[trigger] final(line_out)@[column] == self.tile_pixel(
                    memory@,
                    tile_data_bank_address,
                    bg_tile_index(
                        memory@,
                        tile_map_address_space,
                        tile_data_bank_address,
                        coord_x as int,
                        coord_y as int,
                    ),
                    tile_line_index as int,
                    column,
                ),
    {
        let tile_map_index: u16 = (coord_x as u16) + (coord_y as u16) * (
        NUM_TILES_PER_BG_LINE as u16);
        let address: u16 = tile_map_address_space.wrapping_add(tile_map_index);
        let tile_data_index: u8 = memory.read(address);
        if tile_data_bank_address == 0x9000 {
            self.get_tile_line(
                memory,
                tile_data_bank_address,
                to_signed(tile_data_index),
                tile_line_index,
                line_out,
            );
        } else {
            self.get_tile_line(
                memory,
                tile_data_bank_address,
                tile_data_index as i16,
                tile_line_index,
                line_out,
            );
        }
    }

    /// Renders the background of the current scanline, tile by tile.
    pub fn render_background_line(&self, memory: &Memory) -> (screen_line: [u8; LCD_WIDTH])
        ensures
            screen_line@ == self.background_line(memory@),
    {
        let ly: u8 = memory.read(address::LCD_LY);
        let control: u8 = memory.read(address::LCD_CONTROL);
        let bg_scroll_y: u8 = memory.read(address::LCD_SCROLL_Y);
        let bg_scroll_x: u8 = memory.read(address::LCD_SCROLL_X);
        let bg_y: u8 = ly.wrapping_add(bg_scroll_y);
        let tilegrid_y: u8 = bg_y / TILE_HEIGHT;
        let tile_line_index: u8 = bg_y - tilegrid_y * TILE_HEIGHT;
        let tile_map_address_space: u16 = if (control & LCDC_BG_TILE_MAP_SELECT) != 0 {
            0x9c00
        } else {
            0x9800
        };
        let tile_data_address_space: u16 = if (control & LCDC_BG_AND_WINDOW_TILE_DATA_SELECT)
            != 0 {
            0x8000
        } else {
            0x9000
        };
        let mut screen_line: [u8; LCD_WIDTH] = [0u8; LCD_WIDTH];
        let mut tilegrid_x: u8 = 0;
        while tilegrid_x < NUM_TILES_PER_BG_LINE
            invariant
                tilegrid_x <= NUM_TILES_PER_BG_LINE,
                bg_scroll_x == memory@.bytes[address::LCD_SCROLL_X as int],
                bg_y == bg_row(memory@),
                tilegrid_y == bg_y / 8,
                tile_line_index == bg_y % 8,
                tile_map_address_space == bg_tile_map(memory@),
                tile_data_address_space == bg_tile_data(memory@),
                forall|x: int|
                    0 <= x < LCD_WIDTH && bg_column(memory@, x) / 8 < tilegrid_x
                        ==> #[trigger] screen_line@[x] == self.background_pixel(memory@, x),
            decreases NUM_TILES_PER_BG_LINE - tilegrid_x,
        {
            let mut tile_line: [u8; TILE_WIDTH] = [0u8; TILE_WIDTH];
            self.get_bg_tile_line(
                memory,
                tilegrid_x,
                tilegrid_y,
                tile_map_address_space,
                tile_data_address_space,
                tile_line_index,
                &mut tile_line,
            );
            blit_tile(&mut screen_line, &tile_line, tilegrid_x, bg_scroll_x);
            tilegrid_x += 1;
        }
        assert(screen_line@ =~= self.background_line(memory@));
        screen_line
    }

    /// Draws one object over the scanline.
    pub fn render_object(&self, index: usize, screen_line: &mut [u8; LCD_WIDTH], memory: &Memory)
        requires
            index < NUM_OBJECTS,
        ensures
            final(screen_line)@ == object_over(memory@, index as int, old(screen_line)@),
    {
        let control: u8 = memory.read(address::LCD_CONTROL);
        let ly: i16 = memory.read(address::LCD_LY) as i16;
        let object_height: i16 = if control & LCDC_DOUBLE_HEIGHT_OBJECTS != 0 {
            16
        } else {
            8
        };
        let object_address: u16 = 0xfe00 + 4 * (index as u16);
        let translate_y: i16 = (memory.read(object_address) as i16) - (TILE_HEIGHT as i16) * 2;
        if ly >= translate_y && ly < translate_y + object_height {
            let translate_x: i16 = (memory.read(object_address + 1) as i16) - (TILE_WIDTH as i16);
            let tile_data_index: u8 = if object_height > 8 {
                memory.read(object_address + 2) & 0xfe
            } else {
                memory.read(object_address + 2)
            };
            let object_flags: u8 = memory.read(object_address + 3);
            let choose_palette_1: bool = object_flags & 0x10 != 0;
            let flip_x: bool = object_flags & 0x20 != 0;
            let flip_y: bool = object_flags & 0x40 != 0;
            let behind_background: bool = object_flags & 0x80 != 0;
            let palette_byte: u8 = if choose_palette_1 {
                memory.read(address::OBJECT_PALETTE_1)
            } else {
                memory.read(address::OBJECT_PALETTE_0)
            };
            let mut palette = Renderer::new();
            palette.set_palette(palette_byte);
            let mut tile_line: [u8; TILE_WIDTH] = [0u8; TILE_WIDTH];
            let tile_line_index: i16 = if flip_y {
                object_height - 1 - (ly - translate_y)
            } else {
                ly - translate_y
            };
            palette.get_tile_line(
                memory,
                0x8000,
                tile_data_index as i16,
                tile_line_index as u8,
                &mut tile_line,
            );
            let mut column: i16 = 0;
            while column < 8
                invariant
                    0 <= column <= 8,
                    index < NUM_OBJECTS,
                    translate_x == object_byte(memory@, index as int, 1) - 8,
                    object_flags == object_byte(memory@, index as int, 3),
                    flip_x == (object_flags & 0x20 != 0),
                    behind_background == (object_flags & 0x80 != 0),
                    object_on_line(memory@, index as int),
                    forall|done: int|
                        0 <= done < TILE_WIDTH ==> #[trigger] tile_line@[done] == palette_shades(
                            object_palette(memory@, index as int),
                        ).tile_pixel(
                            memory@,
                            0x8000,
                            object_tile(memory@, index as int) as int,
                            object_row(memory@, index as int),
                            done,
                        ),
                    forall|x: int|
                        0 <= x < LCD_WIDTH ==> #[trigger] screen_line@[x] == (if 0 <= x
                            - translate_x < column {
                            object_pixel_over(memory@, index as int, x, old(screen_line)@[x])
                        } else {
                            old(screen_line)@[x]
                        }),
                decreases 8 - column,
            {
                let screen_x: i16 = translate_x + column;
                if 0 <= screen_x && screen_x < (LCD_WIDTH as i16) {
                    let tile_pixel_index: i16 = if flip_x {
                        7 - column
                    } else {
                        column
                    };
                    let tile_pixel: u8 = tile_line[tile_pixel_index as usize];
                    if (tile_pixel & SHADE_0_FLAG) == 0 && (!behind_background || (
                    screen_line[screen_x as usize] & SHADE_0_FLAG) != 0) {
                        screen_line[screen_x as usize] = tile_pixel;
                    }
                }
                column += 1;
            }
        }
        assert(screen_line@ =~= object_over(memory@, index as int, old(screen_line)@));
    }

    /// Draws the objects over the scanline, the last of the table first.
    pub fn render_objects(&self, screen_line: &mut [u8; LCD_WIDTH], memory: &Memory)
        ensures
            final(screen_line)@ == objects_over(memory@, 0, old(screen_line)@),
    {
        let mut index: usize = NUM_OBJECTS;
        while index > 0
            invariant
                index <= NUM_OBJECTS,
                screen_line@ == objects_over(memory@, index as int, old(screen_line)@),
            decreases index,
        {
            index -= 1;
            self.render_object(index, screen_line, memory);
        }
    }

    /// Renders the current scanline: the background where it is enabled, the
    /// objects over it where they are enabled, and each shade turned into its
    /// brightness.
    pub fn render_screen_line(&mut self, memory: &Memory) -> (line: [u8; LCD_WIDTH])
        ensures
            line@ == screen_line(memory@),
            *final(self) == shades_after_line(memory@, *old(self)),
    {
        let lcd_control: u8 = memory.read(address::LCD_CONTROL);
        let mut pixels: [u8; LCD_WIDTH] = if (lcd_control & LCDC_BG_AND_WINDOW_ENABLED)
            != 0 {
            let bg_palette: u8 = memory.read(address::BG_PALETTE);
            self.set_palette(bg_palette);
            self.render_background_line(memory)
        } else {
            [0u8; LCD_WIDTH]
        };
        assert(pixels@ =~= base_line(memory@));
        if lcd_control & LCDC_OBJECTS_ENABLED != 0 {
            self.render_objects(&mut pixels, memory);
        }
        let ghost composed = pixels@;
        let mut x: usize = 0;
        while x < LCD_WIDTH
            invariant
                x <= LCD_WIDTH,
                composed.len() == LCD_WIDTH,
                forall|done: int| 0 <= done < x ==> #[trigger] pixels@[done] == luminance(composed[done]),
                forall|rest: int| x <= rest < LCD_WIDTH ==> #[trigger] pixels@[rest] == composed[rest],
            decreases LCD_WIDTH - x,
        {
            let pixel: u8 = pixels[x];
            let shade: u8 = pixel & 0x03;
            assert(shade <= 3) by (bit_vector)
                requires
                    shade == pixel & 0x03,
            ;
            pixels[x] = (3 - shade) * 85;
            x += 1;
        }
        assert(pixels@ =~= screen_line(memory@));
        pixels
    }
}

/// Copies the pixels of one background tile to the columns of the scanline
/// at which the scroll shows them; the background wraps around after 256
/// columns.
pub fn blit_tile(
    screen_line: &mut [u8; LCD_WIDTH],
    tile_line: &[u8; TILE_WIDTH],
    tilegrid_x: u8,
    scroll_x: u8,
)
    requires
        tilegrid_x < NUM_TILES_PER_BG_LINE,
    ensures
        forall|x: int|
            0 <= x < LCD_WIDTH ==> #[trigger] final(screen_line)@[x] == (if ((x + scroll_x) % 256)
                / 8 == tilegrid_x {
                tile_line@[((x + scroll_x) % 256) % 8]
            } else {
                old(screen_line)@[x]
            }),
{
    let screen_x: u8 = (tilegrid_x * 8).wrapping_sub(scroll_x);
    let mut column: u8 = 0;
    while column < 8
        invariant
            column <= 8,
            tilegrid_x < NUM_TILES_PER_BG_LINE,
            screen_x == (8 * tilegrid_x - scroll_x) % 256,
            forall|x: int|
                0 <= x < LCD_WIDTH ==> #[trigger] screen_line@[x] == (if ((x + scroll_x) % 256) / 8
                    == tilegrid_x && ((x + scroll_x) % 256) % 8 < column {
                    tile_line@[((x + scroll_x) % 256) % 8]
                } else {
                    old(screen_line)@[x]
                }),
        decreases 8 - column,
    {
        let x: u8 = screen_x.wrapping_add(column);
        assert((x + scroll_x) % 256 == 8 * tilegrid_x + column);
        if (x as usize) < LCD_WIDTH {
            screen_line[x as usize] = tile_line[column as usize];
        }
        column += 1;
    }
}

proof fn lemma_palette(palette: u8)
    by (bit_vector)
    ensures
        ((palette & 0x03) | 0x04) & 0x04 != 0,
        ((palette & 0x0c) >> 2) & 0x04 == 0,
        ((palette & 0x30) >> 4) & 0x04 == 0,
        ((palette & 0xc0) >> 6) & 0x04 == 0,
{
}

proof fn lemma_column_mask(byte: u8, column: u8)
    by (bit_vector)
    requires
        column < 8,
    ensures
        (byte & (0x80u8 >> column) != 0) == (byte & (1u8 << ((7 - column) as u8)) != 0),
{
}

} // verus!
