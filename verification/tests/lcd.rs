use robin_gb::lcd::render::blit_tile;
use robin_gb::lcd::render::Renderer;
use robin_gb::lcd::Lcd;
use robin_gb::memory::Memory;

fn lcd_test_memory() -> Memory {
    let mut memory = Memory::new(&vec![0u8; 0x8000]).unwrap();
    *memory.direct_access(0xff0f) = 0xe0;
    memory
}

fn luminance_of(shade: u8) -> u8 {
    (3 - (shade & 3)) * 85
}

#[test]
fn a_palette_byte_gives_four_shades_and_marks_the_first() {
    let mut renderer = Renderer::new();
    assert_eq!(
        (renderer.shade_0, renderer.shade_1, renderer.shade_2, renderer.shade_3),
        (0x04, 0, 0, 0)
    );
    renderer.set_palette(0xe4);
    assert_eq!(
        (renderer.shade_0, renderer.shade_1, renderer.shade_2, renderer.shade_3),
        (0x04, 1, 2, 3)
    );
    renderer.set_palette(0x1b);
    assert_eq!(
        (renderer.shade_0, renderer.shade_1, renderer.shade_2, renderer.shade_3),
        (0x07, 2, 1, 0)
    );
}

#[test]
fn a_tile_row_is_decoded_from_its_two_bit_planes() {
    let mut memory = lcd_test_memory();
    // Tile 2 of the bank at 0x8000, row 3.
    memory.write(0x8000 + 2 * 16 + 3 * 2, 0b0101_0011);
    memory.write(0x8000 + 2 * 16 + 3 * 2 + 1, 0b0011_0101);
    let mut renderer = Renderer::new();
    renderer.set_palette(0xe4);
    let mut line = [0u8; 8];
    renderer.get_tile_line(&memory, 0x8000, 2, 3, &mut line);
    assert_eq!(line, [0x04, 1, 2, 3, 0x04, 2, 1, 3]);
    // The same row through the bank at 0x9000 with a negative index.
    renderer.get_tile_line(&memory, 0x9000, -254, 3, &mut line);
    assert_eq!(line, [0x04, 1, 2, 3, 0x04, 2, 1, 3]);
    memory.write(0x9000 + 5 * 16, 0xff);
    renderer.get_tile_line(&memory, 0x9000, 5, 0, &mut line);
    assert_eq!(line, [1; 8]);
}

#[test]
fn background_tiles_are_addressed_signed_or_unsigned() {
    let mut memory = lcd_test_memory();
    memory.write(0x9800 + 2 * 32 + 5, 0x80);
    // Tile 0x80 is at 0x8800 in either bank.
    memory.write(0x8800 + 2, 0xf0);
    memory.write(0x8800 + 3, 0xcc);
    // Tile 0x80 read unsigned from the bank at 0x9000 would be at 0x9800.
    let mut renderer = Renderer::new();
    renderer.set_palette(0xe4);
    let mut line = [0u8; 8];
    renderer.get_bg_tile_line(&memory, 5, 2, 0x9800, 0x8000, 1, &mut line);
    assert_eq!(line, [3, 3, 1, 1, 2, 2, 0x04, 0x04]);
    renderer.get_bg_tile_line(&memory, 5, 2, 0x9800, 0x9000, 1, &mut line);
    assert_eq!(line, [3, 3, 1, 1, 2, 2, 0x04, 0x04]);
    memory.write(0x9c00 + 2 * 32 + 5, 0x01);
    memory.write(0x9010 + 2, 0x0f);
    renderer.get_bg_tile_line(&memory, 5, 2, 0x9c00, 0x9000, 1, &mut line);
    assert_eq!(line, [0x04, 0x04, 0x04, 0x04, 1, 1, 1, 1]);
}

#[test]
fn a_tile_is_placed_where_the_scroll_shows_it() {
    let tile = [1u8, 2, 3, 4, 5, 6, 7, 8];
    let mut line = [0u8; 160];
    blit_tile(&mut line, &tile, 0, 3);
    assert_eq!(&line[0..6], &[4, 5, 6, 7, 8, 0]);
    let mut line = [0u8; 160];
    blit_tile(&mut line, &tile, 20, 3);
    assert_eq!(&line[156..160], &[0, 1, 2, 3]);
    let mut line = [0u8; 160];
    blit_tile(&mut line, &tile, 31, 250);
    // Background columns 248 and 249 are off the screen; column 250 shows at 0.
    assert_eq!(&line[0..7], &[3, 4, 5, 6, 7, 8, 0]);
    assert!(line[7..].iter().all(|p| *p == 0));
    let mut line = [0u8; 160];
    blit_tile(&mut line, &tile, 25, 0);
    // Background column 200 is right of the screen.
    assert!(line.iter().all(|p| *p == 0));
    let mut line = [0u8; 160];
    blit_tile(&mut line, &tile, 0, 250);
    // Background column 0 shows at screen column 6.
    assert_eq!(&line[5..15], &[0, 1, 2, 3, 4, 5, 6, 7, 8, 0]);
}

#[test]
fn the_background_scrolls_and_wraps() {
    let mut memory = lcd_test_memory();
    memory.write(0xff47, 0xe4);
    // Tile 1: every row has colors 0,1,2,3,0,1,2,3.
    for row in 0u16..8 {
        memory.write(0x8010 + 2 * row, 0b0101_0101);
        memory.write(0x8010 + 2 * row + 1, 0b0011_0011);
    }
    // Tile 1 at map column 31 of row 1; everything else is tile 0, all color 0.
    memory.write(0x9800 + 32 + 31, 0x01);
    memory.write(0xff42, 8); // scroll y: line 0 shows background row 8
    memory.write(0xff43, 250); // scroll x: screen column 0 shows background column 250
    let mut renderer = Renderer::new();
    let line = renderer.render_screen_line(&memory);
    let colors = [0u8, 1, 2, 3, 0, 1, 2, 3];
    for x in 0..160usize {
        let column = (x + 250) % 256;
        let expected = if column / 8 == 31 { colors[column % 8] } else { 0 };
        assert_eq!(line[x], luminance_of(expected), "column {}", x);
    }
    assert_eq!(&line[0..7], &[85, 0, 255, 170, 85, 0, 255]);
    assert_eq!(
        (renderer.shade_0, renderer.shade_1, renderer.shade_2, renderer.shade_3),
        (0x04, 1, 2, 3)
    );
}

#[test]
fn a_disabled_background_is_white() {
    let mut memory = lcd_test_memory();
    memory.write(0xff40, 0x80);
    memory.write(0x8000, 0xff);
    let mut renderer = Renderer::new();
    renderer.set_palette(0x1b);
    let line = renderer.render_screen_line(&memory);
    assert!(line.iter().all(|p| *p == 255));
    // The shades are left as they were.
    assert_eq!(renderer.shade_1, 2);
}

fn place_object(memory: &mut Memory, index: u16, y: u8, x: u8, tile: u8, flags: u8) {
    memory.write(0xfe00 + 4 * index, y);
    memory.write(0xfe00 + 4 * index + 1, x);
    memory.write(0xfe00 + 4 * index + 2, tile);
    memory.write(0xfe00 + 4 * index + 3, flags);
}

fn object_test_memory() -> Memory {
    let mut memory = lcd_test_memory();
    memory.write(0xff40, 0x93); // display, background and objects on, tile data at 0x8000
    memory.write(0xff47, 0xe4);
    memory.write(0xff48, 0xe4);
    memory.write(0xff49, 0x1b);
    // Tile 2: row 0 has colors 1,2,3,0,0,0,0,1; row 7 has colors 3 throughout.
    memory.write(0x8020, 0b1010_0001);
    memory.write(0x8021, 0b0110_0000);
    memory.write(0x802e, 0xff);
    memory.write(0x802f, 0xff);
    // Tile 3: row 7 has color 2 throughout.
    memory.write(0x803f, 0xff);
    // Tile 4, used by the background at column 2: color 1 throughout row 0.
    memory.write(0x8040, 0xff);
    memory.write(0x9802, 0x04);
    memory
}

#[test]
fn an_object_is_drawn_over_the_background() {
    let mut memory = object_test_memory();
    place_object(&mut memory, 0, 16, 8 + 4, 2, 0x00);
    let mut renderer = Renderer::new();
    let line = renderer.render_screen_line(&memory);
    assert_eq!(&line[0..4], &[255, 255, 255, 255]);
    // Colors 1,2,3 and then transparent, and color 1 at the eighth pixel.
    assert_eq!(&line[4..12], &[170, 85, 0, 255, 255, 255, 255, 170]);
    assert_eq!(&line[12..16], &[255, 255, 255, 255]);
    // Background tile 4 at columns 16 to 23.
    assert_eq!(&line[16..24], &[170; 8]);
    assert_eq!(line[24], 255);
}

#[test]
fn object_flips_palettes_and_priority() {
    let mut memory = object_test_memory();
    // Flipped horizontally, second palette: colors 1,0,0,0,0,3,2,1 become shades 2,.,.,.,.,0,1,2.
    place_object(&mut memory, 0, 16, 8 + 4, 2, 0x30);
    let mut renderer = Renderer::new();
    let line = renderer.render_screen_line(&memory);
    assert_eq!(&line[4..12], &[85, 255, 255, 255, 255, 255, 170, 85]);
    // Flipped vertically: row 7 of the tile shows on the first line.
    place_object(&mut memory, 0, 16, 8 + 4, 2, 0x40);
    let line = renderer.render_screen_line(&memory);
    assert_eq!(&line[4..12], &[0; 8]);
    // Behind the background: hidden where the background is not color 0.
    place_object(&mut memory, 0, 16, 8 + 12, 2, 0xc0);
    let line = renderer.render_screen_line(&memory);
    assert_eq!(&line[12..16], &[0; 4]);
    assert_eq!(&line[16..20], &[170; 4]);
    // An earlier entry of the table covers a later one.
    place_object(&mut memory, 0, 16, 8 + 40, 2, 0x40);
    place_object(&mut memory, 1, 16, 8 + 44, 2, 0x00);
    let line = renderer.render_screen_line(&memory);
    assert_eq!(&line[40..48], &[0; 8]);
    assert_eq!(&line[48..52], &[255, 255, 255, 170]);
    // Partly off the left and right edges.
    place_object(&mut memory, 0, 16, 3, 2, 0x40);
    place_object(&mut memory, 1, 16, 8 + 156, 2, 0x40);
    let line = renderer.render_screen_line(&memory);
    assert_eq!(&line[0..4], &[0, 0, 0, 255]);
    assert_eq!(&line[155..160], &[255, 0, 0, 0, 0]);
}

#[test]
fn tall_objects_use_two_tiles() {
    let mut memory = object_test_memory();
    memory.write(0xff40, 0x97);
    // A tall object with tile 3 named covers tiles 2 and 3; line 0 is its row 0.
    place_object(&mut memory, 0, 16, 8, 3, 0x00);
    let mut renderer = Renderer::new();
    let line = renderer.render_screen_line(&memory);
    assert_eq!(&line[0..8], &[170, 85, 0, 255, 255, 255, 255, 170]);
    // Flipped vertically, line 0 is row 15: row 7 of tile 3.
    place_object(&mut memory, 0, 16, 8, 3, 0x40);
    let line = renderer.render_screen_line(&memory);
    assert_eq!(&line[0..8], &[85; 8]);
    // Eight lines further up it still reaches line 0 with row 8: row 0 of tile 3.
    place_object(&mut memory, 0, 8, 8, 2, 0x00);
    let line = renderer.render_screen_line(&memory);
    assert_eq!(&line[0..8], &[255; 8]);
    // With short objects it does not.
    memory.write(0xff40, 0x93);
    place_object(&mut memory, 0, 8, 8, 2, 0x40);
    let line = renderer.render_screen_line(&memory);
    assert_eq!(&line[0..8], &[255; 8]);
}

#[test]
fn objects_are_left_out_when_disabled() {
    let mut memory = object_test_memory();
    memory.write(0xff40, 0x91);
    place_object(&mut memory, 0, 16, 8, 2, 0x40);
    let mut renderer = Renderer::new();
    let line = renderer.render_screen_line(&memory);
    assert_eq!(&line[0..8], &[255; 8]);
    let mut shades = [0x04u8; 160];
    renderer.render_objects(&mut shades, &memory);
    assert_eq!(&shades[0..9], &[3, 3, 3, 3, 3, 3, 3, 3, 0x04]);
    let mut shades = [0x04u8; 160];
    renderer.render_object(1, &mut shades, &memory);
    assert!(shades.iter().all(|p| *p == 0x04));
}

#[test]
fn the_coincidence_bit_is_set_without_elapsed_cycles() {
    let mut memory = lcd_test_memory();
    let mut lcd = Lcd::new();
    memory.write(0xff41, 0x00);
    assert_eq!(memory.read(0xff44), 0);
    assert_eq!(memory.read(0xff45), 0);
    lcd.update(0, &mut memory);
    assert_eq!(memory.read(0xff41) & 0x04, 0x04);
    assert_eq!(memory.read(0xff41) & 0x03, 0x02);
    assert_eq!(memory.read(0xff44), 0);
    assert_eq!(memory.read(0xff0f), 0xe0);
}

#[test]
fn a_scanline_takes_456_cycles() {
    for compare in [0u8, 1] {
        for chunk in [4u32, 8, 12, 24, 152, 228] {
            let mut memory = lcd_test_memory();
            let mut lcd = Lcd::new();
            memory.write(0xff45, compare);
            let mut cycles = 0;
            while cycles < 456 {
                assert_eq!(memory.read(0xff44), 0);
                lcd.update(chunk as u8, &mut memory);
                cycles += chunk;
            }
            assert_eq!(cycles, 456);
            assert_eq!(memory.read(0xff44), 1);
            assert_eq!(memory.read(0xff41) & 0x04 != 0, compare == 1);
            for _ in 0..(456 / chunk - 1) {
                lcd.update(chunk as u8, &mut memory);
                assert_eq!(memory.read(0xff44), 1);
            }
            lcd.update(chunk as u8, &mut memory);
            assert_eq!(memory.read(0xff44), 2);
            assert_eq!(memory.read(0xff41) & 0x04, 0);
        }
    }
}

#[test]
fn the_modes_of_a_visible_line_and_their_interrupts() {
    let mut memory = lcd_test_memory();
    let mut lcd = Lcd::new();
    memory.write(0xff45, 0xff);
    memory.write(0xff41, 0x28); // interrupts on entering modes 0 and 2
    let mut modes = Vec::new();
    let mut requests = Vec::new();
    for _ in 0..(456 / 4) {
        lcd.update(4, &mut memory);
        modes.push(memory.read(0xff41) & 0x03);
        requests.push(memory.read(0xff0f) & 0x02 != 0);
        *memory.direct_access(0xff0f) = 0xe0;
    }
    for (i, mode) in modes.iter().enumerate() {
        let elapsed = 4 * (i + 1);
        let expected = if elapsed < 80 {
            2
        } else if elapsed < 252 {
            3
        } else if elapsed < 456 {
            0
        } else {
            2
        };
        assert_eq!(*mode, expected, "after {} cycles", elapsed);
        let entered = elapsed == 4 || elapsed == 252 || elapsed == 456;
        assert_eq!(requests[i], entered, "after {} cycles", elapsed);
    }
    assert_eq!(memory.read(0xff44), 1);
    assert_eq!(memory.read(0xff41) & 0x78, 0x28);
}

#[test]
fn the_vertical_blank_and_the_wrap_of_the_line_counter() {
    let mut memory = lcd_test_memory();
    let mut lcd = Lcd::new();
    memory.write(0xff45, 0xff);
    let mut vblank_requests = 0;
    for line in 0u32..154 {
        for _ in 0..(456 / 8) {
            assert_eq!(memory.read(0xff44) as u32, line);
            lcd.update(8, &mut memory);
            if memory.read(0xff0f) & 0x01 != 0 {
                vblank_requests += 1;
                assert_eq!(memory.read(0xff44), 144);
                assert_eq!(memory.read(0xff41) & 0x03, 1);
                *memory.direct_access(0xff0f) = 0xe0;
            }
        }
    }
    assert_eq!(vblank_requests, 1);
    assert_eq!(memory.read(0xff44), 0);
    assert_eq!(memory.read(0xff41) & 0x03, 2);
}

#[test]
fn the_compare_interrupt_is_requested_on_reaching_the_line() {
    let mut memory = lcd_test_memory();
    let mut lcd = Lcd::new();
    memory.write(0xff45, 2);
    memory.write(0xff41, 0x40);
    let mut requests = 0;
    for _ in 0..(4 * 456 / 4) {
        lcd.update(4, &mut memory);
        if memory.read(0xff0f) & 0x02 != 0 {
            requests += 1;
            assert_eq!(memory.read(0xff44), 2);
            assert_eq!(memory.read(0xff41) & 0x04, 0x04);
            *memory.direct_access(0xff0f) = 0xe0;
        }
    }
    assert_eq!(requests, 1);
    // With the interrupt disabled the bit is still kept.
    let mut memory = lcd_test_memory();
    let mut lcd = Lcd::new();
    memory.write(0xff45, 1);
    memory.write(0xff41, 0x00);
    for _ in 0..(456 / 4) {
        lcd.update(4, &mut memory);
    }
    assert_eq!(memory.read(0xff41) & 0x04, 0x04);
    assert_eq!(memory.read(0xff0f), 0xe0);
}

#[test]
fn a_display_that_is_off_holds_line_zero() {
    let mut memory = lcd_test_memory();
    let mut lcd = Lcd::new();
    for _ in 0..200 {
        lcd.update(4, &mut memory);
    }
    assert_eq!(memory.read(0xff44), 1);
    memory.write(0xff40, 0x11);
    lcd.update(4, &mut memory);
    assert_eq!(memory.read(0xff44), 0);
    assert_eq!(memory.read(0xff41), 0xf8);
    for _ in 0..500 {
        lcd.update(4, &mut memory);
        assert_eq!(memory.read(0xff44), 0);
        assert_eq!(memory.read(0xff41), 0xf8);
    }
    assert_eq!(memory.read(0xff0f), 0xe0);
}

#[test]
fn a_row_is_rendered_on_entering_the_pixel_transfer() {
    let mut memory = lcd_test_memory();
    let mut lcd = Lcd::new();
    memory.write(0xff47, 0xe4);
    memory.write(0x8000, 0xff); // tile 0 row 0: color 1
    memory.write(0x8002, 0xff); // tile 0 row 1: color 3
    memory.write(0x8003, 0xff);
    assert!(lcd.pixels().iter().all(|p| *p == 0));
    for _ in 0..19 {
        lcd.update(4, &mut memory);
    }
    assert!(lcd.pixels().iter().all(|p| *p == 0));
    lcd.update(4, &mut memory);
    assert!(lcd.pixels()[0..160].iter().all(|p| *p == 170));
    assert!(lcd.pixels()[160..].iter().all(|p| *p == 0));
    // A change during the transfer does not reach the row.
    memory.write(0x8000, 0x00);
    for _ in 0..94 {
        lcd.update(4, &mut memory);
    }
    assert!(lcd.pixels()[0..160].iter().all(|p| *p == 170));
    assert_eq!(memory.read(0xff44), 1);
    for _ in 0..20 {
        lcd.update(4, &mut memory);
    }
    // Row 1 of tile 0 is color 3, black; nothing below it was drawn yet.
    assert!(lcd.pixels()[160..320].iter().all(|p| *p == 0));
    assert_eq!(lcd.pixels().len(), 160 * 144);
}
