use robin_gb::interrupt::make_request;
use robin_gb::interrupt::FLAG_JOYPAD;
use robin_gb::interrupt::FLAG_TIMER;
use robin_gb::memory::Banker;
use robin_gb::memory::CartKind;
use robin_gb::memory::Fault;
use robin_gb::memory::LoadError;
use robin_gb::memory::Mbc;
use robin_gb::memory::Memory;
use robin_gb::Button;

fn memory_test_rom(banks: usize, kind: u8, bank_code: u8) -> Vec<u8> {
    let mut rom = vec![0u8; banks * 0x4000];
    for (i, byte) in rom.iter_mut().enumerate() {
        *byte = (i % 251) as u8;
    }
    rom[0x147] = kind;
    rom[0x148] = bank_code;
    rom
}

#[test]
fn power_on_state_of_the_address_space() {
    let rom = memory_test_rom(2, 0x00, 0x00);
    let memory = Memory::new(&rom).unwrap();
    for address in 0u16..0x8000 {
        assert_eq!(memory.read(address), rom[address as usize]);
    }
    assert_eq!(memory.read(0xff00), 0xff);
    assert_eq!(memory.read(0xff0f), 0xe1);
    assert_eq!(memory.read(0xff10), 0x80);
    assert_eq!(memory.read(0xff26), 0xf1);
    assert_eq!(memory.read(0xff40), 0x91);
    assert_eq!(memory.read(0xff41), 0x85);
    assert_eq!(memory.read(0xff47), 0xfc);
    assert_eq!(memory.read(0xff48), 0xff);
    assert_eq!(memory.read(0xff49), 0xff);
    assert_eq!(memory.read(0xff04), 0x00);
    assert_eq!(memory.read(0xc000), 0x00);
    assert_eq!(memory.read(0xffff), 0x00);
    assert!(!memory.is_recording());
}

#[test]
fn images_are_refused_for_their_reasons() {
    assert!(matches!(Memory::new(&vec![0u8; 0x7fff]), Err(LoadError::TooShort)));
    assert!(matches!(Memory::new(&[]), Err(LoadError::TooShort)));
    assert!(matches!(
        Memory::new(&memory_test_rom(2, 0x04, 0x00)),
        Err(LoadError::UnsupportedController(0x04))
    ));
    assert!(matches!(
        Memory::new(&memory_test_rom(2, 0x19, 0x00)),
        Err(LoadError::UnsupportedController(0x19))
    ));
    assert!(matches!(
        Memory::new(&memory_test_rom(2, 0x01, 0x09)),
        Err(LoadError::UnrecognizedBankCount(0x09))
    ));
    assert!(matches!(
        Memory::new(&memory_test_rom(2, 0x01, 0x01)),
        Err(LoadError::MissingBanks)
    ));
    // The controller is examined before the bank count.
    assert!(matches!(
        Memory::new(&memory_test_rom(2, 0xfc, 0x09)),
        Err(LoadError::UnsupportedController(0xfc))
    ));
    assert!(Memory::new(&memory_test_rom(4, 0x01, 0x01)).is_ok());
    assert!(Memory::new(&memory_test_rom(72, 0x13, 0x52)).is_ok());
}

#[test]
fn bank_counts_and_families() {
    assert_eq!(Banker::bank_count(0), Some(2));
    assert_eq!(Banker::bank_count(1), Some(4));
    assert_eq!(Banker::bank_count(5), Some(64));
    assert_eq!(Banker::bank_count(8), Some(512));
    assert_eq!(Banker::bank_count(0x52), Some(72));
    assert_eq!(Banker::bank_count(0x53), Some(80));
    assert_eq!(Banker::bank_count(0x54), Some(96));
    assert_eq!(Banker::bank_count(9), None);
    assert_eq!(Banker::bank_count(0x55), None);
    assert_eq!(CartKind::from_code(0x00), Some(CartKind::RomOnly));
    assert_eq!(CartKind::from_code(0x13), Some(CartKind::Mbc3RamBattery));
    assert_eq!(CartKind::from_code(0xff), Some(CartKind::HuC1RamBattery));
    assert_eq!(CartKind::from_code(0x04), None);
    assert_eq!(CartKind::from_code(0x20), None);
    assert_eq!(Banker::detect_mbc(CartKind::RamBattery), Some(Mbc::Absent));
    assert_eq!(Banker::detect_mbc(CartKind::Mbc1Ram), Some(Mbc::Mbc1));
    assert_eq!(Banker::detect_mbc(CartKind::Mbc2Battery), Some(Mbc::Mbc2));
    assert_eq!(Banker::detect_mbc(CartKind::Mbc3TimerBattery), Some(Mbc::Mbc3));
    assert_eq!(Banker::detect_mbc(CartKind::Mbc5), None);
    assert_eq!(Banker::detect_mbc(CartKind::HuC3), None);
}

#[test]
fn banks_beyond_the_first_two_are_cached() {
    let rom = memory_test_rom(4, 0x01, 0x01);
    let cached = Banker::load_cache(&rom, 4);
    assert_eq!(cached.len(), 2);
    assert_eq!(&cached[0][..], &rom[0x8000..0xc000]);
    assert_eq!(&cached[1][..], &rom[0xc000..0x10000]);
    assert_eq!(Banker::load_cache(&rom, 2).len(), 0);
}

#[test]
fn work_ram_and_echo_mirror_each_other() {
    let rom = memory_test_rom(2, 0x00, 0x00);
    let mut memory = Memory::new(&rom).unwrap();
    for offset in 0u16..0x1e00 {
        let value = (offset % 253) as u8 ^ 0x5a;
        memory.write(0xc000 + offset, value);
        assert_eq!(memory.read(0xc000 + offset), value);
        assert_eq!(memory.read(0xe000 + offset), value);
        let other = value.wrapping_add(1);
        memory.write(0xe000 + offset, other);
        assert_eq!(memory.read(0xe000 + offset), other);
        assert_eq!(memory.read(0xc000 + offset), other);
    }
    // 0xde00..0xe000 has no echo.
    memory.write(0xde00, 0x77);
    assert_eq!(memory.read(0xde00), 0x77);
    assert_eq!(memory.read(0xfe00), 0x00);
}

#[test]
fn reading_twice_gives_the_same_byte() {
    let rom = memory_test_rom(2, 0x00, 0x00);
    let mut memory = Memory::new(&rom).unwrap();
    memory.write(0x8123, 0x42);
    for address in 0u32..0x10000 {
        let address = address as u16;
        if (0xfea0..=0xfeff).contains(&address) {
            continue;
        }
        let first = memory.read(address);
        let second = memory.read(address);
        assert_eq!(first, second);
        assert_eq!(memory.checked_read(address), Ok(first));
        assert_eq!(memory.peek(address), first);
    }
}

#[test]
fn the_unmapped_range_is_refused() {
    let rom = memory_test_rom(2, 0x00, 0x00);
    let memory = Memory::new(&rom).unwrap();
    assert_eq!(memory.checked_read(0xfea0), Err(Fault::ProhibitedRead(0xfea0)));
    assert_eq!(memory.checked_read(0xfeff), Err(Fault::ProhibitedRead(0xfeff)));
    assert_eq!(memory.checked_read(0xfe9f), Ok(0));
    assert_eq!(memory.checked_read(0xff00), Ok(0xff));
    assert_eq!(memory.checked_read_u16(0xfe9f), Err(Fault::ProhibitedRead(0xfea0)));
    assert_eq!(memory.checked_read_u16(0xfeff), Err(Fault::ProhibitedRead(0xfeff)));
    assert_eq!(memory.checked_read_u16(0xffff), Ok(0x0000));
}

#[test]
fn writes_below_the_video_ram_change_no_byte() {
    let rom = memory_test_rom(2, 0x01, 0x00);
    let mut memory = Memory::new(&rom).unwrap();
    memory.write(0x0000, 0x0a);
    memory.write(0x2000, 0x01);
    memory.write(0x7fff, 0xff);
    for address in 0u16..0x8000 {
        assert_eq!(memory.read(address), rom[address as usize]);
    }
}

#[test]
fn words_are_written_and_read_low_byte_first() {
    let rom = memory_test_rom(2, 0x00, 0x00);
    let mut memory = Memory::new(&rom).unwrap();
    memory.write_u16(0xc100, 0x1234);
    assert_eq!(memory.read(0xc100), 0x34);
    assert_eq!(memory.read(0xc101), 0x12);
    assert_eq!(memory.read_u16(0xc100), 0x1234);
    assert_eq!(memory.read_u16(0xe100), 0x1234);
    memory.write_u16(0xffff, 0xabcd);
    assert_eq!(memory.read(0xffff), 0xcd);
    // The high byte wraps around to address 0, which is cartridge space.
    assert_eq!(memory.read(0x0000), rom[0]);
}

#[test]
fn a_transfer_copies_a_page_into_the_object_table() {
    let rom = memory_test_rom(2, 0x00, 0x00);
    let mut memory = Memory::new(&rom).unwrap();
    for i in 0u16..0x100 {
        memory.write(0xc200 + i, (i as u8) ^ 0xa5);
    }
    memory.write(0xff46, 0xc2);
    for i in 0u16..160 {
        assert_eq!(memory.read(0xfe00 + i), (i as u8) ^ 0xa5);
    }
    // The register itself keeps its value and nothing past the table changes.
    assert_eq!(memory.read(0xff46), 0x00);
    assert_eq!(memory.peek(0xfea0), 0x00);
    // From the cartridge.
    memory.write(0xff46, 0x01);
    for i in 0usize..160 {
        assert_eq!(memory.read(0xfe00 + i as u16), rom[0x100 + i]);
    }
}

#[test]
fn a_write_to_the_divider_clears_it() {
    let rom = memory_test_rom(2, 0x00, 0x00);
    let mut memory = Memory::new(&rom).unwrap();
    *memory.direct_access(0xff04) = 0x55;
    assert_eq!(memory.read(0xff04), 0x55);
    assert!(!memory.take_divider_reset());
    memory.write(0xff04, 0x99);
    assert_eq!(memory.read(0xff04), 0x00);
    assert!(memory.take_divider_reset());
    assert!(!memory.take_divider_reset());
}

#[test]
fn serial_bytes_are_recorded_while_recording_is_on() {
    let rom = memory_test_rom(2, 0x00, 0x00);
    let mut memory = Memory::new(&rom).unwrap();
    memory.write(0xff01, b'x');
    memory.write(0xff02, 0x81);
    assert_eq!(memory.serial_output().len(), 0);
    assert_eq!(memory.read(0xff02), 0x81);
    memory.redirect_serial_to_stdout(true);
    assert!(memory.is_recording());
    memory.write(0xff01, b'o');
    memory.write(0xff02, 0x81);
    memory.write(0xff01, b'k');
    memory.write(0xff02, 0x80);
    memory.write(0xff01, 0xc3);
    memory.write(0xff02, 0x81);
    assert_eq!(memory.serial_output().as_slice(), &[b'o', 0xc3]);
    memory.redirect_serial_to_stdout(false);
    memory.write(0xff02, 0x81);
    assert_eq!(memory.serial_output().len(), 2);
}

#[test]
fn the_joypad_register_shows_selected_buttons() {
    let rom = memory_test_rom(2, 0x00, 0x00);
    let mut memory = Memory::new(&rom).unwrap();
    *memory.direct_access(0xff0f) = 0x00;
    // Nothing selected: all lines read high.
    memory.write(0xff00, 0x30);
    assert_eq!(memory.read(0xff00), 0xff);
    // Action buttons selected, none down.
    memory.write(0xff00, 0x10);
    assert_eq!(memory.read(0xff00), 0xdf);
    assert_eq!(memory.read(0xff0f), 0x00);
    // A goes down while selected: the line drops and the interrupt is raised.
    memory.set_button(&Button::A, true);
    assert_eq!(memory.read(0xff00), 0xde);
    assert_eq!(memory.read(0xff0f), 0xe0 | FLAG_JOYPAD);
    *memory.direct_access(0xff0f) = 0x00;
    memory.set_button(&Button::START, true);
    assert_eq!(memory.read(0xff00), 0xd6);
    assert_eq!(memory.read(0xff0f), 0xe0 | FLAG_JOYPAD);
    *memory.direct_access(0xff0f) = 0x00;
    memory.set_button(&Button::A, false);
    assert_eq!(memory.read(0xff00), 0xd7);
    assert_eq!(memory.read(0xff0f), 0x00);
    // Direction buttons selected instead: nothing is down there.
    memory.write(0xff00, 0x20);
    assert_eq!(memory.read(0xff00), 0xef);
    assert_eq!(memory.read(0xff0f), 0x00);
    // Selecting the action group again shows START as newly pressed.
    memory.write(0xff00, 0x10);
    assert_eq!(memory.read(0xff00), 0xd7);
    assert_eq!(memory.read(0xff0f), 0xe0 | FLAG_JOYPAD);
    memory.set_button(&Button::B, true);
    memory.set_button(&Button::SELECT, true);
    assert_eq!(memory.read(0xff00), 0xd1);
}

#[test]
fn a_request_keeps_what_was_pending() {
    let rom = memory_test_rom(2, 0x00, 0x00);
    let mut memory = Memory::new(&rom).unwrap();
    *memory.direct_access(0xff0f) = 0x01;
    make_request(FLAG_TIMER, &mut memory);
    assert_eq!(memory.read(0xff0f), 0xe5);
    make_request(FLAG_TIMER, &mut memory);
    assert_eq!(memory.read(0xff0f), 0xe5);
}
