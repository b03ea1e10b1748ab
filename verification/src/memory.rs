//! The 64 KiB address space, with the side effects that some regions have on
//! a write, and the cartridge's bank controller.

use vstd::prelude::*;
use crate::address;
use crate::interrupt;
use crate::Button;

verus! {

/// Bytes in one cartridge bank.
pub const ROM_BANK_SIZE: usize = 16384;

/// Bytes in the address space.
pub const ADDRESS_SPACE_SIZE: usize = 0x10000;

/// Bytes moved by one transfer into the object attribute table.
pub const DMA_TRANSFER_SIZE: usize = 160;

/// Offset of the controller-family byte in a cartridge image.
pub const CART_KIND_ADDRESS: usize = 0x0147;

/// Offset of the bank-count code in a cartridge image.
pub const BANK_COUNT_ID_ADDRESS: usize = 0x0148;

/// Value of the serial control register that starts a transfer.
pub const SERIAL_TRANSFER_START: u8 = 0x81;

/// The cartridge types that a header can name.
#[derive(Clone, Copy, Debug, PartialEq, Eq, Structural)]
pub enum CartKind {
    RomOnly,
    Mbc1,
    Mbc1Ram,
    Mbc1RamBattery,
    Mbc2,
    Mbc2Battery,
    Ram,
    RamBattery,
    Mmm01,
    Mmm01Ram,
    Mmm01RamBattery,
    Mbc3TimerBattery,
    Mbc3TimerRamBattery,
    Mbc3,
    Mbc3Ram,
    Mbc3RamBattery,
    Mbc4,
    Mbc4Ram,
    Mbc4RamBattery,
    Mbc5,
    Mbc5Ram,
    Mbc5RamBattery,
    Mbc5Rumble,
    Mbc5RumbleRam,
    Mbc5RumbleRamBattery,
    PocketCamera,
    BandaiTama5,
    HuC3,
    HuC1RamBattery,
}

/// The bank-switching families that are emulated.
#[derive(Clone, Copy, Debug, PartialEq, Eq, Structural)]
pub enum Mbc {
    Absent,
    Mbc1,
    Mbc2,
    Mbc3,
}

/// Why a cartridge image cannot be loaded.
#[derive(Clone, Copy, Debug, PartialEq, Eq, Structural)]
pub enum LoadError {
    /// The image is shorter than two banks, so the header or the resident
    /// banks are incomplete.
    TooShort,
    /// The controller-family byte names no known cartridge type, or one whose
    /// bank switching is not emulated.
    UnsupportedController(u8),
    /// The bank-count code is not one of the defined codes.
    UnrecognizedBankCount(u8),
    /// The image is shorter than the number of banks its header declares.
    MissingBanks,
}

/// A condition that stops emulation.
#[derive(Clone, Copy, Debug, PartialEq, Eq, Structural)]
pub enum Fault {
    /// The byte at the program counter is no instruction.
    UndefinedOpcode(u8),
    /// A read was aimed at the unmapped range `0xFEA0..=0xFEFF`.
    ProhibitedRead(u16),
}

impl CartKind {
    /// The header byte that stands for a cartridge type.
    pub open spec fn code(self) -> u8 {
        match self {
            CartKind::RomOnly => 0x00,
            CartKind::Mbc1 => 0x01,
            CartKind::Mbc1Ram => 0x02,
            CartKind::Mbc1RamBattery => 0x03,
            CartKind::Mbc2 => 0x05,
            CartKind::Mbc2Battery => 0x06,
            CartKind::Ram => 0x08,
            CartKind::RamBattery => 0x09,
            CartKind::Mmm01 => 0x0b,
            CartKind::Mmm01Ram => 0x0c,
            CartKind::Mmm01RamBattery => 0x0d,
            CartKind::Mbc3TimerBattery => 0x0f,
            CartKind::Mbc3TimerRamBattery => 0x10,
            CartKind::Mbc3 => 0x11,
            CartKind::Mbc3Ram => 0x12,
            CartKind::Mbc3RamBattery => 0x13,
            CartKind::Mbc4 => 0x15,
            CartKind::Mbc4Ram => 0x16,
            CartKind::Mbc4RamBattery => 0x17,
            CartKind::Mbc5 => 0x19,
            CartKind::Mbc5Ram => 0x1a,
            CartKind::Mbc5RamBattery => 0x1b,
            CartKind::Mbc5Rumble => 0x1c,
            CartKind::Mbc5RumbleRam => 0x1d,
            CartKind::Mbc5RumbleRamBattery => 0x1e,
            CartKind::PocketCamera => 0xfc,
            CartKind::BandaiTama5 => 0xfd,
            CartKind::HuC3 => 0xfe,
            CartKind::HuC1RamBattery => 0xff,
        }
    }

    /// The cartridge type that a header byte stands for, if it stands for one.
    pub fn from_code(byte: u8) -> (kind: Option<CartKind>)
        ensures
            match kind {
                Some(k) => k.code() == byte,
                None => forall|k: CartKind| k.code() != byte,
            },
    {
        match byte {
            0x00 => Some(CartKind::RomOnly),
            0x01 => Some(CartKind::Mbc1),
            0x02 => Some(CartKind::Mbc1Ram),
            0x03 => Some(CartKind::Mbc1RamBattery),
            0x05 => Some(CartKind::Mbc2),
            0x06 => Some(CartKind::Mbc2Battery),
            0x08 => Some(CartKind::Ram),
            0x09 => Some(CartKind::RamBattery),
            0x0b => Some(CartKind::Mmm01),
            0x0c => Some(CartKind::Mmm01Ram),
            0x0d => Some(CartKind::Mmm01RamBattery),
            0x0f => Some(CartKind::Mbc3TimerBattery),
            0x10 => Some(CartKind::Mbc3TimerRamBattery),
            0x11 => Some(CartKind::Mbc3),
            0x12 => Some(CartKind::Mbc3Ram),
            0x13 => Some(CartKind::Mbc3RamBattery),
            0x15 => Some(CartKind::Mbc4),
            0x16 => Some(CartKind::Mbc4Ram),
            0x17 => Some(CartKind::Mbc4RamBattery),
            0x19 => Some(CartKind::Mbc5),
            0x1a => Some(CartKind::Mbc5Ram),
            0x1b => Some(CartKind::Mbc5RamBattery),
            0x1c => Some(CartKind::Mbc5Rumble),
            0x1d => Some(CartKind::Mbc5RumbleRam),
            0x1e => Some(CartKind::Mbc5RumbleRamBattery),
            0xfc => Some(CartKind::PocketCamera),
            0xfd => Some(CartKind::BandaiTama5),
            0xfe => Some(CartKind::HuC3),
            0xff => Some(CartKind::HuC1RamBattery),
            _ => None,
        }
    }
}

/// The bank-switching family of a cartridge type, where it is emulated.
pub open spec fn mbc_of(cart: CartKind) -> Option<Mbc> {
    match cart {
        CartKind::RomOnly | CartKind::Ram | CartKind::RamBattery => Some(Mbc::Absent),
        CartKind::Mbc1 | CartKind::Mbc1Ram | CartKind::Mbc1RamBattery => Some(Mbc::Mbc1),
        CartKind::Mbc2 | CartKind::Mbc2Battery => Some(Mbc::Mbc2),
        CartKind::Mbc3
        | CartKind::Mbc3Ram
        | CartKind::Mbc3RamBattery
        | CartKind::Mbc3TimerBattery
        | CartKind::Mbc3TimerRamBattery => Some(Mbc::Mbc3),
        _ => None,
    }
}

/// The bank-switching family that a header byte selects, where the byte names
/// a cartridge type whose family is emulated.
pub open spec fn mbc_of_code(byte: u8) -> Option<Mbc> {
    if exists|k: CartKind| k.code() == byte {
        mbc_of(choose|k: CartKind| k.code() == byte)
    } else {
        None
    }
}

/// The number of banks that a bank-count code declares: `2 << code` up to
/// code 8, and three special codes for odd sizes.
pub open spec fn bank_count_of(code: u8) -> Option<int> {
    if code <= 8 {
        Some((2u32 << code) as int)
    } else if code == 0x52 {
        Some(72)
    } else if code == 0x53 {
        Some(80)
    } else if code == 0x54 {
        Some(96)
    } else {
        None
    }
}

/// What loading `rom` ends in: the error that refuses it, in the order in
/// which the header is examined, or nothing where it loads.
pub open spec fn load_error_of(rom: Seq<u8>) -> Option<LoadError> {
    if rom.len() < 2 * ROM_BANK_SIZE {
        Some(LoadError::TooShort)
    } else if mbc_of_code(rom[CART_KIND_ADDRESS as int]) is None {
        Some(LoadError::UnsupportedController(rom[CART_KIND_ADDRESS as int]))
    } else if bank_count_of(rom[BANK_COUNT_ID_ADDRESS as int]) is None {
        Some(LoadError::UnrecognizedBankCount(rom[BANK_COUNT_ID_ADDRESS as int]))
    } else if rom.len() < bank_count_of(rom[BANK_COUNT_ID_ADDRESS as int])->0 * ROM_BANK_SIZE {
        Some(LoadError::MissingBanks)
    } else {
        None
    }
}

/// Bank `index` of a cartridge image.
pub open spec fn bank_of(rom: Seq<u8>, index: int) -> Seq<u8> {
    rom.subrange(index * ROM_BANK_SIZE, (index + 1) * ROM_BANK_SIZE)
}

/// The banks of `rom` that do not fit in the two resident windows.
pub open spec fn cached_banks_of(rom: Seq<u8>) -> Seq<Seq<u8>> {
    let total = bank_count_of(rom[BANK_COUNT_ID_ADDRESS as int])->0;
    Seq::new((total - 2) as nat, |i: int| bank_of(rom, i + 2))
}

/// The value of a register at power-on, after the boot program has run.
pub open spec fn power_on_byte(address: int) -> u8 {
    if address == 0xff00 {
        0xff
    } else if address == 0xff0f {
        0xe1
    } else if address == 0xff10 {
        0x80
    } else if address == 0xff11 {
        0xbf
    } else if address == 0xff12 {
        0xf3
    } else if address == 0xff14 {
        0xbf
    } else if address == 0xff16 {
        0x3f
    } else if address == 0xff19 {
        0xbf
    } else if address == 0xff1a {
        0x7f
    } else if address == 0xff1b {
        0xff
    } else if address == 0xff1c {
        0x9f
    } else if address == 0xff1e {
        0xbf
    } else if address == 0xff20 {
        0xff
    } else if address == 0xff23 {
        0xbf
    } else if address == 0xff24 {
        0x77
    } else if address == 0xff25 {
        0xf3
    } else if address == 0xff26 {
        0xf1
    } else if address == 0xff40 {
        0x91
    } else if address == 0xff41 {
        0x85
    } else if address == 0xff47 {
        0xfc
    } else if address == 0xff48 {
        0xff
    } else if address == 0xff49 {
        0xff
    } else {
        0x00
    }
}

/// Whether `address` lies in the unmapped range, which must not be read.
pub open spec fn is_prohibited(address: u16) -> bool {
    0xfea0 <= address <= 0xfeff
}

/// Whether `address` lies in work RAM that has an echo, or in the echo.
pub open spec fn is_mirrored(address: u16) -> bool {
    0xc000 <= address < 0xfe00 && !(0xde00 <= address < 0xe000)
}

/// The joypad register for a written value: bits 6 and 7 read as ones, the
/// two select bits are kept, and the low four bits show the lines of each
/// selected group, a zero for a button that is down.
pub open spec fn joypad_register(written: u8, action_buttons: u8, direction_buttons: u8) -> u8 {
    let idle = written | 0xcf;
    let with_action = if idle & 0x20 == 0 {
        idle & (action_buttons | 0xf0)
    } else {
        idle
    };
    if idle & 0x10 == 0 {
        with_action & (direction_buttons | 0xf0)
    } else {
        with_action
    }
}

/// Whether a button line that read as released in `before` reads as pressed
/// in `after`.
pub open spec fn newly_pressed(before: u8, after: u8) -> bool {
    before & !after & 0x0f != 0
}

/// The line of the action group that a button pulls low.
pub open spec fn button_line(button: Button) -> u8 {
    match button {
        Button::A => 0x01,
        Button::B => 0x02,
        Button::SELECT => 0x04,
        Button::START => 0x08,
    }
}

/// The contents of an address space.
pub struct MemoryModel {
    /// The 65536 bytes, by address.
    pub bytes: Seq<u8>,
    /// Lines of the action buttons, a zero for a button that is down.
    pub action_buttons: u8,
    /// Lines of the direction buttons, a zero for a button that is down.
    pub direction_buttons: u8,
    /// Whether bytes sent over the serial port are recorded.
    pub capture_serial: bool,
    /// The bytes recorded so far, oldest first.
    pub serial_output: Seq<u8>,
    /// Whether the divider was written since the timer last ran.
    pub divider_reset: bool,
    /// The controller of the cartridge.
    pub banker: BankerModel,
}

/// The state of a bank controller.
pub struct BankerModel {
    /// The cartridge's bank-switching family.
    pub mbc: Mbc,
    /// Whether the cartridge has RAM.
    pub has_ram: bool,
    /// The number of RAM banks of the cartridge.
    pub ram_bank_count: u8,
    /// Whether the RAM of the cartridge is enabled.
    pub ram_is_enabled: bool,
    /// The bank that the switchable window shows.
    pub active_switchable_rom_bank: u8,
    /// The cartridge banks beyond the two resident ones.
    pub cached_banks: Seq<Seq<u8>>,
}

impl BankerModel {
    /// The controller of the cartridge `rom` at power-on: RAM is off and
    /// the switchable window shows bank 1.
    pub open spec fn power_on(rom: Seq<u8>) -> BankerModel {
        BankerModel {
            mbc: mbc_of_code(rom[CART_KIND_ADDRESS as int])->0,
            has_ram: false,
            ram_bank_count: 0,
            ram_is_enabled: false,
            active_switchable_rom_bank: 1,
            cached_banks: cached_banks_of(rom),
        }
    }
}

impl MemoryModel {
    /// Echo RAM shows what work RAM holds.
    pub open spec fn well_formed(self) -> bool {
        &&& self.bytes.len() == ADDRESS_SPACE_SIZE
        &&& forall|i: int| 0xc000 <= i < 0xde00 ==> self.bytes[i] == #[trigger] self.bytes[i + 0x2000]
    }

    /// A plain store, with no side effect.
    pub open spec fn store(self, address: u16, value: u8) -> MemoryModel {
        MemoryModel { bytes: self.bytes.update(address as int, value), ..self }
    }

    /// The byte at `address`.
    pub open spec fn read(self, address: u16) -> u8 {
        self.bytes[address as int]
    }

    /// The word whose low byte is at `address` and whose high byte follows.
    pub open spec fn read_u16(self, address: u16) -> u16 {
        crate::bits::word_of(self.read(address), self.read(address.wrapping_add(1)))
    }

    /// A write to the joypad register.
    pub open spec fn write_joypad(self, value: u8) -> MemoryModel {
        let before = self.bytes[address::JOYPAD as int];
        let after = joypad_register(value, self.action_buttons, self.direction_buttons);
        let stored = self.store(address::JOYPAD, after);
        if newly_pressed(before, after) {
            interrupt::request_spec(stored, interrupt::FLAG_JOYPAD)
        } else {
            stored
        }
    }

    /// A write to the serial control register.
    pub open spec fn write_serial_control(self, value: u8) -> MemoryModel {
        let stored = self.store(address::SERIAL_CONTROL, value);
        if value == SERIAL_TRANSFER_START && self.capture_serial {
            MemoryModel {
                serial_output: self.serial_output.push(self.bytes[address::SERIAL_BYTE as int]),
                ..stored
            }
        } else {
            stored
        }
    }

    /// A write to the transfer register: the 160 bytes of page `value` are
    /// copied into the object attribute table.
    pub open spec fn write_dma(self, value: u8) -> MemoryModel {
        MemoryModel {
            bytes: Seq::new(
                ADDRESS_SPACE_SIZE as nat,
                |i: int|
                    if 0xfe00 <= i < 0xfe00 + DMA_TRANSFER_SIZE {
                        self.bytes[(value as int) * 0x100 + (i - 0xfe00)]
                    } else {
                        self.bytes[i]
                    },
            ),
            ..self
        }
    }

    /// A write of `value` to `address`, routed by region.
    pub open spec fn write(self, address: u16, value: u8) -> MemoryModel {
        if address < 0x8000 {
            self
        } else if address == address::JOYPAD {
            self.write_joypad(value)
        } else if address == address::SERIAL_CONTROL {
            self.write_serial_control(value)
        } else if address == address::TIMER_DIVIDER {
            MemoryModel { divider_reset: true, ..self.store(address, 0) }
        } else if address == address::OAM_DMA {
            self.write_dma(value)
        } else if 0xc000 <= address < 0xde00 {
            self.store(address, value).store((address + 0x2000) as u16, value)
        } else if 0xe000 <= address < 0xfe00 {
            self.store(address, value).store((address - 0x2000) as u16, value)
        } else {
            self.store(address, value)
        }
    }

    /// A write of a word, low byte first.
    pub open spec fn write_u16(self, address: u16, value: u16) -> MemoryModel {
        self.write(address, crate::bits::low_byte(value)).write(
            address.wrapping_add(1),
            crate::bits::high_byte(value),
        )
    }

    /// A change of one button: its line follows `is_down`, and the joypad
    /// register is refreshed for the groups that it has selected.
    pub open spec fn set_button(self, button: Button, is_down: bool) -> MemoryModel {
        let lines = if is_down {
            self.action_buttons & !button_line(button)
        } else {
            self.action_buttons | button_line(button)
        };
        MemoryModel { action_buttons: lines, ..self }.write_joypad(self.bytes[address::JOYPAD as int])
    }

    /// The address space at power-on with `rom` in the cartridge slot.
    pub open spec fn power_on(rom: Seq<u8>) -> MemoryModel {
        MemoryModel {
            bytes: Seq::new(
                ADDRESS_SPACE_SIZE as nat,
                |i: int|
                    if i < 2 * ROM_BANK_SIZE {
                        rom[i]
                    } else {
                        power_on_byte(i)
                    },
            ),
            action_buttons: 0xff,
            direction_buttons: 0xff,
            capture_serial: false,
            serial_output: Seq::empty(),
            divider_reset: false,
            banker: BankerModel::power_on(rom),
        }
    }
}

/// A byte written to work RAM is read back from its echo, 0x2000 higher, and a
/// byte written to the echo is read back from work RAM.
pub proof fn lemma_echo_round_trip(m: MemoryModel, address: u16, value: u8)
    requires
        m.bytes.len() == ADDRESS_SPACE_SIZE,
        0xc000 <= address < 0xde00,
    ensures
        m.write(address, value).read(address) == value,
        m.write(address, value).read((address + 0x2000) as u16) == value,
        m.write((address + 0x2000) as u16, value).read(address) == value,
        m.write((address + 0x2000) as u16, value).read((address + 0x2000) as u16) == value,
{
}

/// No write breaks the mirror between work RAM and its echo.
pub proof fn lemma_write_keeps_mirror(m: MemoryModel, address: u16, value: u8)
    requires
        m.well_formed(),
    ensures
        m.write(address, value).well_formed(),
{
    let after = m.write(address, value);
    assert forall|i: int| 0xc000 <= i < 0xde00 implies after.bytes[i] == #[trigger] after.bytes[i
        + 0x2000] by {
        assert(m.bytes[i] == m.bytes[i + 0x2000]);
    }
}

/// The controller state of a cartridge.
pub struct Banker {
    pub mbc: Mbc,
    pub has_ram: bool,
    pub ram_bank_count: u8,
    pub ram_is_enabled: bool,
    pub active_switchable_rom_bank: u8,
    pub cached_banks: Vec<[u8; ROM_BANK_SIZE]>,
}

/// The state of the eight buttons.
pub struct Joypad {
    pub action_buttons: u8,
    pub direction_buttons: u8,
}

impl Joypad {
    pub fn new() -> (joypad: Joypad)
        ensures
            joypad.action_buttons == 0xff,
            joypad.direction_buttons == 0xff,
    {
        Joypad { action_buttons: 0xff, direction_buttons: 0xff }
    }
}

/// The address space of one console.
pub struct Memory {
    bytes: [u8; ADDRESS_SPACE_SIZE],
    joypad: Joypad,
    banker: Banker,
    print_serial: bool,
    serial_output: Vec<u8>,
    divider_reset: bool,
}

impl View for Memory {
    type V = MemoryModel;

    closed spec fn view(&self) -> MemoryModel {
        MemoryModel {
            bytes: self.bytes@,
            action_buttons: self.joypad.action_buttons,
            direction_buttons: self.joypad.direction_buttons,
            capture_serial: self.print_serial,
            serial_output: self.serial_output@,
            divider_reset: self.divider_reset,
            banker: self.banker@,
        }
    }
}

impl View for Banker {
    type V = BankerModel;

    open spec fn view(&self) -> BankerModel {
        BankerModel {
            mbc: self.mbc,
            has_ram: self.has_ram,
            ram_bank_count: self.ram_bank_count,
            ram_is_enabled: self.ram_is_enabled,
            active_switchable_rom_bank: self.active_switchable_rom_bank,
            cached_banks: Seq::new(self.cached_banks@.len(), |i: int| self.cached_banks@[i]@),
        }
    }
}

impl Banker {
    /// The bank-switching family of a cartridge type, or nothing where the
    /// family is not emulated.
    pub fn detect_mbc(cart: CartKind) -> (mbc: Option<Mbc>)
        ensures
            mbc == mbc_of(cart),
    {
        match cart {
            CartKind::RomOnly | CartKind::Ram | CartKind::RamBattery => Some(Mbc::Absent),
            CartKind::Mbc1 | CartKind::Mbc1Ram | CartKind::Mbc1RamBattery => Some(Mbc::Mbc1),
            CartKind::Mbc2 | CartKind::Mbc2Battery => Some(Mbc::Mbc2),
            CartKind::Mbc3
            | CartKind::Mbc3Ram
            | CartKind::Mbc3RamBattery
            | CartKind::Mbc3TimerBattery
            | CartKind::Mbc3TimerRamBattery => Some(Mbc::Mbc3),
            _ => None,
        }
    }

    /// The number of banks that a bank-count code declares.
    pub fn bank_count(code: u8) -> (count: Option<usize>)
        ensures
            match count {
                Some(n) => bank_count_of(code) == Some(n as int) && 2 <= n <= 512,
                None => bank_count_of(code) is None,
            },
    {
        if code <= 0x08 {
            assert(2 <= (2u32 << code) <= 512) by (bit_vector)
                requires
                    code <= 8,
            ;
            let count: u32 = 2u32 << code;
            Some(count as usize)
        } else {
            match code {
                0x52 => Some(72),
                0x53 => Some(80),
                0x54 => Some(96),
                _ => None,
            }
        }
    }

    /// Copies every bank after the first two out of the image.
    pub fn load_cache(file_data: &[u8], total_bank_count: usize) -> (cached_banks: Vec<
        [u8; ROM_BANK_SIZE],
    >)
        requires
            2 <= total_bank_count <= 512,
            total_bank_count * ROM_BANK_SIZE <= file_data@.len(),
        ensures
            cached_banks@.len() == total_bank_count - 2,
            forall|i: int|
                0 <= i < total_bank_count - 2 ==> (#[trigger] cached_banks@[i])@ == bank_of(
                    file_data@,
                    i + 2,
                ),
    {
        let mut cached_banks: Vec<[u8; ROM_BANK_SIZE]> = Vec::new();
        let cached_bank_count: usize = total_bank_count - 2;
        let file_offset: usize = ROM_BANK_SIZE * 2;
        let mut bank_index: usize = 0;
        while bank_index < cached_bank_count
            invariant
                2 <= total_bank_count <= 512,
                total_bank_count * ROM_BANK_SIZE <= file_data@.len(),
                cached_bank_count == total_bank_count - 2,
                file_offset == ROM_BANK_SIZE * 2,
                bank_index <= cached_bank_count,
                cached_banks@.len() == bank_index,
                forall|i: int|
                    0 <= i < bank_index ==> (#[trigger] cached_banks@[i])@ == bank_of(
                        file_data@,
                        i + 2,
                    ),
            decreases cached_bank_count - bank_index,
        {
            let bank_start: usize = file_offset + ROM_BANK_SIZE * bank_index;
            let mut bank_data: [u8; ROM_BANK_SIZE] = [0u8; ROM_BANK_SIZE];
            let mut offset: usize = 0;
            while offset < ROM_BANK_SIZE
                invariant
                    offset <= ROM_BANK_SIZE,
                    bank_start == ROM_BANK_SIZE * (bank_index + 2),
                    bank_start + ROM_BANK_SIZE <= file_data@.len(),
                    forall|j: int| 0 <= j < offset ==> bank_data@[j] == file_data@[bank_start + j],
                decreases ROM_BANK_SIZE - offset,
            {
                bank_data[offset] = file_data[bank_start + offset];
                offset += 1;
            }
            assert(bank_data@ =~= bank_of(file_data@, bank_index + 2));
            cached_banks.push(bank_data);
            bank_index += 1;
        }
        cached_banks
    }

    /// Reads the header of `file_data`, copies its first two banks into the
    /// resident windows and keeps the others.
    pub fn new(bank_slots_in_memory: &mut [u8; ADDRESS_SPACE_SIZE], file_data: &[u8]) -> (banker:
        Result<Banker, LoadError>)
        ensures
            match banker {
                Ok(b) => {
                    &&& load_error_of(file_data@) is None
                    &&& b@ == BankerModel::power_on(file_data@)
                    &&& forall|i: int|
                        0 <= i < 2 * ROM_BANK_SIZE ==> final(bank_slots_in_memory)@[i]
                            == file_data@[i]
                    &&& forall|i: int|
                        2 * ROM_BANK_SIZE <= i < ADDRESS_SPACE_SIZE ==> final(bank_slots_in_memory)@[i]
                            == old(bank_slots_in_memory)@[i]
                },
                Err(e) => {
                    &&& load_error_of(file_data@) == Some(e)
                    &&& final(bank_slots_in_memory)@ == old(bank_slots_in_memory)@
                },
            },
    {
        if file_data.len() < ROM_BANK_SIZE * 2 {
            return Err(LoadError::TooShort);
        }
        let kind_byte: u8 = file_data[CART_KIND_ADDRESS];
        let mbc = match CartKind::from_code(kind_byte) {
            Some(cart_kind) => {
                assert(mbc_of_code(kind_byte) == mbc_of(cart_kind)) by {
                    lemma_code_is_injective();
                }
                Self::detect_mbc(cart_kind)
            },
            None => None,
        };
        let mbc = match mbc {
            Some(mbc) => mbc,
            None => {
                return Err(LoadError::UnsupportedController(kind_byte));
            },
        };
        let count_byte: u8 = file_data[BANK_COUNT_ID_ADDRESS];
        let total_bank_count: usize = match Self::bank_count(count_byte) {
            Some(count) => count,
            None => {
                return Err(LoadError::UnrecognizedBankCount(count_byte));
            },
        };
        if file_data.len() < total_bank_count * ROM_BANK_SIZE {
            return Err(LoadError::MissingBanks);
        }
        let cached_banks = Self::load_cache(file_data, total_bank_count);
        let banker = Banker {
            mbc,
            has_ram: false,
            ram_bank_count: 0,
            ram_is_enabled: false,
            active_switchable_rom_bank: 1,
            cached_banks,
        };
        assert(banker@.cached_banks =~= cached_banks_of(file_data@));
        let mut offset: usize = 0;
        while offset < ROM_BANK_SIZE * 2
            invariant
                offset <= ROM_BANK_SIZE * 2,
                ROM_BANK_SIZE * 2 <= file_data@.len(),
                forall|i: int| 0 <= i < offset ==> bank_slots_in_memory@[i] == file_data@[i],
                forall|i: int|
                    offset <= i < ADDRESS_SPACE_SIZE ==> bank_slots_in_memory@[i]
                        == old(bank_slots_in_memory)@[i],
            decreases ROM_BANK_SIZE * 2 - offset,
        {
            bank_slots_in_memory[offset] = file_data[offset];
            offset += 1;
        }
        Ok(banker)
    }
}

/// No two cartridge types share a header byte.
pub proof fn lemma_code_is_injective()
    ensures
        forall|a: CartKind, b: CartKind| a.code() == b.code() ==> a == b,
{
}

impl Memory {
    /// The address space at power-on with the cartridge `file_data`, or the
    /// reason why the cartridge is refused.
    pub fn new(file_data: &[u8]) -> (memory: Result<Memory, LoadError>)
        ensures
            match memory {
                Ok(m) => load_error_of(file_data@) is None && m@ == MemoryModel::power_on(
                    file_data@,
                ) && m@.well_formed(),
                Err(e) => load_error_of(file_data@) == Some(e),
            },
    {
        let mut bytes: [u8; ADDRESS_SPACE_SIZE] = [0u8; ADDRESS_SPACE_SIZE];
        bytes[0xff10] = 0x80;
        bytes[0xff11] = 0xbf;
        bytes[0xff12] = 0xf3;
        bytes[0xff14] = 0xbf;
        bytes[0xff16] = 0x3f;
        bytes[0xff19] = 0xbf;
        bytes[0xff1a] = 0x7f;
        bytes[0xff1b] = 0xff;
        bytes[0xff1c] = 0x9f;
        bytes[0xff1e] = 0xbf;
        bytes[0xff00] = 0xff;
        bytes[0xff20] = 0xff;
        bytes[0xff23] = 0xbf;
        bytes[0xff24] = 0x77;
        bytes[0xff25] = 0xf3;
        bytes[0xff26] = 0xf1;
        bytes[0xff40] = 0x91;
        bytes[0xff41] = 0x85;
        bytes[0xff47] = 0xfc;
        bytes[0xff48] = 0xff;
        bytes[0xff49] = 0xff;
        bytes[0xff0f] = 0xe1;
        assert(forall|i: int| 0 <= i < ADDRESS_SPACE_SIZE ==> bytes@[i] == power_on_byte(i));
        let banker = match Banker::new(&mut bytes, file_data) {
            Ok(banker) => banker,
            Err(e) => {
                return Err(e);
            },
        };
        let memory = Memory {
            bytes,
            joypad: Joypad::new(),
            banker,
            print_serial: false,
            serial_output: Vec::new(),
            divider_reset: false,
        };
        assert(memory@.bytes =~= MemoryModel::power_on(file_data@).bytes);
        Ok(memory)
    }

    /// The address space has 65536 bytes.
    pub proof fn lemma_size(&self)
        ensures
            self@.bytes.len() == ADDRESS_SPACE_SIZE,
    {
    }

    /// Turns the recording of serial output on or off.
    pub fn redirect_serial_to_stdout(&mut self, redirect: bool)
        ensures
            final(self)@ == (MemoryModel { capture_serial: redirect, ..old(self)@ }),
            old(self)@.well_formed() ==> final(self)@.well_formed(),
    {
        self.print_serial = redirect
    }

    /// Whether serial output is recorded.
    pub fn is_recording(&self) -> (recording: bool)
        ensures
            recording == self@.capture_serial,
    {
        self.print_serial
    }

    /// The bytes sent over the serial port while recording was on.
    pub fn serial_output(&self) -> (output: &Vec<u8>)
        ensures
            output@ == self@.serial_output,
    {
        &self.serial_output
    }

    /// Whether the divider was written since this was last asked, which
    /// clears the mark.
    pub fn take_divider_reset(&mut self) -> (was_reset: bool)
        ensures
            was_reset == old(self)@.divider_reset,
            final(self)@ == (MemoryModel { divider_reset: false, ..old(self)@ }),
    {
        let was_reset = self.divider_reset;
        self.divider_reset = false;
        was_reset
    }

    /// The byte at `address` itself, for a component that owns the register
    /// there. Work RAM and its echo are reached through `write` alone.
    pub fn direct_access(&mut self, address: u16) -> (cell: &mut u8)
        requires
            !is_mirrored(address),
        ensures
            *cell == old(self)@.bytes[address as int],
            final(self)@ == old(self)@.store(address, *final(cell)),
    {
        &mut self.bytes[address as usize]
    }

    /// The byte at `address`, with no check of the region.
    pub fn peek(&self, address: u16) -> (value: u8)
        ensures
            value == self@.bytes[address as int],
    {
        self.bytes[address as usize]
    }

    /// Changes one button and refreshes the joypad register.
    pub fn set_button(&mut self, button: &Button, is_down: bool)
        ensures
            final(self)@ == old(self)@.set_button(*button, is_down),
            old(self)@.well_formed() ==> final(self)@.well_formed(),
    {
        let line: u8 = match button {
            Button::A => 0x01,
            Button::B => 0x02,
            Button::SELECT => 0x04,
            Button::START => 0x08,
        };
        if is_down {
            self.joypad.action_buttons = self.joypad.action_buttons & !line;
        } else {
            self.joypad.action_buttons = self.joypad.action_buttons | line;
        }
        let select: u8 = self.bytes[address::JOYPAD as usize];
        self.write_joypad(select);
    }

    fn get_joypad_register_write_result(&self, register_value: u8) -> (result: u8)
        ensures
            result == joypad_register(
                register_value,
                self@.action_buttons,
                self@.direction_buttons,
            ),
    {
        let mut result: u8 = register_value | 0xcf;
        let idle: u8 = result;
        if (idle & 0x20) == 0x00 {
            result = result & (self.joypad.action_buttons | 0xf0);
        }
        if (idle & 0x10) == 0x00 {
            result = result & (self.joypad.direction_buttons | 0xf0);
        }
        result
    }

    fn write_joypad(&mut self, value: u8)
        ensures
            final(self)@ == old(self)@.write_joypad(value),
    {
        let before: u8 = self.bytes[address::JOYPAD as usize];
        let after: u8 = self.get_joypad_register_write_result(value);
        self.bytes[address::JOYPAD as usize] = after;
        if before & !after & 0x0f != 0 {
            interrupt::make_request(interrupt::FLAG_JOYPAD, self);
        }
    }

    fn write_dma(&mut self, value: u8)
        ensures
            final(self)@ == old(self)@.write_dma(value),
    {
        let source: usize = (value as usize) * 0x100;
        let mut offset: usize = 0;
        while offset < DMA_TRANSFER_SIZE
            invariant
                offset <= DMA_TRANSFER_SIZE,
                source == (value as int) * 0x100,
                forall|i: int|
                    0xfe00 <= i < 0xfe00 + offset ==> #[trigger] self.bytes@[i] == old(
                        self,
                    ).bytes@[source + (i - 0xfe00)],
                forall|i: int|
                    0 <= i < ADDRESS_SPACE_SIZE && !(0xfe00 <= i < 0xfe00 + offset)
                        ==> #[trigger] self.bytes@[i] == old(self).bytes@[i],
                self.joypad == old(self).joypad,
                self.banker == old(self).banker,
                self.print_serial == old(self).print_serial,
                self.serial_output == old(self).serial_output,
                self.divider_reset == old(self).divider_reset,
            decreases DMA_TRANSFER_SIZE - offset,
        {
            self.bytes[0xfe00 + offset] = self.bytes[source + offset];
            offset += 1;
        }
        assert(self@.bytes =~= old(self)@.write_dma(value).bytes);
    }

    /// Writes `value` to `address`, with the side effect of the region.
    pub fn write(&mut self, address: u16, value: u8)
        ensures
            final(self)@ == old(self)@.write(address, value),
            old(self)@.well_formed() ==> final(self)@.well_formed(),
    {
        proof {
            if old(self)@.well_formed() {
                lemma_write_keeps_mirror(old(self)@, address, value);
            }
        }
        if address < 0x8000 {
        } else if address == address::JOYPAD {
            self.write_joypad(value);
        } else if address == address::SERIAL_CONTROL {
            self.bytes[address as usize] = value;
            if value == SERIAL_TRANSFER_START && self.print_serial {
                let serial_byte: u8 = self.bytes[address::SERIAL_BYTE as usize];
                self.serial_output.push(serial_byte);
            }
        } else if address == address::TIMER_DIVIDER {
            self.bytes[address as usize] = 0x00;
            self.divider_reset = true;
        } else if address == address::OAM_DMA {
            self.write_dma(value);
        } else if 0xc000 <= address && address < 0xde00 {
            self.bytes[address as usize] = value;
            let echo_address: u16 = address + 0x2000;
            self.bytes[echo_address as usize] = value;
        } else if 0xe000 <= address && address < 0xfe00 {
            self.bytes[address as usize] = value;
            let echo_address: u16 = address - 0x2000;
            self.bytes[echo_address as usize] = value;
        } else {
            self.bytes[address as usize] = value;
        }
    }

    /// Writes a word, low byte first.
    pub fn write_u16(&mut self, address: u16, value: u16)
        ensures
            final(self)@ == old(self)@.write_u16(address, value),
            old(self)@.well_formed() ==> final(self)@.well_formed(),
    {
        let halves = crate::bits::split_u16(value);
        self.write(address, halves.0);
        self.write(address.wrapping_add(1), halves.1);
    }

    /// The byte at `address`. Reading changes nothing, so a second read of
    /// the same address gives the same byte.
    pub fn read(&self, address: u16) -> (value: u8)
        requires
            !is_prohibited(address),
        ensures
            value == self@.read(address),
    {
        self.bytes[address as usize]
    }

    /// The byte at `address`, or the fault where the address must not be read.
    pub fn checked_read(&self, address: u16) -> (value: Result<u8, Fault>)
        ensures
            value == checked_read_spec(self@, address),
    {
        if address >= 0xfea0 && address <= 0xfeff {
            Err(Fault::ProhibitedRead(address))
        } else {
            Ok(self.bytes[address as usize])
        }
    }

    /// The word at `address`, low byte first.
    pub fn read_u16(&self, address: u16) -> (value: u16)
        requires
            !is_prohibited(address),
            !is_prohibited(address.wrapping_add(1)),
        ensures
            value == self@.read_u16(address),
    {
        crate::bits::make_u16(self.read(address), self.read(address.wrapping_add(1)))
    }

    /// The word at `address`, or the fault of the first of its two bytes that
    /// must not be read.
    pub fn checked_read_u16(&self, address: u16) -> (value: Result<u16, Fault>)
        ensures
            value == checked_read_u16_spec(self@, address),
    {
        let lower: u8 = match self.checked_read(address) {
            Ok(byte) => byte,
            Err(fault) => {
                return Err(fault);
            },
        };
        let upper: u8 = match self.checked_read(address.wrapping_add(1)) {
            Ok(byte) => byte,
            Err(fault) => {
                return Err(fault);
            },
        };
        Ok(crate::bits::make_u16(lower, upper))
    }
}

/// A read that is refused in the unmapped range.
pub open spec fn checked_read_spec(m: MemoryModel, address: u16) -> Result<u8, Fault> {
    if is_prohibited(address) {
        Err(Fault::ProhibitedRead(address))
    } else {
        Ok(m.read(address))
    }
}

/// A read of a word that is refused where either byte lies in the unmapped
/// range.
pub open spec fn checked_read_u16_spec(m: MemoryModel, address: u16) -> Result<u16, Fault> {
    if is_prohibited(address) {
        Err(Fault::ProhibitedRead(address))
    } else if is_prohibited(address.wrapping_add(1)) {
        Err(Fault::ProhibitedRead(address.wrapping_add(1)))
    } else {
        Ok(m.read_u16(address))
    }
}

} // verus!
