//! A cycle-stepped emulator core for an 8-bit handheld console: processor,
//! interrupt protocol, timer, address space and display controller.

use vstd::prelude::*;
use crate::cpu::semantics::lemma_step_takes_time;
use crate::cpu::semantics::step_spec;
use crate::cpu::Cpu;
use crate::lcd::Lcd;
use crate::lcd::LcdModel;
use crate::lcd::LY_MAXIMUM_VALUE;
use crate::lcd::LY_VBLANK_ENTRY_VALUE;
use crate::lcd::NUM_CYCLES_PER_LY_INCREMENT;
use crate::lcd::PIXEL_COUNT;
use crate::memory::load_error_of;
use crate::memory::Fault;
use crate::memory::LoadError;
use crate::memory::Memory;
use crate::memory::MemoryModel;
use crate::timer::Timer;

pub mod address;
pub mod bits;
pub mod cpu;
pub mod interrupt;
pub mod lcd;
pub mod memory;
pub mod report;
pub mod timer;

verus! {

/// The four buttons that a caller can press or release.
#[derive(Clone, Copy, Debug, PartialEq, Eq, Structural)]
pub enum Button {
    A,
    B,
    START,
    SELECT,
}

/// The state of a console.
pub struct GameBoyModel {
    pub lcd: LcdModel,
    pub memory: MemoryModel,
    pub cpu: Cpu,
    pub timer: Timer,
}

impl GameBoyModel {
    /// Every component is in a state that it can have reached.
    pub open spec fn well_formed(self) -> bool {
        &&& self.lcd.well_formed()
        &&& self.memory.well_formed()
        &&& self.cpu.well_formed()
        &&& self.timer.well_formed()
    }

    /// The scanline on which the display works.
    pub open spec fn line(self) -> u8 {
        self.memory.bytes[address::LCD_LY as int]
    }

    /// One step: the processor executes an instruction and checks for
    /// interrupts, then the display and the timer move forward by the cycles
    /// that the instruction took. Gives the state after the step and the
    /// cycles, or the fault that stopped the processor.
    #[verifier::opaque]
    pub open spec fn tick(self) -> Result<(GameBoyModel, u8), Fault> {
        match step_spec(self.cpu, self.memory) {
            Err(fault) => Err(fault),
            Ok(stepped) => {
                let shown = self.lcd.update(stepped.memory, stepped.cycles);
                let timed = self.timer.updated(shown.1, stepped.cycles);
                Ok(
                    (
                        GameBoyModel {
                            lcd: shown.0,
                            memory: timed.1,
                            cpu: stepped.cpu,
                            timer: timed.0,
                        },
                        stepped.cycles,
                    ),
                )
            },
        }
    }

    /// The rest of a scanline that started on line `start` and has taken
    /// `spent` cycles: steps are made until the display has left the line, or
    /// until the cycles of one scanline are spent, which ends the line of a
    /// display that is off. A fault ends the line with the state in which
    /// it arose.
    pub open spec fn run_line(self, start: u8, spent: int) -> (GameBoyModel, Option<Fault>)
        decreases NUM_CYCLES_PER_LY_INCREMENT + 24 - spent,
    {
        if self.line() != start || spent >= NUM_CYCLES_PER_LY_INCREMENT {
            (self, None)
        } else {
            match self.tick() {
                Err(fault) => (self, Some(fault)),
                Ok(next) => {
                    proof {
                        self.lemma_tick_takes_time();
                    }
                    next.0.run_line(start, spent + next.1)
                },
            }
        }
    }

    /// Every step takes between 4 and 24 cycles.
    pub proof fn lemma_tick_takes_time(self)
        ensures
            self.tick() is Ok ==> 4 <= self.tick()->Ok_0.1 <= 24,
    {
        reveal(GameBoyModel::tick);
        lemma_step_takes_time(self.cpu, self.memory);
    }

    /// Scanlines are run until one that started as `visible` says has been
    /// run, or until 154 have been, the number in a frame; `lines` counts
    /// those already run.
    pub open spec fn run_lines(self, visible: bool, lines: int) -> (GameBoyModel, Option<Fault>)
        decreases LY_MAXIMUM_VALUE - lines,
    {
        if lines >= LY_MAXIMUM_VALUE {
            (self, None)
        } else {
            let after = self.run_line(self.line(), 0);
            if after.1 is Some || (self.line() < LY_VBLANK_ENTRY_VALUE) == visible {
                after
            } else {
                after.0.run_lines(visible, lines + 1)
            }
        }
    }

    /// One frame: scanlines are run until a visible one has been run, and
    /// then until one of the vertical blank has been.
    pub open spec fn run_frame(self) -> (GameBoyModel, Option<Fault>) {
        let drawn = self.run_lines(true, 0);
        if drawn.1 is Some {
            drawn
        } else {
            drawn.0.run_lines(false, 0)
        }
    }
}

/// A console.
pub struct GameBoy {
    lcd: Lcd,
    memory: Memory,
    cpu: Cpu,
    timer: Timer,
}

impl View for GameBoy {
    type V = GameBoyModel;

    closed spec fn view(&self) -> GameBoyModel {
        GameBoyModel { lcd: self.lcd@, memory: self.memory@, cpu: self.cpu, timer: self.timer }
    }
}

impl GameBoy {
    /// A console at power-on with the cartridge `rom_file_data`, or the
    /// reason why the cartridge is refused.
    pub fn new(rom_file_data: &[u8]) -> (game_boy: Result<GameBoy, LoadError>)
        ensures
            match game_boy {
                Ok(gb) => {
                    &&& load_error_of(rom_file_data@) is None
                    &&& gb@.well_formed()
                    &&& gb@.memory == MemoryModel::power_on(rom_file_data@).store(
                        address::TIMER_DIVIDER,
                        0xab,
                    )
                    &&& gb@.cpu == (Cpu {
                        registers: crate::cpu::Registers::power_on(),
                        is_halted: false,
                    })
                    &&& gb@.timer == (Timer {
                        cycles_since_last_tima_increment: 0,
                        incrementer_every_cycle: crate::timer::POWER_ON_CYCLES,
                    })
                    &&& gb@.lcd.elapsed_cycles == 0
                    &&& gb@.lcd.renderer == crate::lcd::render::palette_shades(0)
                    &&& forall|i: int| 0 <= i < PIXEL_COUNT ==> gb@.lcd.pixels[i] == 0
                },
                Err(e) => load_error_of(rom_file_data@) == Some(e),
            },
    {
        let mut memory = match Memory::new(rom_file_data) {
            Ok(memory) => memory,
            Err(e) => {
                return Err(e);
            },
        };
        let timer = Timer::new(&mut memory);
        Ok(GameBoy { lcd: Lcd::new(), memory, cpu: Cpu::new(), timer })
    }

    /// Makes one step.
    pub fn step(&mut self) -> (cycles: Result<u8, Fault>)
        requires
            old(self)@.well_formed(),
        ensures
            match cycles {
                Ok(count) => old(self)@.tick() == Ok::<(GameBoyModel, u8), Fault>(
                    (final(self)@, count),
                ),
                Err(fault) => old(self)@.tick() == Err::<(GameBoyModel, u8), Fault>(fault)
                    && final(self)@ == old(self)@,
            },
            final(self)@.well_formed(),
    {
        proof {
            reveal(GameBoyModel::tick);
        }
        let elapsed_cycles: u8 = match self.cpu.execute_next_instruction(&mut self.memory) {
            Ok(count) => count,
            Err(fault) => {
                return Err(fault);
            },
        };
        self.lcd.update(elapsed_cycles, &mut self.memory);
        self.timer.update(elapsed_cycles, &mut self.memory);
        Ok(elapsed_cycles)
    }

    /// Runs one scanline. Says whether the line was a visible one, or gives
    /// the fault that stopped the processor.
    pub fn emulate_next_lcd_line(&mut self) -> (visible: Result<bool, Fault>)
        requires
            old(self)@.well_formed(),
        ensures
            final(self)@ == old(self)@.run_line(old(self)@.line(), 0).0,
            match visible {
                Ok(was_visible) => old(self)@.run_line(old(self)@.line(), 0).1 is None
                    && was_visible == (old(self)@.line() < LY_VBLANK_ENTRY_VALUE),
                Err(fault) => old(self)@.run_line(old(self)@.line(), 0).1 == Some(fault),
            },
            final(self)@.well_formed(),
    {
        let previous_lcd_ly: u8 = self.memory.peek(address::LCD_LY);
        let mut total_elapsed_cycles_this_h_blank: u32 = 0;
        while self.memory.peek(address::LCD_LY) == previous_lcd_ly
            && total_elapsed_cycles_this_h_blank < NUM_CYCLES_PER_LY_INCREMENT
            invariant
                self@.well_formed(),
                total_elapsed_cycles_this_h_blank <= NUM_CYCLES_PER_LY_INCREMENT + 24,
                previous_lcd_ly == old(self)@.line(),
                old(self)@.run_line(previous_lcd_ly, 0) == self@.run_line(
                    previous_lcd_ly,
                    total_elapsed_cycles_this_h_blank as int,
                ),
            decreases NUM_CYCLES_PER_LY_INCREMENT + 24 - total_elapsed_cycles_this_h_blank,
        {
            proof {
                self@.lemma_tick_takes_time();
            }
            let elapsed_cycles: u8 = match self.step() {
                Ok(count) => count,
                Err(fault) => {
                    return Err(fault);
                },
            };
            total_elapsed_cycles_this_h_blank = total_elapsed_cycles_this_h_blank + (
            elapsed_cycles as u32);
        }
        Ok(previous_lcd_ly < LY_VBLANK_ENTRY_VALUE)
    }

    fn emulate_lines(&mut self, visible: bool) -> (fault: Option<Fault>)
        requires
            old(self)@.well_formed(),
        ensures
            (final(self)@, fault) == old(self)@.run_lines(visible, 0),
            final(self)@.well_formed(),
    {
        let mut lines: u8 = 0;
        while lines < LY_MAXIMUM_VALUE
            invariant
                self@.well_formed(),
                lines <= LY_MAXIMUM_VALUE,
                old(self)@.run_lines(visible, 0) == self@.run_lines(visible, lines as int),
            decreases LY_MAXIMUM_VALUE - lines,
        {
            match self.emulate_next_lcd_line() {
                Err(fault) => {
                    return Some(fault);
                },
                Ok(was_visible) => {
                    if was_visible == visible {
                        return None;
                    }
                },
            }
            lines = lines + 1;
        }
        None
    }

    /// Runs the console until one frame is finished and gives its pixels,
    /// 160 to a row and 144 rows, one byte of brightness each; or gives the
    /// fault that stopped the processor.
    pub fn emulate_next_frame(&mut self) -> (frame: Result<&[u8; PIXEL_COUNT], Fault>)
        requires
            old(self)@.well_formed(),
        ensures
            final(self)@ == old(self)@.run_frame().0,
            match frame {
                Ok(pixels) => old(self)@.run_frame().1 is None && pixels@ == final(self)@.lcd.pixels,
                Err(fault) => old(self)@.run_frame().1 == Some(fault),
            },
            final(self)@.well_formed(),
    {
        if let Some(fault) = self.emulate_lines(true) {
            return Err(fault);
        }
        if let Some(fault) = self.emulate_lines(false) {
            return Err(fault);
        }
        Ok(self.lcd.pixels())
    }

    /// Presses or releases a button; the joypad register shows it at once.
    pub fn set_button(&mut self, button: &Button, is_down: bool)
        ensures
            final(self)@ == (GameBoyModel {
                memory: old(self)@.memory.set_button(*button, is_down),
                ..old(self)@
            }),
            old(self)@.well_formed() ==> final(self)@.well_formed(),
    {
        self.memory.set_button(button, is_down);
    }

    /// Turns the recording of serial output on or off.
    pub fn record_serial_output(&mut self, record: bool)
        ensures
            final(self)@ == (GameBoyModel {
                memory: MemoryModel { capture_serial: record, ..old(self)@.memory },
                ..old(self)@
            }),
            old(self)@.well_formed() ==> final(self)@.well_formed(),
    {
        self.memory.redirect_serial_to_stdout(record);
    }

    /// The bytes sent over the serial port while recording was on, oldest
    /// first, where recording is on.
    pub fn serial_buffer(&self) -> (buffer: Option<&Vec<u8>>)
        ensures
            match buffer {
                Some(bytes) => self@.memory.capture_serial && bytes@ == self@.memory.serial_output,
                None => !self@.memory.capture_serial,
            },
    {
        if self.memory.is_recording() {
            Some(self.memory.serial_output())
        } else {
            None
        }
    }

    /// The registers of the processor.
    pub fn registers(&self) -> (registers: crate::cpu::Registers)
        ensures
            registers == self@.cpu.registers,
    {
        self.cpu.registers
    }

    /// The address space.
    pub fn memory(&self) -> (memory: &Memory)
        ensures
            memory@ == self@.memory,
    {
        &self.memory
    }
}

} // verus!
