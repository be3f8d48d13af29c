use vstd::prelude::*;

use crate::audio::AudioController;
use crate::joypad::Joypad;
use crate::memory::memory_wrapper::{joypad_read_value, AsMemory};
use crate::screen::video_controller::VideoController;

verus! {

/// A device that advances with the machine's clock.
pub trait OnClock {
    fn on_clock(&mut self) -> ();
}

/// A one-byte register.
trait AsByte {
    fn read(&mut self) -> u8;

    fn write(&mut self, val: u8);
}

/// The joypad register with the buttons behind it.
pub struct JoypadMIO {
    pub joypad_state: u8,
    pub buttons: Joypad,
}

impl AsByte for JoypadMIO {
    /// The register as the buttons report it (see `joypad_read_value`); the
    /// value read stays in the register.
    fn read(&mut self) -> (r: u8)
        ensures
            r == joypad_read_value(old(self).joypad_state),
            *final(self) == (JoypadMIO { joypad_state: r, buttons: Joypad { joypad_state: r, ..old(self).buttons } }),
    {
        self.buttons.joypad_state = self.joypad_state;
        self.joypad_state = self.buttons.set_key_stroke_nibble();
        self.joypad_state
    }

    /// A write sets the high nibble.
    fn write(&mut self, val: u8)
        ensures
            *final(self) == (JoypadMIO { joypad_state: val | 0xF0, ..*old(self) }),
    {
        self.joypad_state = val | 0xF0
    }
}

/// The serial registers, which read 0 and ignore writes.
pub struct Serial {
    pub sb: u8,
    pub sc: u8,
}

impl AsMemory for Serial {
    open spec fn readable(&self, addr: usize) -> bool {
        true
    }

    open spec fn writable(&self, addr: usize) -> bool {
        true
    }

    fn memory_map(&mut self, _addr: usize) -> (r: u8)
        ensures
            r == 0,
            *final(self) == *old(self),
    {
        0
    }

    fn memory_write(&mut self, _addr: usize, _val: u8)
        ensures
            *final(self) == *old(self),
    {
    }
}

/// The 16-bit counter behind DIV.
pub struct Divider {
    pub internal_divider: u16,
}

impl AsByte for Divider {
    /// DIV as this register shows it: bits 4..=7 of the counter shifted
    /// down by eight, which is always 0.
    fn read(&mut self) -> (r: u8)
        ensures
            r == ((old(self).internal_divider & 0xF0) >> 8u16) as u8,
            r == 0,
            *final(self) == *old(self),
    {
        let d = self.internal_divider;
        assert(((d & 0xF0) >> 8u16) as u8 == 0) by (bit_vector);
        return ((self.internal_divider & 0xF0) >> 8u16) as u8;
    }

    /// Any write resets the counter.
    fn write(&mut self, _val: u8)
        ensures
            final(self).internal_divider == 0,
    {
        self.internal_divider = 0;
    }
}

impl OnClock for Divider {
    /// The counter steps (wrapping).
    fn on_clock(&mut self)
        ensures
            final(self).internal_divider == old(self).internal_divider.wrapping_add(1),
    {
        self.internal_divider = self.internal_divider.wrapping_add(1);
    }
}

/// DIV, TIMA, TMA and TAC; only DIV takes writes.
pub struct Timer {
    pub divider: Divider,
    pub tima: u8,
    pub tma: u8,
    pub tac: u8,
}

impl Timer {
    /// The register at offset `addr` (0..=3).
    pub open spec fn register(&self, addr: int) -> u8 {
        if addr == 0 {
            0
        } else if addr == 1 {
            self.tima
        } else if addr == 2 {
            self.tma
        } else {
            self.tac
        }
    }
}

impl AsMemory for Timer {
    open spec fn readable(&self, addr: usize) -> bool {
        addr <= 3
    }

    open spec fn writable(&self, addr: usize) -> bool {
        addr == 0
    }

    fn memory_map(&mut self, addr: usize) -> (r: u8)
        ensures
            r == old(self).register(addr as int),
            *final(self) == *old(self),
    {
        if addr == 0 {
            self.divider.read()
        } else if addr == 1 {
            self.tima
        } else if addr == 2 {
            self.tma
        } else {
            self.tac
        }
    }

    fn memory_write(&mut self, _addr: usize, val: u8)
        ensures
            *final(self) == (Timer { divider: Divider { internal_divider: 0 }, ..*old(self) }),
    {
        self.divider.write(val)
    }
}

/// The interrupt flag register.
pub struct InterruptFlag {
    pub inf: u8,
}

/// The I/O registers at 0xFF00..=0xFF7F and IE, at offsets from 0xFF00.
pub struct MappedIO {
    pub joypad: JoypadMIO,  //FF00
    pub serial: Serial,  //FF01, FF02 [FF03 is unmapped]
    pub timer: Timer,
    pub iflag: u8,
    pub audio_controller: AudioController,
    pub video_controller: VideoController,
    pub boot_control: u8,
    pub ie: u8,
    pub interrupt_flag: InterruptFlag,
}

impl MappedIO {
    /// The registers at power-on with the given devices.
    pub fn new(joypad: Joypad, audio_con: AudioController, video_con: VideoController) -> (r: Self)
        ensures
            r.joypad.joypad_state == 0 && r.joypad.buttons == joypad,
            r.timer.divider.internal_divider == 0 && r.timer.tima == 0 && r.timer.tma == 0 && r.timer.tac == 0,
            r.iflag == 0 && r.boot_control == 0 && r.ie == 0 && r.interrupt_flag.inf == 0,
            r.audio_controller == audio_con,
            r.video_controller == video_con,
    {
        return Self {
            joypad: JoypadMIO { joypad_state: 0, buttons: joypad },
            serial: Serial { sb: 0, sc: 0 },
            timer: Timer { divider: Divider { internal_divider: 0 }, tima: 0, tma: 0, tac: 0 },
            iflag: 0,
            boot_control: 0,
            ie: 0,
            audio_controller: audio_con,
            video_controller: video_con,
            interrupt_flag: InterruptFlag { inf: 0 },
        };
    }

    /// The register at offset `addr`, as read.
    pub open spec fn value(&self, addr: usize) -> u8 {
        if addr == 0 {
            joypad_read_value(self.joypad.joypad_state)
        } else if addr <= 3 {
            0
        } else if addr <= 7 {
            self.timer.register(addr - 4)
        } else if addr == 0x0f {
            0xE0 | self.iflag
        } else if addr < 0x26 {
            self.audio_controller.register(addr - 0x10)
        } else if addr <= 0x4b {
            self.video_controller.register(addr - 0x40)
        } else if addr == 0x50 {
            self.boot_control
        } else {
            self.ie
        }
    }

    /// TIMA ticks on this clock: the timer is enabled (TAC bit 2) and the
    /// incremented counter is a multiple of `2^k` for the clock select
    /// `TAC % 4` (k = 8, 2, 4, 6).
    pub open spec fn ticks(&self) -> bool {
        self.timer.tac & 0x04 > 0 && (self.timer.divider.internal_divider.wrapping_add(1) % (1u16
            << crate::memory::memory_wrapper::timer_frequency(self.timer.tac))) == 0
    }
}

impl AsMemory for MappedIO {
    /// The joypad, serial, timer, interrupt flag, sound, LCD, boot control
    /// and IE registers.
    open spec fn readable(&self, addr: usize) -> bool {
        ||| addr <= 7
        ||| addr == 0x0f
        ||| (0x10 <= addr < 0x26 && self.audio_controller.readable((addr - 0x10) as usize))
        ||| (0x40 <= addr <= 0x4b)
        ||| addr == 0x50
        ||| addr == 0xff
    }

    /// As `readable`, but the serial registers, 0xFF03 and TIMA, TMA and
    /// TAC take no writes.
    open spec fn writable(&self, addr: usize) -> bool {
        ||| addr == 0
        ||| addr == 4
        ||| addr == 0x0f
        ||| (0x10 <= addr <= 0x3f && self.audio_controller.writable((addr - 0x10) as usize))
        ||| (0x40 <= addr <= 0x4b)
        ||| addr == 0x50
        ||| addr == 0xff
    }

    fn memory_map(&mut self, addr: usize) -> (r: u8)
        ensures
            r == old(self).value(addr),
            *final(self) == if addr == 0 {
                MappedIO {
                    joypad: JoypadMIO { joypad_state: r, buttons: Joypad { joypad_state: r, ..old(self).joypad.buttons } },
                    ..*old(self)
                }
            } else {
                *old(self)
            },
    {
        if addr == 0x00 {
            self.joypad.read()
        } else if addr <= 0x03 {
            0  //Serial
        } else if addr <= 0x07 {
            self.timer.memory_map(addr - 0x0004)
        } else if addr == 0x0f {
            0xE0 | self.iflag
        } else if addr < 0x26 {
            self.audio_controller.memory_map(addr - 0x0010)
        } else if addr <= 0x4b {
            self.video_controller.memory_map(addr - 0x0040)
        } else if addr == 0x50 {
            self.boot_control
        } else {
            self.ie
        }
    }

    fn memory_write(&mut self, addr: usize, val: u8)
        ensures
            *final(self) == if addr == 0 {
                MappedIO { joypad: JoypadMIO { joypad_state: val | 0xF0, ..old(self).joypad }, ..*old(self) }
            } else if addr == 4 {
                MappedIO { timer: Timer { divider: Divider { internal_divider: 0 }, ..old(self).timer }, ..*old(self) }
            } else if addr == 0x0f {
                MappedIO { iflag: 0xE0 | val, ..*old(self) }
            } else if addr <= 0x3f {
                MappedIO { audio_controller: old(self).audio_controller.written(addr - 0x10, val), ..*old(self) }
            } else if addr <= 0x4b {
                MappedIO { video_controller: old(self).video_controller.written(addr - 0x40, val), ..*old(self) }
            } else if addr == 0x50 {
                MappedIO { boot_control: val, ..*old(self) }
            } else {
                MappedIO { ie: val, ..*old(self) }
            },
    {
        //Begins at FF00
        if addr == 0x0000 {
            self.joypad.write(val)
        } else if addr <= 0x0007 {
            self.timer.memory_write(addr - 0x0004, val)
        } else if addr == 0x000f {
            self.iflag = 0xE0 | val
        } else if addr <= 0x003f {
            self.audio_controller.memory_write(addr - 0x0010, val)
        } else if addr <= 0x4b {
            self.video_controller.memory_write(addr - 0x0040, val)
        } else if addr == 0x50 {
            self.boot_control = val
        } else {
            self.ie = val
        }
    }
}

impl OnClock for MappedIO {
    /// The counter steps; on a tick TIMA counts up, and on overflow it is
    /// reloaded from TMA and the timer interrupt is requested (IF bit 2).
    fn on_clock(&mut self)
        ensures
            final(self).timer.divider.internal_divider == old(self).timer.divider.internal_divider.wrapping_add(1),
            final(self).timer.tima == if old(self).ticks() {
                if old(self).timer.tima == 255 {
                    old(self).timer.tma
                } else {
                    (old(self).timer.tima + 1) as u8
                }
            } else {
                old(self).timer.tima
            },
            final(self).iflag == if old(self).ticks() && old(self).timer.tima == 255 {
                old(self).iflag | 0x04
            } else {
                old(self).iflag
            },
            final(self).timer.tma == old(self).timer.tma,
            final(self).timer.tac == old(self).timer.tac,
            final(self).joypad == old(self).joypad,
            final(self).audio_controller == old(self).audio_controller,
            final(self).video_controller == old(self).video_controller,
            final(self).boot_control == old(self).boot_control,
            final(self).ie == old(self).ie,
    {
        //Timer control
        self.timer.divider.on_clock();
        let frequency: u16 = match self.timer.tac & 0x03 {
            0 => 8,  //Every 256 m cycles
            1 => 2,  //4 M cycles
            2 => 4,  //16 m cycles
            _ => 6,  //64 m cycles.
        };
        let tac = self.timer.tac;
        assert(tac & 0x03 == tac % 4) by (bit_vector);
        assert(1u16 << 8u16 == 256 && 1u16 << 2u16 == 4 && 1u16 << 4u16 == 16 && 1u16 << 6u16 == 64) by (bit_vector);
        //If timer is enabled. If we hit 0 on the internal divider.
        if (self.timer.tac & 0x04 > 0) && ((self.timer.divider.internal_divider % (1u16 << frequency)) == 0) {
            let overflow: bool = self.timer.tima == 255;
            self.timer.tima = self.timer.tima.wrapping_add(1);
            if overflow {
                self.timer.tima = self.timer.tma;
                self.iflag = self.iflag | 0x04;
            }
        }
    }
}

} // verus!
