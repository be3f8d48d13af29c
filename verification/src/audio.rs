//We have 4 sound channels:
//Square, sweep
//Square
//Wave
//Noise
use vstd::prelude::*;

use crate::memory::memory_wrapper::AsMemory;

verus! {

broadcast use vstd::array::group_array_axioms;

/// Channel 1 (0xFF10..): square wave with frequency sweep.
#[derive(Clone, Copy, PartialEq, Eq, Structural, Debug)]
pub struct SquareSweep {
    pub sweep: u8,
    pub sound_length: u8,
    pub envelope: u8,
    pub frequency: u8,
    pub control: u8,
    pub temp_sweep: u8,
    pub period: u8,
}

/// Channel 2 (0xFF16..): square wave.
#[derive(Clone, Copy, PartialEq, Eq, Structural, Debug)]
pub struct SquareWave {
    pub sound_length: u8,
    pub envelope: u8,
    pub frequency: u8,
    pub control: u8,
}

/// Channel 3 (0xFF1A..): wave output, with its sample memory.
#[derive(Clone, Copy, Debug)]
pub struct Wave {
    pub enable: u8,
    pub sound_length: u8,
    pub envelope: u8,
    pub frequency: u8,
    pub control: u8,
    pub wave_pattern_ram: [u8; 16],
}

/// Channel 4 (0xFF20..): noise.
#[derive(Clone, Copy, PartialEq, Eq, Structural, Debug)]
pub struct Noise {
    pub sound_length: u8,
    pub volume: u8,
    pub frequency: u8,
    pub control: u8,
}

/// The sound registers at 0xFF10..=0xFF3F.
pub struct AudioController {
    pub audio_channel1: SquareSweep,  //FF10
    pub audio_channel2: SquareWave,  //FF16
    pub audio_channel3: Wave,  //FF1A
    pub audio_channel4: Noise,  //FF20
    pub audio_volume: u8,  //FF24
    pub audio_panning: u8,  //FF25 //Controls panning
    pub audio_master_control: u8,  //FF26 //Audio master control
    pub wave_pattern: u8,  //FF3F
}

impl SquareSweep {
    pub fn new() -> (r: SquareSweep)
        ensures
            r == (SquareSweep { sweep: 0, sound_length: 0, envelope: 0, frequency: 0, control: 0, temp_sweep: 0, period: 0 }),
    {
        SquareSweep { sweep: 0, sound_length: 0, envelope: 0, frequency: 0, control: 0, temp_sweep: 0, period: 0 }
    }

    /// The channel reports itself as on.
    pub fn is_on(&mut self) -> (r: u8)
        ensures
            r == 1,
            *final(self) == *old(self),
    {
        true as u8
    }

    /// The channel is silenced: `audio_control >> 1` is 0 (the bit test
    /// `>> 7 % 2` shifts by `7 % 2`).
    pub open spec fn silenced(audio_control: u8) -> bool {
        audio_control >> 1u8 == 0
    }

    /// Runs the channel for one step of the master clock. When the master
    /// control silences it, its registers are cleared and the result is
    /// `true`: its sample queue must then be emptied. Otherwise nothing
    /// changes.
    pub fn process_audio(&mut self, audio_control: u8, panning: u8, volume: u8) -> (clear_queue: bool)
        ensures
            clear_queue == SquareSweep::silenced(audio_control),
            *final(self) == if clear_queue {
                SquareSweep { sweep: 0, sound_length: 0, envelope: 0, frequency: 0, control: 0, ..*old(self) }
            } else {
                *old(self)
            },
    {
        let mut clear = false;
        if audio_control >> (7u8 % 2) == 0 {
            clear = true;
            self.sweep = 0;
            self.sound_length = 0;
            self.envelope = 0;
            self.frequency = 0;
            self.control = 0;
        }
        let _left_pan = panning >> (4u8 % 2) == 1;
        let _right_pan = panning % 2 == 1;
        let _left_volume = volume >> (4u8 % 8 + 1);
        let _right_volume = volume % 8 + 1;
        let _pace = self.sweep >> (4u8 % 8);
        let _direction = self.sweep > 4 % 2;
        let _individual_step = self.sweep % 8;
        let _wave_duty = self.sound_length >> (6u8 % 4);
        let _initial_timer = self.sound_length % 1 >> 5u8;
        let _initial_volume = self.envelope >> 4u8;
        let _env_dir = self.envelope >> (3u8 % 2);
        let _sweep_pace = self.envelope % 8;
        let _period: u16 = (self.control % 8) as u16 + self.frequency as u16;
        let _length_enable = self.control >> (6u8 % 2) == 1;
        let _trigger = self.control >> 7u8 == 1;
        clear
    }

    /// The register at offset `addr` (0..=4) as the CPU reads it: the low
    /// six bits of the length register and the frequency register read as
    /// 0, and control shows bits 6 and 0..=2.
    pub open spec fn register(&self, addr: int) -> u8 {
        if addr == 0 {
            self.sweep
        } else if addr == 1 {
            self.sound_length & 0xC0
        } else if addr == 2 {
            self.envelope
        } else if addr == 3 {
            0
        } else {
            self.control & 0x47
        }
    }

    /// The channel after a write of `val` at offset `addr` (0..=4): the
    /// sweep register is written to `temp_sweep`, control keeps bits 7, 6
    /// and 0..=2.
    pub open spec fn written(self, addr: int, val: u8) -> SquareSweep {
        if addr == 0 {
            SquareSweep { temp_sweep: val, ..self }
        } else if addr == 1 {
            SquareSweep { sound_length: val, ..self }
        } else if addr == 2 {
            SquareSweep { envelope: val, ..self }
        } else if addr == 3 {
            SquareSweep { frequency: val, ..self }
        } else {
            SquareSweep { control: val & 0xc7, ..self }
        }
    }
}

impl AsMemory for SquareSweep {
    open spec fn readable(&self, addr: usize) -> bool {
        addr <= 4
    }

    open spec fn writable(&self, addr: usize) -> bool {
        addr <= 4
    }

    fn memory_map(&mut self, addr: usize) -> (r: u8)
        ensures
            r == old(self).register(addr as int),
            *final(self) == *old(self),
    {
        match addr {
            0x0000 => self.sweep,
            0x0001 => self.sound_length & 0xC0,  //Bits 5-0 are write only
            0x0002 => self.envelope,
            0x0003 => 0,
            _ => self.control & 0x47,
        }
    }

    fn memory_write(&mut self, addr: usize, val: u8)
        ensures
            *final(self) == old(self).written(addr as int, val),
    {
        match addr {
            0x0000 => self.temp_sweep = val,
            0x0001 => self.sound_length = val,
            0x0002 => self.envelope = val,
            0x0003 => self.frequency = val,
            _ => self.control = val & 0xc7,
        }
    }
}

impl SquareWave {
    pub fn new() -> (r: SquareWave)
        ensures
            r == (SquareWave { sound_length: 0, envelope: 0, frequency: 0, control: 0 }),
    {
        SquareWave { sound_length: 0, envelope: 0, frequency: 0, control: 0 }
    }

    /// The channel reports itself as on.
    pub fn is_on(&mut self) -> (r: u8)
        ensures
            r == 1,
            *final(self) == *old(self),
    {
        true as u8
    }

    /// The register at offset `addr` (0..=3).
    pub open spec fn register(&self, addr: int) -> u8 {
        if addr == 0 {
            self.sound_length
        } else if addr == 1 {
            self.envelope
        } else if addr == 2 {
            self.frequency
        } else {
            self.control
        }
    }

    /// The channel after a write of `val` at offset `addr` (0..=3).
    pub open spec fn written(self, addr: int, val: u8) -> SquareWave {
        if addr == 0 {
            SquareWave { sound_length: val, ..self }
        } else if addr == 1 {
            SquareWave { envelope: val, ..self }
        } else if addr == 2 {
            SquareWave { frequency: val, ..self }
        } else {
            SquareWave { control: val, ..self }
        }
    }
}

impl AsMemory for SquareWave {
    open spec fn readable(&self, addr: usize) -> bool {
        addr <= 3
    }

    open spec fn writable(&self, addr: usize) -> bool {
        addr <= 3
    }

    fn memory_map(&mut self, addr: usize) -> (r: u8)
        ensures
            r == old(self).register(addr as int),
            *final(self) == *old(self),
    {
        match addr {
            0x0000 => self.sound_length,
            0x0001 => self.envelope,
            0x0002 => self.frequency,
            _ => self.control,
        }
    }

    fn memory_write(&mut self, addr: usize, val: u8)
        ensures
            *final(self) == old(self).written(addr as int, val),
    {
        match addr {
            0x0000 => self.sound_length = val,
            0x0001 => self.envelope = val,
            0x0002 => self.frequency = val,
            _ => self.control = val,
        }
    }
}

impl Wave {
    pub fn new() -> (r: Wave)
        ensures
            r.enable == 0 && r.sound_length == 0 && r.envelope == 0 && r.frequency == 0 && r.control == 0,
            forall|i: int| 0 <= i < 16 ==> r.wave_pattern_ram[i] == 0,
    {
        Wave { enable: 0, sound_length: 0, envelope: 0, frequency: 0, control: 0, wave_pattern_ram: [0; 16] }
    }

    /// The channel reports itself as on.
    pub fn is_on(&mut self) -> (r: u8)
        ensures
            r == 1,
            *final(self) == *old(self),
    {
        true as u8
    }

    /// The register at offset `addr` (0..=4).
    pub open spec fn register(&self, addr: int) -> u8 {
        if addr == 0 {
            self.enable
        } else if addr == 1 {
            self.sound_length
        } else if addr == 2 {
            self.envelope
        } else if addr == 3 {
            self.frequency
        } else {
            self.control
        }
    }

    /// The channel after a write of `val` at offset `addr` (0..=4).
    pub open spec fn written(self, addr: int, val: u8) -> Wave {
        if addr == 0 {
            Wave { enable: val, ..self }
        } else if addr == 1 {
            Wave { sound_length: val, ..self }
        } else if addr == 2 {
            Wave { envelope: val, ..self }
        } else if addr == 3 {
            Wave { frequency: val, ..self }
        } else {
            Wave { control: val, ..self }
        }
    }
}

impl AsMemory for Wave {
    open spec fn readable(&self, addr: usize) -> bool {
        addr <= 4
    }

    open spec fn writable(&self, addr: usize) -> bool {
        addr <= 4
    }

    fn memory_map(&mut self, addr: usize) -> (r: u8)
        ensures
            r == old(self).register(addr as int),
            *final(self) == *old(self),
    {
        match addr {
            0x0000 => self.enable,
            0x0001 => self.sound_length,
            0x0002 => self.envelope,
            0x0003 => self.frequency,
            _ => self.control,
        }
    }

    fn memory_write(&mut self, addr: usize, val: u8)
        ensures
            *final(self) == old(self).written(addr as int, val),
    {
        match addr {
            0x0000 => self.enable = val,
            0x0001 => self.sound_length = val,
            0x0002 => self.envelope = val,
            0x0003 => self.frequency = val,
            _ => self.control = val,
        }
    }
}

impl Noise {
    pub fn new() -> (r: Noise)
        ensures
            r == (Noise { sound_length: 0, volume: 0, frequency: 0, control: 0 }),
    {
        Noise { sound_length: 0, volume: 0, frequency: 0, control: 0 }
    }

    /// The channel reports itself as on.
    pub fn is_on(&mut self) -> (r: u8)
        ensures
            r == 1,
            *final(self) == *old(self),
    {
        true as u8
    }

    /// The register at offset `addr` (0..=3).
    pub open spec fn register(&self, addr: int) -> u8 {
        if addr == 0 {
            self.sound_length
        } else if addr == 1 {
            self.volume
        } else if addr == 2 {
            self.frequency
        } else {
            self.control
        }
    }

    /// The channel after a write of `val` at offset `addr` (0..=3).
    pub open spec fn written(self, addr: int, val: u8) -> Noise {
        if addr == 0 {
            Noise { sound_length: val, ..self }
        } else if addr == 1 {
            Noise { volume: val, ..self }
        } else if addr == 2 {
            Noise { frequency: val, ..self }
        } else {
            Noise { control: val, ..self }
        }
    }
}

impl AsMemory for Noise {
    open spec fn readable(&self, addr: usize) -> bool {
        addr <= 3
    }

    open spec fn writable(&self, addr: usize) -> bool {
        addr <= 3
    }

    fn memory_map(&mut self, addr: usize) -> (r: u8)
        ensures
            r == old(self).register(addr as int),
            *final(self) == *old(self),
    {
        match addr {
            0x0000 => self.sound_length,
            0x0001 => self.volume,
            0x0002 => self.frequency,
            _ => self.control,
        }
    }

    fn memory_write(&mut self, addr: usize, val: u8)
        ensures
            *final(self) == old(self).written(addr as int, val),
    {
        match addr {
            0x0000 => self.sound_length = val,
            0x0001 => self.volume = val,
            0x0002 => self.frequency = val,
            _ => self.control = val,
        }
    }
}

} // verus!

verus! {

impl AudioController {
    /// The sound registers, all cleared.
    pub fn new() -> (r: AudioController)
        ensures
            r.audio_channel1 == SquareSweep::new_spec(),
            r.audio_channel2 == (SquareWave { sound_length: 0, envelope: 0, frequency: 0, control: 0 }),
            r.audio_channel3.enable == 0 && r.audio_channel3.sound_length == 0 && r.audio_channel3.envelope == 0,
            r.audio_channel3.frequency == 0 && r.audio_channel3.control == 0,
            forall|i: int| 0 <= i < 16 ==> r.audio_channel3.wave_pattern_ram[i] == 0,
            r.audio_channel4 == (Noise { sound_length: 0, volume: 0, frequency: 0, control: 0 }),
            r.audio_volume == 0 && r.audio_panning == 0 && r.audio_master_control == 0 && r.wave_pattern == 0,
    {
        AudioController {
            audio_channel1: SquareSweep::new(),
            audio_channel2: SquareWave::new(),
            audio_channel3: Wave::new(),
            audio_channel4: Noise::new(),
            audio_volume: 0,
            audio_panning: 0,
            audio_master_control: 0,
            wave_pattern: 0,
        }
    }

    /// Does nothing.
    pub fn initialize_audio(&mut self)
        ensures
            *final(self) == *old(self),
    {
    }

    /// Runs the sound for one step of the master clock: channel 1 is
    /// processed with the master control, panning and volume registers.
    /// Returns whether channel 1's sample queue must be emptied.
    pub fn handle_audio(&mut self, current_timer: u16) -> (clear_queue: bool)
        ensures
            clear_queue == SquareSweep::silenced(old(self).audio_master_control),
            *final(self) == (AudioController {
                audio_channel1: if clear_queue {
                    SquareSweep { sweep: 0, sound_length: 0, envelope: 0, frequency: 0, control: 0, ..old(self).audio_channel1 }
                } else {
                    old(self).audio_channel1
                },
                ..*old(self)
            }),
    {
        let _ = current_timer;
        self.audio_channel1.process_audio(self.audio_master_control, self.audio_panning, self.audio_volume)
    }

    /// The master control register as read: `master & (0x80 + 8 + 4 + 2 + 1)`
    /// (each channel reporting itself on).
    pub fn audio_state(&mut self) -> (r: u8)
        ensures
            r == old(self).audio_master_control & 0x8F,
            *final(self) == *old(self),
    {
        let on4 = self.audio_channel4.is_on();
        let on3 = self.audio_channel3.is_on();
        let on2 = self.audio_channel2.is_on();
        let on1 = self.audio_channel1.is_on();
        self.audio_master_control & (0x80 + 8 * on4 + 4 * on3 + 2 * on2 + on1)
    }

    /// The register at offset `addr` from 0xFF10, as the CPU reads it.
    pub open spec fn register(&self, addr: int) -> u8 {
        if addr <= 5 {
            self.audio_channel1.register(addr)
        } else if addr <= 9 {
            self.audio_channel2.register(addr - 6)
        } else if addr <= 0xF {
            self.audio_channel3.register(addr - 0xA)
        } else if addr <= 0x13 {
            self.audio_channel4.register(addr - 0x10)
        } else if addr == 0x14 {
            self.audio_volume
        } else if addr == 0x15 {
            self.audio_panning
        } else if addr == 0x16 {
            self.audio_master_control & 0x8F
        } else {
            self.wave_pattern
        }
    }

    /// The registers after a write of `val` at offset `addr` from 0xFF10;
    /// offsets 0x20..=0x2F are the wave sample memory.
    pub open spec fn written(self, addr: int, val: u8) -> AudioController {
        if addr <= 5 {
            AudioController { audio_channel1: self.audio_channel1.written(addr, val), ..self }
        } else if addr <= 9 {
            AudioController { audio_channel2: self.audio_channel2.written(addr - 6, val), ..self }
        } else if addr <= 0xF {
            AudioController { audio_channel3: self.audio_channel3.written(addr - 0xA, val), ..self }
        } else if addr <= 0x13 {
            AudioController { audio_channel4: self.audio_channel4.written(addr - 0x10, val), ..self }
        } else if addr == 0x14 {
            AudioController { audio_volume: val, ..self }
        } else if addr == 0x15 {
            AudioController { audio_panning: val, ..self }
        } else if addr == 0x16 {
            AudioController { audio_master_control: val & 0x80, ..self }
        } else {
            AudioController {
                audio_channel3: Wave {
                    wave_pattern_ram: vstd::array::spec_array_update(self.audio_channel3.wave_pattern_ram, addr - 0x20, val),
                    ..self.audio_channel3
                },
                ..self
            }
        }
    }
}

impl SquareSweep {
    /// The channel as `new` makes it.
    pub open spec fn new_spec() -> SquareSweep {
        SquareSweep { sweep: 0, sound_length: 0, envelope: 0, frequency: 0, control: 0, temp_sweep: 0, period: 0 }
    }
}

impl AsMemory for AudioController {
    /// Channel 1 has five registers, channel 3 five, and 0xFF27..=0xFF2F
    /// are not mapped.
    open spec fn readable(&self, addr: usize) -> bool {
        addr <= 4 || (6 <= addr <= 0xE) || (0x10 <= addr <= 0x16) || addr == 0x20
    }

    open spec fn writable(&self, addr: usize) -> bool {
        addr <= 4 || (6 <= addr <= 0xE) || (0x10 <= addr <= 0x16) || (0x20 <= addr <= 0x2F)
    }

    fn memory_map(&mut self, addr: usize) -> (r: u8)
        ensures
            r == old(self).register(addr as int),
            *final(self) == *old(self),
    {
        if addr <= 0x0005 {
            self.audio_channel1.memory_map(addr)
        } else if addr <= 0x0009 {
            self.audio_channel2.memory_map(addr - 0x006)
        } else if addr <= 0x000F {
            self.audio_channel3.memory_map(addr - 0x00A)
        } else if addr <= 0x0013 {
            self.audio_channel4.memory_map(addr - 0x010)
        } else if addr == 0x0014 {
            self.audio_volume
        } else if addr == 0x0015 {
            self.audio_panning
        } else if addr == 0x0016 {
            self.audio_state()
        } else {
            self.wave_pattern
        }
    }

    fn memory_write(&mut self, addr: usize, val: u8)
        ensures
            *final(self) == old(self).written(addr as int, val),
    {
        if self.audio_master_control & 0x80 == 0 {
            if addr == 0x0016 {
                self.audio_master_control = val & 0x80;
            }
        }
        if addr <= 0x0005 {
            self.audio_channel1.memory_write(addr, val)
        } else if addr <= 0x0009 {
            self.audio_channel2.memory_write(addr - 0x006, val)
        } else if addr <= 0x000F {
            self.audio_channel3.memory_write(addr - 0x00A, val)
        } else if addr <= 0x0013 {
            self.audio_channel4.memory_write(addr - 0x010, val)
        } else if addr == 0x0014 {
            self.audio_volume = val
        } else if addr == 0x0015 {
            self.audio_panning = val
        } else if addr == 0x0016 {
            self.audio_master_control = val & 0x80
        } else {
            self.audio_channel3.wave_pattern_ram[addr - 0x0020] = val;
            proof {
                assert(self.audio_channel3.wave_pattern_ram =~= vstd::array::spec_array_update(old(self).audio_channel3.wave_pattern_ram, addr - 0x20, val));
            }
        }
    }
}

} // verus!
