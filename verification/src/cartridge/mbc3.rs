use vstd::prelude::*;

use crate::cartridge::mbc::{ram_banks, ram_size, ram_size_known, rom_banks, rom_size, rom_size_known, zeroed_banks, Bank, Mbc};

verus! {

broadcast use vstd::array::group_array_axioms;

/// The real-time clock registers of an MBC3 cartridge.
#[derive(Clone, Copy, PartialEq, Eq, Structural, Debug)]
pub struct RTC {
    pub seconds: u8,
    pub minutes: u8,
    pub hours: u8,
    pub days_l: u8,
    pub days_h: u8,
}

impl RTC {
    /// The clock after one second: unless halted (bit 6 of the high day
    /// register), seconds count to 59 and then carry into minutes; once
    /// minutes pass 59 each carry adds an hour, and once hours pass 23 each
    /// carry adds a day; the low day counter overflows into bit 0 of the
    /// high day register, or into its carry bit 7 when bit 0 is already set.
    pub open spec fn ticked(self) -> RTC {
        if self.days_h & 0x40 != 0 {
            self
        } else {
            let s = self.seconds.wrapping_add(1);
            if s <= 59 {
                RTC { seconds: s, ..self }
            } else {
                let m = self.minutes.wrapping_add(1);
                if m <= 59 {
                    RTC { seconds: 0, minutes: m, ..self }
                } else {
                    let h = self.hours.wrapping_add(1);
                    if h <= 23 {
                        RTC { seconds: 0, minutes: m, hours: h, ..self }
                    } else if self.days_l < 255 {
                        RTC { seconds: 0, minutes: m, hours: h, days_l: (self.days_l + 1) as u8, ..self }
                    } else {
                        RTC {
                            seconds: 0,
                            minutes: m,
                            hours: h,
                            days_l: 0,
                            days_h: if self.days_h % 2 == 0 { self.days_h | 1 } else { self.days_h | 0x80 },
                        }
                    }
                }
            }
        }
    }

    pub fn new() -> (r: RTC)
        ensures
            r == (RTC { seconds: 0, minutes: 0, hours: 0, days_l: 0, days_h: 0 }),
    {
        RTC { seconds: 0, minutes: 0, hours: 0, days_l: 0, days_h: 0 }
    }

    /// Advances the clock by one second (see `ticked`).
    pub fn on_sec(&mut self)
        ensures
            *final(self) == old(self).ticked(),
    {
        if self.days_h & 0x40 == 0 {
            self.seconds = self.seconds.wrapping_add(1);
            if self.seconds > 59 {
                self.seconds = 0;
                self.minutes = self.minutes.wrapping_add(1);
                if self.minutes > 59 {
                    self.hours = self.hours.wrapping_add(1);
                    if self.hours > 23 {
                        let result = self.days_l.checked_add(1);
                        match result {
                            Some(x) => self.days_l = x,
                            None => {
                                self.days_l = 0;
                                if self.days_h % 2 == 0 {
                                    self.days_h = self.days_h | 1
                                } else {
                                    self.days_h = self.days_h | 0x80
                                }
                            },
                        };
                    }
                }
            }
        }
    }

    /// The clock register that RTC register number `mode` (9..=0xC) names.
    pub open spec fn register(&self, mode: u8) -> u8 {
        if mode == 9 {
            self.minutes
        } else if mode == 0xa {
            self.hours
        } else if mode == 0xb {
            self.days_l
        } else {
            self.days_h
        }
    }

    /// The clock after a write of `val` to RTC register number `mode`
    /// (9..=0xC): minutes modulo 60, hours modulo 24.
    pub open spec fn written(self, mode: u8, val: u8) -> RTC {
        if mode == 9 {
            RTC { minutes: val % 60, ..self }
        } else if mode == 0xa {
            RTC { hours: val % 24, ..self }
        } else if mode == 0xb {
            RTC { days_l: val, ..self }
        } else {
            RTC { days_h: val, ..self }
        }
    }
}

/// An MBC3 cartridge: switchable ROM and RAM banks and a real-time clock,
/// whose registers are latched into `tmp_clock` for reading.
pub struct Mbc3 {
    pub rom_bank_num: usize,
    pub ram_bank_num: usize,
    pub rom: Vec<Bank>,
    pub ram: Vec<Bank>,
    pub ram_enable: bool,
    pub clock_mode: u8,
    pub tmp_clock: RTC,
    pub clock: RTC,
    pub latched: u8,
}

impl Mbc3 {
    /// The byte that `rom_read(addr)` returns.
    pub open spec fn rom_value(&self, addr: usize) -> u8 {
        self.rom@[0][addr as int]
    }

    /// The byte that `ram_read(addr)` returns.
    pub open spec fn ram_value(&self, addr: usize) -> u8 {
        if !self.ram_enable {
                0xFF
            } else if self.clock_mode > 8 {
                self.tmp_clock.register(self.clock_mode)
            } else {
                self.ram@[self.ram_bank_num as int][addr as int]
            }
    }

    /// `new` is this controller after `rom_write(addr, val)`.
    pub open spec fn rom_write_rel(&self, new: &Mbc3, addr: usize, val: u8) -> bool {
        &&& (new.rom == self.rom)
        &&& (new.ram == self.ram)
        &&& (new.clock == self.clock)
        &&& (new.ram_enable == if addr <= 0x1fff { val == 0xA } else { self.ram_enable })
        &&& (new.rom_bank_num == if 0x2000 <= addr <= 0x3fff {
                ({
                    let x = ((val & 0x1F) as usize).wrapping_add(self.ram_bank_num << 5usize);
                    (if 1 >= x { 1 } else { x }) % self.ram.len()
                }) as usize
            } else {
                self.rom_bank_num
            })
        &&& (new.ram_bank_num == if 0x4000 <= addr <= 0x5fff && val <= 3 { val as usize } else { self.ram_bank_num })
        &&& (new.clock_mode == if 0x4000 <= addr <= 0x5fff && val <= 3 {
                0
            } else if 0x4000 <= addr <= 0x5fff && 0x08 <= val <= 0x0C {
                val
            } else {
                self.clock_mode
            })
        &&& (new.latched == if 0x6000 <= addr && val == 0 && self.latched == 0 {
                1
            } else if 0x6000 <= addr && val == 1 && self.latched == 1 {
                0
            } else {
                self.latched
            })
        &&& (new.tmp_clock == if 0x6000 <= addr && val == 1 && self.latched == 1 { self.clock } else { self.tmp_clock })
    }

    /// `new` is this controller after `ram_write(addr, val)`.
    pub open spec fn ram_write_rel(&self, new: &Mbc3, addr: usize, val: u8) -> bool {
        &&& (new.ram@ == if self.ram_enable {
                self.ram@.update(
                    self.ram_bank_num as int,
                    vstd::array::spec_array_update(self.ram@[self.ram_bank_num as int], addr as int, val),
                )
            } else {
                self.ram@
            })
        &&& (new.clock == if self.ram_enable && self.clock_mode > 8 {
                self.clock.written(self.clock_mode, val)
            } else {
                self.clock
            })
        &&& (new.rom == self.rom)
        &&& (new.rom_bank_num == self.rom_bank_num)
        &&& (new.ram_bank_num == self.ram_bank_num)
        &&& (new.ram_enable == self.ram_enable)
        &&& (new.clock_mode == self.clock_mode)
        &&& (new.tmp_clock == self.tmp_clock)
        &&& (new.latched == self.latched)
    }
}

impl Mbc for Mbc3 {
    /// The header names its ROM and RAM sizes.
    open spec fn accepts(cart: Seq<u8>) -> bool {
        cart.len() > 0x149 && rom_size_known(cart[0x148]) && ram_size_known(cart[0x149])
    }

    /// Bank 0 can be read; 0x4000..=0x7FFF indexes a bank with the address
    /// itself, past the end of the bank.
    open spec fn rom_readable(&self, addr: usize) -> bool {
        addr <= 0x3FFF && self.rom.len() > 0
    }

    open spec fn rom_writable(&self, addr: usize) -> bool {
        addr <= 0x7FFF && ((0x2000 <= addr <= 0x3FFF) ==> self.ram.len() > 0)
    }

    open spec fn ram_readable(&self, addr: usize) -> bool {
        self.ram_enable ==> (
            if self.clock_mode > 8 {
                self.clock_mode <= 0xC
            } else {
                self.ram_bank_num < self.ram.len() && addr < 16384
            }
        )
    }

    open spec fn ram_writable(&self, addr: usize) -> bool {
        self.ram_enable ==> (self.clock_mode <= 0xC && self.ram_bank_num < self.ram.len() && addr < 16384)
    }

    /// Zeroed ROM and RAM banks of the header's sizes, bank 0 selected, RAM
    /// disabled, clocks at zero.
    fn new(cart: Vec<u8>) -> (r: Self)
        ensures
            r.rom.len() == rom_banks(cart@[0x148]),
            r.ram.len() == ram_banks(cart@[0x149]),
            forall|b: int, a: int| 0 <= b < r.rom.len() && 0 <= a < 16384 ==> #[trigger] r.rom@[b][a] == 0,
            forall|b: int, a: int| 0 <= b < r.ram.len() && 0 <= a < 16384 ==> #[trigger] r.ram@[b][a] == 0,
            r.rom_bank_num == 0 && r.ram_bank_num == 0 && !r.ram_enable && r.clock_mode == 0 && r.latched == 0,
            r.clock == (RTC { seconds: 0, minutes: 0, hours: 0, days_l: 0, days_h: 0 }),
            r.tmp_clock == r.clock,
    {
        let rom: Vec<Bank> = zeroed_banks(rom_size(cart[0x0148]));
        let ram: Vec<Bank> = zeroed_banks(ram_size(cart[0x0149]));
        let clock: RTC = RTC::new();
        Self {
            rom_bank_num: 0,
            ram_bank_num: 0,
            rom: rom,
            ram: ram,
            ram_enable: false,
            clock_mode: 0,
            tmp_clock: RTC::new(),
            clock: clock,
            latched: 0,
        }
    }

    fn rom_read(&mut self, addr: usize) -> (r: u8)
        ensures
            r == old(self).rom_value(addr),
            *final(self) == *old(self),
    {
        if addr <= 0x3FFF {
            self.rom[0][addr]
        } else {
            self.rom[self.rom_bank_num][addr]
        }
    }

    /// 0x0000..=0x1FFF: RAM enable (0xA enables); 0x2000..=0x3FFF: ROM bank
    /// `max(1, (val & 0x1F) + (ram bank << 5)) % RAM banks`; 0x4000..=0x5FFF:
    /// RAM bank 0..=3 (clock off) or clock register 8..=0xC; 0x6000..=0x7FFF:
    /// writing 0 then 1 latches the clock.
    fn rom_write(&mut self, addr: usize, val: u8)
        ensures
            old(self).rom_write_rel(final(self), addr, val),
    {
        if addr <= 0x1fff {
            self.ram_enable = val == 0xA
        } else if addr <= 0x3fff {
            let x: usize = ((val & 0x1F) as usize).wrapping_add(self.ram_bank_num << 5usize);
            let m: usize = if 1 >= x { 1 } else { x };
            self.rom_bank_num = m % self.ram.len()
        } else if addr <= 0x5fff {
            if val <= 3 {
                self.clock_mode = 0;
                self.ram_bank_num = val as usize;
            }
            if 0x08 <= val && val <= 0x0C {
                self.clock_mode = val;
            }
        } else {
            if val == 0 && self.latched == 0 {
                self.latched = 1;
            }
            if val == 1 && self.latched == 1 {
                self.latched = 0;
                self.tmp_clock = self.clock;
            }
        }
    }

    /// 0xFF while RAM is disabled; the latched clock register in clock
    /// modes 9..=0xC; otherwise the byte of the selected RAM bank.
    fn ram_read(&mut self, addr: usize) -> (r: u8)
        ensures
            r == old(self).ram_value(addr),
            *final(self) == *old(self),
    {
        if !self.ram_enable {
            0xFF
        } else {
            if self.clock_mode > 8 {
                return match self.clock_mode {
                    9 => self.tmp_clock.minutes,
                    0xa => self.tmp_clock.hours,
                    0xb => self.tmp_clock.days_l,
                    _ => self.tmp_clock.days_h,
                };
            }
            self.ram[self.ram_bank_num][addr]
        }
    }

    /// When RAM is enabled: in clock modes 9..=0xC the clock register is
    /// written too; the byte of the selected RAM bank is always written.
    fn ram_write(&mut self, addr: usize, val: u8)
        ensures
            old(self).ram_write_rel(final(self), addr, val),
    {
        if self.ram_enable {
            if self.clock_mode > 8 {
                match self.clock_mode {
                    9 => self.clock.minutes = val % 60,
                    0xa => self.clock.hours = val % 24,
                    0xb => self.clock.days_l = val,
                    _ => self.clock.days_h = val,
                }
            }
            let mut bank = self.ram[self.ram_bank_num];
            bank[addr] = val;
            self.ram.set(self.ram_bank_num, bank);
        }
    }
}

} // verus!
