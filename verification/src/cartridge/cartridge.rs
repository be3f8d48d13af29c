use vstd::prelude::*;

use crate::cartridge::mbc::Mbc;
use crate::cartridge::mbc0::Mbc0;
use crate::cartridge::mbc1::Mbc1;
use crate::cartridge::mbc2::Mbc2;
use crate::cartridge::mbc3::Mbc3;
use crate::cartridge::mbc5::Mbc5;
use crate::cartridge::mbc7::Mbc7;
use crate::cartridge::mmm01::Mmm01;
use crate::memory::memory_wrapper::AsMemory;

verus! {

broadcast use vstd::array::group_array_axioms;

/// A cartridge, by the kind of its bank controller.
pub enum Cartridge {
    Mbc0(Mbc0),
    Mbc1(Mbc1),
    Mbc2(Mbc2),
    Mbc3(Mbc3),
    Mbc5(Mbc5),
    Mbc7(Mbc7),
    Mmm01(Mmm01),
}

/// The controller kinds that header byte 0x147 names and `new` builds.
pub open spec fn cartridge_type_kind(t: u8) -> int {
    if t == 0x00 {
        0
    } else if 0x01 <= t <= 0x03 {
        1
    } else if t == 0x05 || t == 0x06 {
        2
    } else if 0x0f <= t <= 0x13 {
        3
    } else if 0x19 <= t <= 0x1e {
        5
    } else {
        -1
    }
}

impl Cartridge {
    /// `new` accepts these contents: the cartridge type (header byte 0x147)
    /// is one whose controller is implemented (none, MBC1, MBC2, MBC3,
    /// MBC5) and that controller accepts the contents.
    pub open spec fn accepts(cart: Seq<u8>) -> bool {
        cart.len() > 0x147 && {
            let k = cartridge_type_kind(cart[0x147]);
            if k == 0 {
                Mbc0::accepts(cart)
            } else if k == 1 {
                Mbc1::accepts(cart)
            } else if k == 2 {
                Mbc2::accepts(cart)
            } else if k == 3 {
                Mbc3::accepts(cart)
            } else if k == 5 {
                Mbc5::accepts(cart)
            } else {
                false
            }
        }
    }

    /// Whether `new` accepts `cart` (see `accepts`).
    pub fn supported(cart: &Vec<u8>) -> (r: bool)
        ensures
            r == Cartridge::accepts(cart@),
    {
        if cart.len() <= 0x147 {
            return false;
        }
        let t = cart[0x147];
        let len = cart.len();
        let rom_known = len > 0x148 && (cart[0x148] <= 8 || cart[0x148] == 0x52 || cart[0x148] == 0x53 || cart[0x148] == 0x54);
        let ram_known = len > 0x149 && (cart[0x149] == 0 || cart[0x149] == 2 || cart[0x149] == 3 || cart[0x149] == 4 || cart[0x149] == 5);
        if t == 0x00 {
            len >= 0x8000
        } else if 0x01 <= t && t <= 0x03 {
            rom_known && ram_known && len % 16384 == 0 && len / 16384 <= crate::cartridge::mbc::rom_size(cart[0x148])
        } else if t == 0x05 || t == 0x06 {
            rom_known
        } else if 0x0f <= t && t <= 0x13 {
            rom_known && ram_known
        } else if 0x19 <= t && t <= 0x1e {
            rom_known && (t == 0 || t == 2 || t == 3 || t == 4 || t == 5)
        } else {
            false
        }
    }

    /// Builds the controller that header byte 0x147 names (see `accepts`).
    pub fn new(cart_contents: Vec<u8>) -> (r: Cartridge)
        requires
            Cartridge::accepts(cart_contents@),
        ensures
            cartridge_type_kind(cart_contents@[0x147]) == 0 ==> r is Mbc0,
            cartridge_type_kind(cart_contents@[0x147]) == 1 ==> r is Mbc1,
            cartridge_type_kind(cart_contents@[0x147]) == 2 ==> r is Mbc2,
            cartridge_type_kind(cart_contents@[0x147]) == 3 ==> r is Mbc3,
            cartridge_type_kind(cart_contents@[0x147]) == 5 ==> r is Mbc5,
            r matches Cartridge::Mbc0(m) ==> (forall|i: int| 0 <= i < 0x8000 ==> #[trigger] m.rom[i] == cart_contents@[i])
                && forall|i: int| 0 <= i < 0x2000 ==> #[trigger] m.ram[i] == 0,
            r matches Cartridge::Mbc1(m) ==> m.rom.len() == crate::cartridge::mbc::rom_banks(cart_contents@[0x148])
                && m.ram.len() == crate::cartridge::mbc::ram_banks(cart_contents@[0x149])
                && m.rom_bank_num == 0 && m.ram_bank_num == 0 && !m.ram_enable && !m.bank_mode
                && (forall|b: int, a: int| 0 <= b < m.ram.len() && 0 <= a < 16384 ==> #[trigger] m.ram@[b][a] == 0)
                && forall|b: int, a: int| 0 <= b < m.rom.len() && 0 <= a < 16384 ==> #[trigger] m.rom@[b][a] == if b * 16384 + a < cart_contents@.len() { cart_contents@[b * 16384 + a] } else { 0 },
            r matches Cartridge::Mbc2(m) ==> m.rom.len() == crate::cartridge::mbc::rom_banks(cart_contents@[0x148])
                && m.rom_bank_num == 1 && m.ram_bank_num == 0 && !m.ram_enable && !m.bank_mode
                && (forall|b: int, a: int| 0 <= b < m.rom.len() && 0 <= a < 16384 ==> #[trigger] m.rom@[b][a] == 0)
                && forall|i: int| 0 <= i < 512 ==> #[trigger] m.ram[i] == 0,
            r matches Cartridge::Mbc3(m) ==> m.rom.len() == crate::cartridge::mbc::rom_banks(cart_contents@[0x148])
                && m.ram.len() == crate::cartridge::mbc::ram_banks(cart_contents@[0x149])
                && m.rom_bank_num == 0 && m.ram_bank_num == 0 && !m.ram_enable && m.clock_mode == 0 && m.latched == 0
                && m.clock == (crate::cartridge::mbc3::RTC { seconds: 0, minutes: 0, hours: 0, days_l: 0, days_h: 0 })
                && m.tmp_clock == m.clock
                && (forall|b: int, a: int| 0 <= b < m.rom.len() && 0 <= a < 16384 ==> #[trigger] m.rom@[b][a] == 0)
                && forall|b: int, a: int| 0 <= b < m.ram.len() && 0 <= a < 16384 ==> #[trigger] m.ram@[b][a] == 0,
            r matches Cartridge::Mbc5(m) ==> m.ram.len() == crate::cartridge::mbc::ram_banks(cart_contents@[0x147])
                && m.rom.len() == crate::cartridge::mbc::rom_banks(cart_contents@[0x148])
                && m.rom_bank_num == 1 && m.ram_bank_num == 0 && !m.ram_enable
                && (forall|b: int, a: int| 0 <= b < m.rom.len() && 0 <= a < 16384 ==> #[trigger] m.rom@[b][a] == 0)
                && forall|b: int, a: int| 0 <= b < m.ram.len() && 0 <= a < 16384 ==> #[trigger] m.ram@[b][a] == 0,
    {
        match cart_contents[0x0147] {
            0x00 => Cartridge::Mbc0(Mbc0::new(cart_contents)),
            0x01 => Cartridge::Mbc1(Mbc1::new(cart_contents)),
            0x02 => Cartridge::Mbc1(Mbc1::new(cart_contents)),
            0x03 => Cartridge::Mbc1(Mbc1::new(cart_contents)),
            0x05 => Cartridge::Mbc2(Mbc2::new(cart_contents)),
            0x06 => Cartridge::Mbc2(Mbc2::new(cart_contents)),
            0x0f => Cartridge::Mbc3(Mbc3::new(cart_contents)),
            0x10 => Cartridge::Mbc3(Mbc3::new(cart_contents)),
            0x11 => Cartridge::Mbc3(Mbc3::new(cart_contents)),
            0x12 => Cartridge::Mbc3(Mbc3::new(cart_contents)),
            0x13 => Cartridge::Mbc3(Mbc3::new(cart_contents)),
            0x19 => Cartridge::Mbc5(Mbc5::new(cart_contents)),
            0x1a => Cartridge::Mbc5(Mbc5::new(cart_contents)),
            0x1b => Cartridge::Mbc5(Mbc5::new(cart_contents)),
            0x1c => Cartridge::Mbc5(Mbc5::new(cart_contents)),
            0x1d => Cartridge::Mbc5(Mbc5::new(cart_contents)),
            _ => Cartridge::Mbc5(Mbc5::new(cart_contents)),
        }
    }
}

} // verus!

verus! {

impl Cartridge {
    /// The byte that `memory_map(addr)` returns: RAM from 0xA000 on, ROM below.
    pub open spec fn peek(&self, addr: usize) -> u8 {
        match self {
            Cartridge::Mbc0(m) => if addr >= 0xA000 { m.ram_value((addr - 0xA000) as usize) } else { m.rom_value(addr) },
            Cartridge::Mbc1(m) => if addr >= 0xA000 { m.ram_value((addr - 0xA000) as usize) } else { m.rom_value(addr) },
            Cartridge::Mbc2(m) => if addr >= 0xA000 { m.ram_value((addr - 0xA000) as usize) } else { m.rom_value(addr) },
            Cartridge::Mbc3(m) => if addr >= 0xA000 { m.ram_value((addr - 0xA000) as usize) } else { m.rom_value(addr) },
            Cartridge::Mbc5(m) => if addr >= 0xA000 { m.ram_value((addr - 0xA000) as usize) } else { m.rom_value(addr) },
            Cartridge::Mbc7(m) => if addr >= 0xA000 { m.ram_value((addr - 0xA000) as usize) } else { m.rom_value(addr) },
            Cartridge::Mmm01(m) => if addr >= 0xA000 { m.ram_value((addr - 0xA000) as usize) } else { m.rom_value(addr) },
        }
    }

    /// `new` is this cartridge after `memory_write(addr, val)`: a RAM write
    /// above 0xA000, a ROM (control) write otherwise.
    pub open spec fn written(&self, new: &Cartridge, addr: usize, val: u8) -> bool {
        let ram = addr > 0xA000;
        let off = (addr - 0xA000) as usize;
        match self {
            Cartridge::Mbc0(m) => new matches Cartridge::Mbc0(n) && (if ram {
                n == Mbc0 { ram: vstd::array::spec_array_update(m.ram, off as int, val), ..*m }
            } else {
                n == *m
            }),
            Cartridge::Mbc1(m) => new matches Cartridge::Mbc1(n) && (if ram { m.ram_write_rel(&n, off, val) } else { m.rom_write_rel(&n, addr, val) }),
            Cartridge::Mbc2(m) => new matches Cartridge::Mbc2(n) && (if ram { m.ram_write_rel(&n, off, val) } else { m.rom_write_rel(&n, addr, val) }),
            Cartridge::Mbc3(m) => new matches Cartridge::Mbc3(n) && (if ram { m.ram_write_rel(&n, off, val) } else { m.rom_write_rel(&n, addr, val) }),
            Cartridge::Mbc5(m) => new matches Cartridge::Mbc5(n) && (if ram { m.ram_write_rel(&n, off, val) } else { m.rom_write_rel(&n, addr, val) }),
            Cartridge::Mbc7(m) => new matches Cartridge::Mbc7(n) && (if ram {
                n == Mbc7 { ram: vstd::array::spec_array_update(m.ram, off as int, val), ..*m }
            } else {
                n == *m
            }),
            Cartridge::Mmm01(m) => new matches Cartridge::Mmm01(n) && (if ram {
                n == Mmm01 { ram: vstd::array::spec_array_update(m.ram, off as int, val), ..*m }
            } else {
                n == *m
            }),
        }
    }
}

impl AsMemory for Cartridge {
    open spec fn readable(&self, addr: usize) -> bool {
        match self {
            Cartridge::Mbc0(m) => if addr >= 0xA000 { m.ram_readable((addr - 0xA000) as usize) } else { m.rom_readable(addr) },
            Cartridge::Mbc1(m) => if addr >= 0xA000 { m.ram_readable((addr - 0xA000) as usize) } else { m.rom_readable(addr) },
            Cartridge::Mbc2(m) => if addr >= 0xA000 { m.ram_readable((addr - 0xA000) as usize) } else { m.rom_readable(addr) },
            Cartridge::Mbc3(m) => if addr >= 0xA000 { m.ram_readable((addr - 0xA000) as usize) } else { m.rom_readable(addr) },
            Cartridge::Mbc5(m) => if addr >= 0xA000 { m.ram_readable((addr - 0xA000) as usize) } else { m.rom_readable(addr) },
            Cartridge::Mbc7(m) => if addr >= 0xA000 { m.ram_readable((addr - 0xA000) as usize) } else { m.rom_readable(addr) },
            Cartridge::Mmm01(m) => if addr >= 0xA000 { m.ram_readable((addr - 0xA000) as usize) } else { m.rom_readable(addr) },
        }
    }

    open spec fn writable(&self, addr: usize) -> bool {
        match self {
            Cartridge::Mbc0(m) => if addr > 0xA000 { m.ram_writable((addr - 0xA000) as usize) } else { m.rom_writable(addr) },
            Cartridge::Mbc1(m) => if addr > 0xA000 { m.ram_writable((addr - 0xA000) as usize) } else { m.rom_writable(addr) },
            Cartridge::Mbc2(m) => if addr > 0xA000 { m.ram_writable((addr - 0xA000) as usize) } else { m.rom_writable(addr) },
            Cartridge::Mbc3(m) => if addr > 0xA000 { m.ram_writable((addr - 0xA000) as usize) } else { m.rom_writable(addr) },
            Cartridge::Mbc5(m) => if addr > 0xA000 { m.ram_writable((addr - 0xA000) as usize) } else { m.rom_writable(addr) },
            Cartridge::Mbc7(m) => if addr > 0xA000 { m.ram_writable((addr - 0xA000) as usize) } else { m.rom_writable(addr) },
            Cartridge::Mmm01(m) => if addr > 0xA000 { m.ram_writable((addr - 0xA000) as usize) } else { m.rom_writable(addr) },
        }
    }

    /// Reads RAM (offset from 0xA000) at and above 0xA000, ROM below.
    fn memory_map(&mut self, addr: usize) -> (r: u8)
        ensures
            r == old(self).peek(addr),
            *final(self) == *old(self),
    {
        if addr >= 0xA000 {
            match self {
                Cartridge::Mbc0(mem) => mem.ram_read(addr - 0xA000),
                Cartridge::Mbc1(mem) => mem.ram_read(addr - 0xA000),
                Cartridge::Mbc2(mem) => mem.ram_read(addr - 0xA000),
                Cartridge::Mbc3(mem) => mem.ram_read(addr - 0xA000),
                Cartridge::Mbc5(mem) => mem.ram_read(addr - 0xA000),
                Cartridge::Mbc7(mem) => mem.ram_read(addr - 0xA000),
                Cartridge::Mmm01(mem) => mem.ram_read(addr - 0xA000),
            }
        } else {
            match self {
                Cartridge::Mbc0(mem) => mem.rom_read(addr),
                Cartridge::Mbc1(mem) => mem.rom_read(addr),
                Cartridge::Mbc2(mem) => mem.rom_read(addr),
                Cartridge::Mbc3(mem) => mem.rom_read(addr),
                Cartridge::Mbc5(mem) => mem.rom_read(addr),
                Cartridge::Mbc7(mem) => mem.rom_read(addr),
                Cartridge::Mmm01(mem) => mem.rom_read(addr),
            }
        }
    }

    /// Writes RAM (offset from 0xA000) above 0xA000, the controller's ROM
    /// registers otherwise.
    fn memory_write(&mut self, addr: usize, val: u8)
        ensures
            old(self).written(final(self), addr, val),
    {
        if addr > 0xA000 {
            match self {
                Cartridge::Mbc0(mem) => mem.ram_write(addr - 0xA000, val),
                Cartridge::Mbc1(mem) => mem.ram_write(addr - 0xA000, val),
                Cartridge::Mbc2(mem) => mem.ram_write(addr - 0xA000, val),
                Cartridge::Mbc3(mem) => mem.ram_write(addr - 0xA000, val),
                Cartridge::Mbc5(mem) => mem.ram_write(addr - 0xA000, val),
                Cartridge::Mbc7(mem) => mem.ram_write(addr - 0xA000, val),
                Cartridge::Mmm01(mem) => mem.ram_write(addr - 0xA000, val),
            }
        } else {
            match self {
                Cartridge::Mbc0(mem) => mem.rom_write(addr, val),
                Cartridge::Mbc1(mem) => mem.rom_write(addr, val),
                Cartridge::Mbc2(mem) => mem.rom_write(addr, val),
                Cartridge::Mbc3(mem) => mem.rom_write(addr, val),
                Cartridge::Mbc5(mem) => mem.rom_write(addr, val),
                Cartridge::Mbc7(mem) => mem.rom_write(addr, val),
                Cartridge::Mmm01(mem) => mem.rom_write(addr, val),
            }
        }
    }
}

} // verus!

verus! {

impl Cartridge {
    /// Whether `memory_map(addr)` is defined (see `readable`).
    pub fn can_read(&self, addr: usize) -> (r: bool)
        ensures
            r == self.readable(addr),
    {
        if addr >= 0xA000 {
            let off = addr - 0xA000;
            match self {
                Cartridge::Mbc0(_) => off < 0x2000,
                Cartridge::Mbc1(m) => !m.ram_enable || (off < 16384 && m.ram_bank_num * (m.bank_mode as usize) < m.ram.len()),
                Cartridge::Mbc2(_) => true,
                Cartridge::Mbc3(m) => !m.ram_enable || (if m.clock_mode > 8 {
                    m.clock_mode <= 0xC
                } else {
                    m.ram_bank_num < m.ram.len() && off < 16384
                }),
                Cartridge::Mbc5(m) => !m.ram_enable || (m.ram_bank_num < m.ram.len() && off < 16384),
                Cartridge::Mbc7(_) => off < 0x2000,
                Cartridge::Mmm01(_) => off < 0x2000,
            }
        } else {
            match self {
                Cartridge::Mbc0(_) => addr < 0x8000,
                Cartridge::Mbc1(m) => (addr <= 0x3FFF && m.rom.len() > 0) || (0x4000 <= addr && addr <= 0x7FFF && m.rom_bank_num < m.rom.len()),
                Cartridge::Mbc2(m) => addr <= 0x3FFF && m.rom.len() > 0,
                Cartridge::Mbc3(m) => addr <= 0x3FFF && m.rom.len() > 0,
                Cartridge::Mbc5(m) => addr <= 0x3FFF && m.rom.len() > 0,
                Cartridge::Mbc7(_) => addr < 0x8000,
                Cartridge::Mmm01(_) => addr < 0x8000,
            }
        }
    }

    /// Whether `memory_write(addr, _)` is defined (see `writable`).
    pub fn can_write(&self, addr: usize) -> (r: bool)
        ensures
            r == self.writable(addr),
    {
        if addr > 0xA000 {
            let off = addr - 0xA000;
            match self {
                Cartridge::Mbc0(_) => off < 0x2000,
                Cartridge::Mbc1(m) => !m.ram_enable || (off < 16384 && m.ram.len() > 0),
                Cartridge::Mbc2(_) => true,
                Cartridge::Mbc3(m) => !m.ram_enable || (m.clock_mode <= 0xC && m.ram_bank_num < m.ram.len() && off < 16384),
                Cartridge::Mbc5(m) => !m.ram_enable || (m.ram_bank_num < m.ram.len() && off < 16384),
                Cartridge::Mbc7(_) => off < 0x2000,
                Cartridge::Mmm01(_) => off < 0x2000,
            }
        } else {
            match self {
                Cartridge::Mbc0(_) => true,
                Cartridge::Mbc1(m) => addr <= 0x7FFF && (!(0x2000 <= addr && addr <= 0x3FFF) || m.rom.len() > 0),
                Cartridge::Mbc2(_) => addr <= 0x7FFF,
                Cartridge::Mbc3(m) => addr <= 0x7FFF && (!(0x2000 <= addr && addr <= 0x3FFF) || m.ram.len() > 0),
                Cartridge::Mbc5(_) => addr <= 0x7FFF,
                Cartridge::Mbc7(_) => true,
                Cartridge::Mmm01(_) => true,
            }
        }
    }
}

} // verus!
