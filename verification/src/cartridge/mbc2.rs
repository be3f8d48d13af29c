use vstd::prelude::*;

use crate::cartridge::mbc::{rom_banks, rom_size, rom_size_known, zeroed, zeroed_banks, Bank, Mbc};
use crate::cartridge::mbc1::max_u8;

verus! {

broadcast use vstd::array::group_array_axioms;

/// An MBC2 cartridge: switchable ROM banks and 512 half-bytes of built-in RAM.
pub struct Mbc2 {
    pub rom_bank_num: usize,
    pub ram_bank_num: usize,
    pub rom: Vec<Bank>,
    pub ram: [u8; 512],
    pub ram_enable: bool,
    pub bank_mode: bool,
}

impl Mbc2 {
    /// The byte that `rom_read(addr)` returns.
    pub open spec fn rom_value(&self, addr: usize) -> u8 {
        self.rom@[0][addr as int]
    }

    /// The byte that `ram_read(addr)` returns.
    pub open spec fn ram_value(&self, addr: usize) -> u8 {
        if !self.ram_enable { 0x0F } else { self.ram[(addr % 512) as int] & 0x0F }
    }

    /// `new` is this controller after `rom_write(addr, val)`.
    pub open spec fn rom_write_rel(&self, new: &Mbc2, addr: usize, val: u8) -> bool {
        &&& (new.rom == self.rom)
        &&& (new.ram == self.ram)
        &&& (new.rom_bank_num == if addr <= 0x1fff && (addr & 0x10) == 0x10 {
                max_u8(1, val & 0x0f) as usize
            } else if 0x2000 <= addr <= 0x3fff {
                ((self.ram_bank_num << 5usize).wrapping_add(max_u8(1, val & 0x1F) as usize) % 512) as usize
            } else {
                self.rom_bank_num
            })
        &&& (new.ram_enable == if addr <= 0x1fff && (addr & 0x10) != 0x10 { val == 0xA } else { self.ram_enable })
        &&& (new.ram_bank_num == if 0x4000 <= addr <= 0x5fff { (val % 4) as usize } else { self.ram_bank_num })
        &&& (new.bank_mode == if 0x6000 <= addr { val % 2 == 1 } else { self.bank_mode })
    }

    /// `new` is this controller after `ram_write(addr, val)`.
    pub open spec fn ram_write_rel(&self, new: &Mbc2, addr: usize, val: u8) -> bool {
        &&& (new.ram == if self.ram_enable { vstd::array::spec_array_update(self.ram, (addr % 512) as int, val) } else { self.ram })
        &&& (new.rom == self.rom)
        &&& (new.rom_bank_num == self.rom_bank_num)
        &&& (new.ram_bank_num == self.ram_bank_num)
        &&& (new.ram_enable == self.ram_enable)
        &&& (new.bank_mode == self.bank_mode)
    }
}

impl Mbc for Mbc2 {
    /// The header names its ROM size.
    open spec fn accepts(cart: Seq<u8>) -> bool {
        cart.len() > 0x148 && rom_size_known(cart[0x148])
    }

    /// Bank 0 can be read; 0x4000..=0x7FFF indexes a bank with the address
    /// itself, past the end of the bank.
    open spec fn rom_readable(&self, addr: usize) -> bool {
        addr <= 0x3FFF && self.rom.len() > 0
    }

    open spec fn rom_writable(&self, addr: usize) -> bool {
        addr <= 0x7FFF
    }

    open spec fn ram_readable(&self, addr: usize) -> bool {
        true
    }

    open spec fn ram_writable(&self, addr: usize) -> bool {
        true
    }

    /// Zeroed ROM banks, as many as the header's ROM size names, zeroed RAM,
    /// ROM bank 1 selected, RAM disabled.
    fn new(cart: Vec<u8>) -> (r: Self)
        ensures
            r.rom.len() == rom_banks(cart@[0x148]),
            forall|b: int, a: int| 0 <= b < r.rom.len() && 0 <= a < 16384 ==> #[trigger] r.rom@[b][a] == 0,
            forall|i: int| 0 <= i < 512 ==> #[trigger] r.ram[i] == 0,
            r.rom_bank_num == 1 && r.ram_bank_num == 0 && !r.ram_enable && !r.bank_mode,
    {
        let rom: Vec<Bank> = zeroed_banks(rom_size(cart[0x0148]));
        let ram: [u8; 512] = zeroed();
        Self { rom_bank_num: 1, ram_bank_num: 0, rom: rom, ram: ram, ram_enable: false, bank_mode: false }
    }

    fn rom_read(&mut self, addr: usize) -> (r: u8)
        ensures
            r == old(self).rom_value(addr),
            *final(self) == *old(self),
    {
        if addr <= 0x3FFF {
            self.rom[0][addr]
        } else {
            let bank = if 1 >= self.rom_bank_num % 16 { 1 } else { self.rom_bank_num % 16 };
            self.rom[bank][addr]
        }
    }

    /// 0x0000..=0x1FFF: with address bit 4 set, ROM bank `max(1, val & 0x0F)`,
    /// otherwise RAM enable (0xA enables); 0x2000..=0x3FFF: ROM bank
    /// `((ram bank << 5) + max(1, val & 0x1F)) % 512`; 0x4000..=0x5FFF: RAM
    /// bank `val % 4`; 0x6000..=0x7FFF: banking mode `val % 2 == 1`.
    fn rom_write(&mut self, addr: usize, val: u8)
        ensures
            old(self).rom_write_rel(final(self), addr, val),
    {
        if addr <= 0x1fff {
            if (addr & 0x10) == 0x10 {
                let low: u8 = if 1 >= (val & 0x0f) { 1 } else { val & 0x0f };
                self.rom_bank_num = low as usize
            } else {
                self.ram_enable = val == 0xA;
            }
        } else if addr <= 0x3fff {
            let low: u8 = if 1 >= (val & 0x1F) { 1 } else { val & 0x1F };
            self.rom_bank_num = (self.ram_bank_num << 5usize).wrapping_add(low as usize) % 512
        } else if addr <= 0x5fff {
            self.ram_bank_num = (val % 4) as usize
        } else {
            self.bank_mode = val % 2 == 1
        }
    }

    /// 0x0F while RAM is disabled; otherwise the low half of byte `addr % 512`.
    fn ram_read(&mut self, addr: usize) -> (r: u8)
        ensures
            r == old(self).ram_value(addr),
            *final(self) == *old(self),
    {
        if !self.ram_enable {
            0x0F
        } else {
            self.ram[addr % 512] & 0x0F
        }
    }

    /// When RAM is enabled, writes byte `addr % 512`.
    fn ram_write(&mut self, addr: usize, val: u8)
        ensures
            old(self).ram_write_rel(final(self), addr, val),
    {
        if self.ram_enable {
            self.ram[addr % 512] = val;
            proof {
                assert(self.ram =~= vstd::array::spec_array_update(old(self).ram, (addr % 512) as int, val));
            }
        }
    }
}

} // verus!
