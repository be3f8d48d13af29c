use vstd::prelude::*;

use crate::cartridge::mbc::{ram_banks, ram_size, ram_size_known, rom_banks, rom_size, rom_size_known, zeroed_banks, Bank, Mbc};

verus! {

broadcast use vstd::array::group_array_axioms;

/// An MBC5 cartridge: a nine-bit ROM bank register and RAM banks.
pub struct Mbc5 {
    pub rom_bank_num: usize,
    pub ram_bank_num: usize,
    pub rom: Vec<Bank>,
    pub ram: Vec<Bank>,
    pub ram_enable: bool,
}

impl Mbc5 {
    /// The byte that `rom_read(addr)` returns.
    pub open spec fn rom_value(&self, addr: usize) -> u8 {
        self.rom@[0][addr as int]
    }

    /// The byte that `ram_read(addr)` returns.
    pub open spec fn ram_value(&self, addr: usize) -> u8 {
        if !self.ram_enable { 0x0F } else { self.ram@[self.ram_bank_num as int][addr as int] }
    }

    /// `new` is this controller after `rom_write(addr, val)`.
    pub open spec fn rom_write_rel(&self, new: &Mbc5, addr: usize, val: u8) -> bool {
        &&& (new.rom == self.rom)
        &&& (new.ram == self.ram)
        &&& (new.ram_enable == if addr <= 0x1fff { val == 0x0A } else { self.ram_enable })
        &&& (new.rom_bank_num == if 0x2000 <= addr <= 0x2fff {
                (self.rom_bank_num & 0x100) | (val as usize)
            } else if 0x3000 <= addr <= 0x3fff {
                (((val & 0x01) as usize) << 8usize) | (self.rom_bank_num & 0x0ff)
            } else {
                self.rom_bank_num
            })
        &&& (new.ram_bank_num == if 0x4000 <= addr { (val % 4) as usize } else { self.ram_bank_num })
    }

    /// `new` is this controller after `ram_write(addr, val)`.
    pub open spec fn ram_write_rel(&self, new: &Mbc5, addr: usize, val: u8) -> bool {
        &&& (new.ram@ == if self.ram_enable {
                self.ram@.update(
                    self.ram_bank_num as int,
                    vstd::array::spec_array_update(self.ram@[self.ram_bank_num as int], addr as int, val),
                )
            } else {
                self.ram@
            })
        &&& (new.rom == self.rom)
        &&& (new.rom_bank_num == self.rom_bank_num)
        &&& (new.ram_bank_num == self.ram_bank_num)
        &&& (new.ram_enable == self.ram_enable)
    }
}

impl Mbc for Mbc5 {
    /// The RAM size is looked up from header byte 0x147 (the cartridge
    /// type) and the ROM size from byte 0x148; both must name a size.
    open spec fn accepts(cart: Seq<u8>) -> bool {
        cart.len() > 0x148 && ram_size_known(cart[0x147]) && rom_size_known(cart[0x148])
    }

    /// Bank 0 can be read; 0x4000..=0x7FFF indexes a bank with the address
    /// itself, past the end of the bank.
    open spec fn rom_readable(&self, addr: usize) -> bool {
        addr <= 0x3FFF && self.rom.len() > 0
    }

    open spec fn rom_writable(&self, addr: usize) -> bool {
        addr <= 0x7FFF
    }

    open spec fn ram_readable(&self, addr: usize) -> bool {
        self.ram_enable ==> (self.ram_bank_num < self.ram.len() && addr < 16384)
    }

    open spec fn ram_writable(&self, addr: usize) -> bool {
        self.ram_enable ==> (self.ram_bank_num < self.ram.len() && addr < 16384)
    }

    /// Zeroed banks (RAM sized by header byte 0x147, ROM by 0x148), ROM
    /// bank 1 selected, RAM disabled.
    fn new(cart: Vec<u8>) -> (r: Self)
        ensures
            r.ram.len() == ram_banks(cart@[0x147]),
            r.rom.len() == rom_banks(cart@[0x148]),
            forall|b: int, a: int| 0 <= b < r.rom.len() && 0 <= a < 16384 ==> #[trigger] r.rom@[b][a] == 0,
            forall|b: int, a: int| 0 <= b < r.ram.len() && 0 <= a < 16384 ==> #[trigger] r.ram@[b][a] == 0,
            r.rom_bank_num == 1 && r.ram_bank_num == 0 && !r.ram_enable,
    {
        let ram: Vec<Bank> = zeroed_banks(ram_size(cart[0x0147]));
        let rom: Vec<Bank> = zeroed_banks(rom_size(cart[0x0148]));
        Self { rom_bank_num: 1, ram_bank_num: 0, rom: rom, ram: ram, ram_enable: false }
    }

    fn rom_read(&mut self, addr: usize) -> (r: u8)
        ensures
            r == old(self).rom_value(addr),
            *final(self) == *old(self),
    {
        if addr <= 0x3FFF {
            self.rom[0][addr]
        } else {
            self.rom[self.rom_bank_num % 16][addr]
        }
    }

    /// 0x0000..=0x1FFF: RAM enable (0x0A enables); 0x2000..=0x2FFF: the low
    /// eight bits of the ROM bank, bit 8 kept; 0x3000..=0x3FFF: bit 8 of the
    /// ROM bank from bit 0 of `val`, the low eight bits kept;
    /// 0x4000..=0x7FFF: RAM bank `val % 4`.
    fn rom_write(&mut self, addr: usize, val: u8)
        ensures
            old(self).rom_write_rel(final(self), addr, val),
    {
        //Note there's something about rumble here.
        if addr <= 0x1fff {
            self.ram_enable = val == 0x0A
        } else if addr <= 0x2fff {
            self.rom_bank_num = (self.rom_bank_num & 0x100) | (val as usize)  //Write 8 bits, preserving bit 9
        } else if addr <= 0x3fff {
            self.rom_bank_num = (((val & 0x01) as usize) << 8usize) | (self.rom_bank_num & 0x0ff)  //Write 9th bit
        } else {
            self.ram_bank_num = (val % 4) as usize
        }
    }

    /// 0x0F while RAM is disabled; otherwise the byte of the selected bank.
    fn ram_read(&mut self, addr: usize) -> (r: u8)
        ensures
            r == old(self).ram_value(addr),
            *final(self) == *old(self),
    {
        if !self.ram_enable {
            0x0F
        } else {
            self.ram[self.ram_bank_num][addr]
        }
    }

    /// When RAM is enabled, writes the byte of the selected bank.
    fn ram_write(&mut self, addr: usize, val: u8)
        ensures
            old(self).ram_write_rel(final(self), addr, val),
    {
        if self.ram_enable {
            let mut bank = self.ram[self.ram_bank_num];
            bank[addr] = val;
            self.ram.set(self.ram_bank_num, bank);
        }
    }
}

} // verus!
