use vstd::prelude::*;

use crate::cartridge::mbc::{zeroed, Mbc};

verus! {

broadcast use vstd::array::group_array_axioms;

/// An MMM01 multi-game cartridge: 32 KiB of ROM and 8 KiB of RAM.
pub struct Mmm01 {
    pub rom: [u8; 0x8000],
    pub ram: [u8; 0x2000],
}

impl Mmm01 {
    /// The byte that `rom_read(addr)` returns.
    pub open spec fn rom_value(&self, addr: usize) -> u8 {
        self.rom[addr as int]
    }

    /// The byte that `ram_read(addr)` returns.
    pub open spec fn ram_value(&self, addr: usize) -> u8 {
        self.ram[addr as int]
    }
}

impl Mbc for Mmm01 {
    /// No cartridge contents are accepted: the controller is not
    /// implemented.
    open spec fn accepts(cart: Seq<u8>) -> bool {
        false
    }

    open spec fn rom_readable(&self, addr: usize) -> bool {
        addr < 0x8000
    }

    open spec fn rom_writable(&self, addr: usize) -> bool {
        true
    }

    open spec fn ram_readable(&self, addr: usize) -> bool {
        addr < 0x2000
    }

    open spec fn ram_writable(&self, addr: usize) -> bool {
        addr < 0x2000
    }

    /// Not implemented; `accepts` holds of no contents.
    fn new(cart: Vec<u8>) -> (r: Self) {
        let _ = cart;
        Self { rom: zeroed(), ram: zeroed() }
    }

    fn rom_read(&mut self, addr: usize) -> (r: u8)
        ensures
            r == old(self).rom_value(addr),
            *final(self) == *old(self),
    {
        self.rom[addr]
    }

    /// Writes to ROM are ignored.
    fn rom_write(&mut self, _addr: usize, _val: u8)
        ensures
            *final(self) == *old(self),
    {
    }

    fn ram_read(&mut self, addr: usize) -> (r: u8)
        ensures
            r == old(self).ram_value(addr),
            *final(self) == *old(self),
    {
        self.ram[addr]
    }

    fn ram_write(&mut self, addr: usize, val: u8)
        ensures
            *final(self) == (Mmm01 { ram: vstd::array::spec_array_update(old(self).ram, addr as int, val), ..*old(self) }),
    {
        self.ram[addr] = val;
        proof {
            assert(self.ram =~= vstd::array::spec_array_update(old(self).ram, addr as int, val));
        }
    }
}

} // verus!
