use vstd::prelude::*;

use crate::cartridge::mbc::{zeroed, Mbc};

verus! {

broadcast use vstd::array::group_array_axioms;

/// A cartridge without a bank controller: 32 KiB of ROM and 8 KiB of RAM.
pub struct Mbc0 {
    pub rom: [u8; 32768],
    pub ram: [u8; 8192],
}

impl Mbc0 {
    /// The byte that `rom_read(addr)` returns.
    pub open spec fn rom_value(&self, addr: usize) -> u8 {
        self.rom[addr as int]
    }

    /// The byte that `ram_read(addr)` returns.
    pub open spec fn ram_value(&self, addr: usize) -> u8 {
        self.ram[addr as int]
    }
}

impl Mbc for Mbc0 {
    /// The cartridge holds at least 32 KiB.
    open spec fn accepts(cart: Seq<u8>) -> bool {
        cart.len() >= 0x8000
    }

    open spec fn rom_readable(&self, addr: usize) -> bool {
        addr < 0x8000
    }

    open spec fn rom_writable(&self, addr: usize) -> bool {
        true
    }

    open spec fn ram_readable(&self, addr: usize) -> bool {
        addr < 0x2000
    }

    open spec fn ram_writable(&self, addr: usize) -> bool {
        addr < 0x2000
    }

    /// The first 32 KiB of the cartridge as ROM, with zeroed RAM.
    fn new(cart: Vec<u8>) -> (r: Self)
        ensures
            forall|i: int| 0 <= i < 0x8000 ==> #[trigger] r.rom[i] == cart@[i],
            forall|i: int| 0 <= i < 0x2000 ==> #[trigger] r.ram[i] == 0,
    {
        let ram: [u8; 8192] = zeroed();
        let mut cart_rom: [u8; 32768] = [0; 32768];
        for i in 0..0x8000usize
            invariant
                cart@.len() >= 0x8000,
                forall|k: int| 0 <= k < 0x2000 ==> ram[k] == 0,
                forall|k: int| 0 <= k < i ==> #[trigger] cart_rom[k] == cart@[k],
        {
            cart_rom[i] = cart[i];
        }
        Self { rom: cart_rom, ram: ram }
    }

    fn rom_read(&mut self, addr: usize) -> (r: u8)
        ensures
            r == old(self).rom_value(addr),
            *final(self) == *old(self),
    {
        self.rom[addr]
    }

    /// Writes to ROM are ignored.
    fn rom_write(&mut self, _addr: usize, _val: u8)
        ensures
            *final(self) == *old(self),
    {
    }

    fn ram_read(&mut self, addr: usize) -> (r: u8)
        ensures
            r == old(self).ram_value(addr),
            *final(self) == *old(self),
    {
        self.ram[addr]
    }

    fn ram_write(&mut self, addr: usize, val: u8)
        ensures
            *final(self) == (Mbc0 { ram: vstd::array::spec_array_update(old(self).ram, addr as int, val), ..*old(self) }),
    {
        self.ram[addr] = val;
        proof {
            assert(self.ram =~= vstd::array::spec_array_update(old(self).ram, addr as int, val));
        }
    }
}

} // verus!
