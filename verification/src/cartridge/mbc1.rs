use vstd::prelude::*;

use crate::cartridge::mbc::{ram_banks, ram_size, ram_size_known, rom_banks, rom_size, rom_size_known, zeroed_banks, Bank, Mbc};

verus! {

broadcast use vstd::array::group_array_axioms;

/// An MBC1 cartridge: switchable ROM banks at 0x4000..=0x7FFF and RAM banks
/// behind an enable register.
pub struct Mbc1 {
    pub rom_bank_num: usize,
    pub ram_bank_num: usize,
    pub rom: Vec<Bank>,
    pub ram: Vec<Bank>,
    pub ram_enable: bool,
    pub bank_mode: bool,
}

/// The larger of two bytes.
pub open spec fn max_u8(a: u8, b: u8) -> u8 {
    if a >= b { a } else { b }
}

/// The RAM bank selected for reads: the RAM bank register in banking mode,
/// bank 0 otherwise.
pub open spec fn mbc1_ram_index(m: &Mbc1) -> int {
    m.ram_bank_num * (if m.bank_mode { 1int } else { 0int })
}

impl Mbc1 {
    /// The byte that `rom_read(addr)` returns.
    pub open spec fn rom_value(&self, addr: usize) -> u8 {
        if addr <= 0x3FFF { self.rom@[0][addr as int] } else { self.rom@[self.rom_bank_num as int][addr - 0x4000] }
    }

    /// The byte that `ram_read(addr)` returns.
    pub open spec fn ram_value(&self, addr: usize) -> u8 {
        if !self.ram_enable { 0xFF } else { self.ram@[mbc1_ram_index(self)][addr as int] }
    }

    /// `new` is this controller after `rom_write(addr, val)`.
    pub open spec fn rom_write_rel(&self, new: &Mbc1, addr: usize, val: u8) -> bool {
        &&& (*new == if addr <= 0x1fff {
                Mbc1 { ram_enable: val == 0xA, ..*self }
            } else if addr <= 0x3fff {
                Mbc1 {
                    rom_bank_num: ((self.ram_bank_num << 5usize).wrapping_add(max_u8(1, val & 0x1F) as usize) % self.rom.len()) as usize,
                    ..*self
                }
            } else if addr <= 0x5fff {
                Mbc1 { ram_bank_num: (val % 4) as usize, ..*self }
            } else {
                Mbc1 { bank_mode: val % 2 == 1, ..*self }
            })
    }

    /// `new` is this controller after `ram_write(addr, val)`.
    pub open spec fn ram_write_rel(&self, new: &Mbc1, addr: usize, val: u8) -> bool {
        &&& (new.ram@ == if self.ram_enable {
                self.ram@.update(
                    mbc1_ram_index(self) % self.ram.len() as int,
                    vstd::array::spec_array_update(self.ram@[mbc1_ram_index(self) % self.ram.len() as int], addr as int, val),
                )
            } else {
                self.ram@
            })
        &&& (new.rom == self.rom)
        &&& (new.rom_bank_num == self.rom_bank_num)
        &&& (new.ram_bank_num == self.ram_bank_num)
        &&& (new.ram_enable == self.ram_enable)
        &&& (new.bank_mode == self.bank_mode)
    }
}

impl Mbc for Mbc1 {
    /// The header names its ROM and RAM sizes, and the contents fill whole
    /// banks, no more than the ROM has.
    open spec fn accepts(cart: Seq<u8>) -> bool {
        &&& cart.len() > 0x149
        &&& rom_size_known(cart[0x148])
        &&& ram_size_known(cart[0x149])
        &&& cart.len() % 16384 == 0
        &&& cart.len() / 16384 <= rom_banks(cart[0x148])
    }

    open spec fn rom_readable(&self, addr: usize) -> bool {
        ||| (addr <= 0x3FFF && self.rom.len() > 0)
        ||| (0x4000 <= addr <= 0x7FFF && self.rom_bank_num < self.rom.len())
    }

    open spec fn rom_writable(&self, addr: usize) -> bool {
        addr <= 0x7FFF && ((0x2000 <= addr <= 0x3FFF) ==> self.rom.len() > 0)
    }

    open spec fn ram_readable(&self, addr: usize) -> bool {
        self.ram_enable ==> (addr < 16384 && mbc1_ram_index(self) < self.ram.len())
    }

    open spec fn ram_writable(&self, addr: usize) -> bool {
        self.ram_enable ==> (addr < 16384 && self.ram.len() > 0)
    }

    /// The cartridge split into 16 KiB banks, as many banks as the header's
    /// ROM size names (the rest zero), zeroed RAM of the header's RAM size,
    /// bank 0 selected, RAM disabled.
    fn new(cart: Vec<u8>) -> (r: Self)
        ensures
            r.rom.len() == rom_banks(cart@[0x148]),
            r.ram.len() == ram_banks(cart@[0x149]),
            forall|b: int, a: int| 0 <= b < r.rom.len() && 0 <= a < 16384 ==> #[trigger] r.rom@[b][a] == if b * 16384 + a < cart@.len() { cart@[b * 16384 + a] } else { 0 },
            forall|b: int, a: int| 0 <= b < r.ram.len() && 0 <= a < 16384 ==> #[trigger] r.ram@[b][a] == 0,
            r.rom_bank_num == 0 && r.ram_bank_num == 0 && !r.ram_enable && !r.bank_mode,
    {
        let mut rom: Vec<Bank> = zeroed_banks(rom_size(cart[0x0148]));
        let n = cart.len() / 16384;
        for idx in 0..n
            invariant
                n == cart@.len() / 16384,
                cart@.len() % 16384 == 0,
                n <= rom.len(),
                rom.len() == rom_banks(cart@[0x148]),
                forall|b: int, a: int| 0 <= b < rom.len() && 0 <= a < 16384 ==> #[trigger] rom@[b][a] == if b < idx { cart@[b * 16384 + a] } else { 0 },
        {
            let mut chunk: Bank = [0u8; 16384];
            for j in 0..16384usize
                invariant
                    idx < n,
                    n == cart@.len() / 16384,
                    cart@.len() % 16384 == 0,
                    forall|a: int| 0 <= a < j ==> #[trigger] chunk[a] == cart@[idx * 16384 + a],
            {
                assert(idx * 16384 + j < cart@.len()) by (nonlinear_arith)
                    requires idx < n, n == cart@.len() / 16384, j < 16384, cart@.len() % 16384 == 0;
                assert(idx * 16384 <= cart@.len()) by (nonlinear_arith)
                    requires idx < n, n == cart@.len() / 16384;
                assert(cart@.len() == cart.len());
                let pos: usize = idx * 16384 + j;
                chunk[j] = cart[pos];
            }
            rom.set(idx, chunk);
        }
        proof {
            assert forall|b: int, a: int| 0 <= b < rom.len() && 0 <= a < 16384 implies
                #[trigger] rom@[b][a] == if b * 16384 + a < cart@.len() { cart@[b * 16384 + a] } else { 0 } by {
                assert((b < n <==> b * 16384 + a < cart@.len())) by (nonlinear_arith)
                    requires 0 <= a < 16384, 0 <= b, n == cart@.len() / 16384, cart@.len() % 16384 == 0;
            }
        }
        let ram: Vec<Bank> = zeroed_banks(ram_size(cart[0x0149]));
        Self { rom_bank_num: 0, ram_bank_num: 0, rom: rom, ram: ram, ram_enable: false, bank_mode: false }
    }

    /// Bank 0 at 0x0000..=0x3FFF, the selected bank at 0x4000..=0x7FFF.
    fn rom_read(&mut self, addr: usize) -> (r: u8)
        ensures
            r == old(self).rom_value(addr),
            *final(self) == *old(self),
    {
        if addr <= 0x3FFF {
            self.rom[0][addr]
        } else {
            self.rom[self.rom_bank_num][addr - 0x4000]
        }
    }

    /// 0x0000..=0x1FFF: RAM enable (0xA enables); 0x2000..=0x3FFF: ROM bank
    /// `((ram bank << 5) + max(1, val & 0x1F)) % banks`; 0x4000..=0x5FFF: RAM
    /// bank `val % 4`; 0x6000..=0x7FFF: banking mode `val % 2 == 1`.
    fn rom_write(&mut self, addr: usize, val: u8)
        ensures
            old(self).rom_write_rel(final(self), addr, val),
    {
        if addr <= 0x1fff {
            self.ram_enable = val == 0xA
        } else if addr <= 0x3fff {
            let low: u8 = if 1 >= (val & 0x1F) { 1 } else { val & 0x1F };
            self.rom_bank_num = (self.ram_bank_num << 5usize).wrapping_add(low as usize) % self.rom.len()
        } else if addr <= 0x5fff {
            self.ram_bank_num = (val % 4) as usize
        } else {
            self.bank_mode = val % 2 == 1
        }
    }

    /// 0xFF while RAM is disabled; otherwise the byte of the RAM bank
    /// selected in banking mode (bank 0 otherwise).
    fn ram_read(&mut self, addr: usize) -> (r: u8)
        ensures
            r == old(self).ram_value(addr),
            *final(self) == *old(self),
    {
        if !self.ram_enable {
            0xFF
        } else {
            self.ram[self.ram_bank_num * (self.bank_mode as usize)][addr]
        }
    }

    /// When RAM is enabled, writes bank `(ram bank * mode) % banks`.
    fn ram_write(&mut self, addr: usize, val: u8)
        ensures
            old(self).ram_write_rel(final(self), addr, val),
    {
        if self.ram_enable {
            let ram_idx = self.ram_bank_num * (self.bank_mode as usize) % self.ram.len();
            let mut bank = self.ram[ram_idx];
            bank[addr] = val;
            self.ram.set(ram_idx, bank);
        }
    }
}

} // verus!
