use vstd::prelude::*;

verus! {

broadcast use vstd::array::group_array_axioms;

/// A 16 KiB bank of cartridge memory.
pub type Bank = [u8; 16384];

/// A memory bank controller: the cartridge hardware that maps banks of ROM
/// and RAM into 0x0000..=0x7FFF and 0xA000..=0xBFFF. ROM offsets are
/// addresses; RAM offsets are taken from 0xA000.
pub trait Mbc {
    /// `new` accepts these cartridge contents.
    spec fn accepts(cart: Seq<u8>) -> bool;

    /// `rom_read(addr)` is defined.
    spec fn rom_readable(&self, addr: usize) -> bool;

    /// `rom_write(addr, _)` is defined.
    spec fn rom_writable(&self, addr: usize) -> bool;

    /// `ram_read(addr)` is defined.
    spec fn ram_readable(&self, addr: usize) -> bool;

    /// `ram_write(addr, _)` is defined.
    spec fn ram_writable(&self, addr: usize) -> bool;

    fn new(cart: Vec<u8>) -> Self
        where
            Self: Sized,
        requires
            Self::accepts(cart@),
    ;

    fn rom_read(&mut self, addr: usize) -> u8
        requires
            old(self).rom_readable(addr),
    ;

    fn rom_write(&mut self, addr: usize, val: u8)
        requires
            old(self).rom_writable(addr),
    ;

    fn ram_read(&mut self, addr: usize) -> u8
        requires
            old(self).ram_readable(addr),
    ;

    fn ram_write(&mut self, addr: usize, val: u8)
        requires
            old(self).ram_writable(addr),
    ;
}

/// The header's ROM size code names a size.
pub open spec fn rom_size_known(val: u8) -> bool {
    val <= 8 || val == 0x52 || val == 0x53 || val == 0x54
}

/// The number of 16 KiB ROM banks that the header's ROM size code names:
/// 2 << code for codes 0..=8, and 72, 80, 96 for 0x52, 0x53, 0x54.
pub open spec fn rom_banks(val: u8) -> nat {
    if val <= 8 {
        vstd::arithmetic::power2::pow2(val as nat + 1)
    } else if val == 0x52 {
        72
    } else if val == 0x53 {
        80
    } else {
        96
    }
}

/// The header's RAM size code names a size.
pub open spec fn ram_size_known(val: u8) -> bool {
    val == 0 || val == 2 || val == 3 || val == 4 || val == 5
}

/// The number of RAM banks that the header's RAM size code names.
pub open spec fn ram_banks(val: u8) -> nat {
    if val == 0 {
        0
    } else if val == 2 {
        1
    } else if val == 3 {
        4
    } else if val == 4 {
        16
    } else {
        8
    }
}

/// The number of ROM banks for a header ROM size code.
pub fn rom_size(val: u8) -> (r: usize)
    requires
        rom_size_known(val),
    ensures
        r == rom_banks(val),
{
    proof {
        vstd::arithmetic::power2::lemma2_to64();
    }
    match val {
        0 => 2,
        1 => 4,
        2 => 8,
        3 => 16,
        4 => 32,
        5 => 64,
        6 => 128,
        7 => 256,
        8 => 512,
        0x52 => 72,
        0x53 => 80,
        _ => 96,
    }
}

/// The number of RAM banks for a header RAM size code.
pub fn ram_size(val: u8) -> (r: usize)
    requires
        ram_size_known(val),
    ensures
        r == ram_banks(val),
{
    match val {
        0 => 0,
        2 => 1,
        3 => 4,
        4 => 16,
        _ => 8,
    }
}

/// An array of zero bytes.
pub(crate) fn zeroed<const N: usize>() -> (r: [u8; N])
    ensures
        forall|i: int| 0 <= i < N ==> #[trigger] r[i] == 0,
{
    let r = [0u8; N];
    proof {
        let f = vstd::array::spec_array_fill_for_copy_type::<u8, N>(0u8);
        assert(r == f);
        assert forall|i: int| 0 <= i < N implies #[trigger] r[i] == 0 by {
            assert(f@[i] == 0);
        }
    }
    r
}

/// `n` zeroed banks.
pub(crate) fn zeroed_banks(n: usize) -> (r: Vec<Bank>)
    ensures
        r.len() == n,
        forall|b: int, a: int| 0 <= b < n && 0 <= a < 16384 ==> #[trigger] r@[b][a] == 0,
{
    let mut v: Vec<Bank> = Vec::new();
    for i in 0..n
        invariant
            v.len() == i,
            forall|b: int, a: int| 0 <= b < i && 0 <= a < 16384 ==> #[trigger] v@[b][a] == 0,
    {
        let z: Bank = zeroed();
        v.push(z);
    }
    v
}

} // verus!
