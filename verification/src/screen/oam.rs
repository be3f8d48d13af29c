use vstd::prelude::*;

use crate::memory::memory_wrapper::AsMemory;

verus! {

broadcast use vstd::array::group_array_axioms;

/// One entry of object attribute memory.
#[derive(Clone, Copy, PartialEq, Eq, Structural, Debug)]
pub struct Oam {
    pub ypos: u8,
    pub xpos: u8,
    pub tile_index: u8,
    pub attributes: u8,
}

/// Object attribute memory: forty entries of four bytes.
pub struct OamStruct {
    pub oam_list: [Oam; 40],
}

impl Oam {
    /// The byte at offset `addr` (0..=3) of the entry.
    pub open spec fn field(&self, addr: int) -> u8 {
        if addr == 0 {
            self.ypos
        } else if addr == 1 {
            self.xpos
        } else if addr == 2 {
            self.tile_index
        } else {
            self.attributes
        }
    }

    /// The entry with the byte at offset `addr` (0..=3) replaced by `val`.
    pub open spec fn with_field(self, addr: int, val: u8) -> Oam {
        if addr == 0 {
            Oam { ypos: val, ..self }
        } else if addr == 1 {
            Oam { xpos: val, ..self }
        } else if addr == 2 {
            Oam { tile_index: val, ..self }
        } else {
            Oam { attributes: val, ..self }
        }
    }
}

impl AsMemory for Oam {
    open spec fn readable(&self, addr: usize) -> bool {
        addr <= 3
    }

    open spec fn writable(&self, addr: usize) -> bool {
        addr <= 3
    }

    fn memory_map(&mut self, addr: usize) -> (r: u8)
        ensures
            r == old(self).field(addr as int),
            *final(self) == *old(self),
    {
        match addr {
            0x0000 => self.ypos,
            0x0001 => self.xpos,
            0x0002 => self.tile_index,
            _ => self.attributes,
        }
    }

    fn memory_write(&mut self, addr: usize, val: u8)
        ensures
            *final(self) == old(self).with_field(addr as int, val),
    {
        match addr {
            0x0000 => self.ypos = val,
            0x0001 => self.xpos = val,
            0x0002 => self.tile_index = val,
            _ => self.attributes = val,
        }
    }
}

impl OamStruct {
    pub fn new() -> (r: OamStruct)
        ensures
            forall|i: int| 0 <= i < 40 ==> r.oam_list[i] == (Oam { ypos: 0, xpos: 0, tile_index: 0, attributes: 0 }),
    {
        OamStruct { oam_list: [Oam { ypos: 0, xpos: 0, tile_index: 0, attributes: 0 }; 40] }
    }

    /// The byte at offset `addr` (0..160): field `addr % 4` of entry `addr / 4`.
    pub open spec fn byte(&self, addr: int) -> u8 {
        self.oam_list[addr / 4].field(addr % 4)
    }

    /// The table with the byte at offset `addr` replaced by `val`.
    pub open spec fn with_byte(self, addr: int, val: u8) -> OamStruct {
        OamStruct {
            oam_list: vstd::array::spec_array_update(self.oam_list, addr / 4, self.oam_list[addr / 4].with_field(addr % 4, val)),
        }
    }
}

impl AsMemory for OamStruct {
    open spec fn readable(&self, addr: usize) -> bool {
        addr < 160
    }

    open spec fn writable(&self, addr: usize) -> bool {
        addr < 160
    }

    fn memory_map(&mut self, addr: usize) -> (r: u8)
        ensures
            r == old(self).byte(addr as int),
            *final(self) == *old(self),
    {
        let mut entry = self.oam_list[addr / 4];
        entry.memory_map(addr % 4)
    }

    fn memory_write(&mut self, addr: usize, val: u8)
        ensures
            *final(self) == old(self).with_byte(addr as int, val),
    {
        let mut entry = self.oam_list[addr / 4];
        entry.memory_write(addr % 4, val);
        self.oam_list[addr / 4] = entry;
        proof {
            assert(self.oam_list =~= old(self).with_byte(addr as int, val).oam_list);
        }
    }
}

} // verus!
