use vstd::prelude::*;

use crate::memory::memory_wrapper::AsMemory;

verus! {

/// The LCD registers at 0xFF40..=0xFF4B.
#[derive(Clone, Copy, PartialEq, Eq, Structural, Debug)]
pub struct VideoController {
    pub lcdc: u8,  //LCD Control
    pub stat: u8,  //Interrupts
    pub scy: u8,  //Background viewport Y
    pub scx: u8,  //Background viewport X
    pub ly: u8,  //Line of drawing
    pub lyc: u8,  //Line to compare
    pub dma: u8,  //DMA!
    pub bgp: u8,  //Background Palette Data
    pub obp0: u8,  //Object palette 1
    pub obp1: u8,  //Object palette 2
    pub wy: u8,  //Window Y
    pub wx: u8,  //Window X
}

impl VideoController {
    /// The register at offset `addr` (0..=0xb).
    pub open spec fn register(&self, addr: int) -> u8 {
        if addr == 0 {
            self.lcdc
        } else if addr == 1 {
            self.stat
        } else if addr == 2 {
            self.scy
        } else if addr == 3 {
            self.scx
        } else if addr == 4 {
            self.ly
        } else if addr == 5 {
            self.lyc
        } else if addr == 6 {
            self.dma
        } else if addr == 7 {
            self.bgp
        } else if addr == 8 {
            self.obp0
        } else if addr == 9 {
            self.obp1
        } else if addr == 0xa {
            self.wy
        } else {
            self.wx
        }
    }

    /// The registers after a write of `val` at offset `addr`: STAT takes
    /// bits 3..=7 of `val` and keeps its mode bits and its LY = LYC bit
    /// (bits 0..=2), which cannot be written; LY is read-only.
    pub open spec fn written(self, addr: int, val: u8) -> VideoController {
        if addr == 0 {
            VideoController { lcdc: val, ..self }
        } else if addr == 1 {
            VideoController { stat: (val & 0xF8) | (self.stat & 0x07), ..self }
        } else if addr == 2 {
            VideoController { scy: val, ..self }
        } else if addr == 3 {
            VideoController { scx: val, ..self }
        } else if addr == 4 {
            self
        } else if addr == 5 {
            VideoController { lyc: val, ..self }
        } else if addr == 6 {
            VideoController { dma: val, ..self }
        } else if addr == 7 {
            VideoController { bgp: val, ..self }
        } else if addr == 8 {
            VideoController { obp0: val, ..self }
        } else if addr == 9 {
            VideoController { obp1: val, ..self }
        } else if addr == 0xa {
            VideoController { wy: val, ..self }
        } else {
            VideoController { wx: val, ..self }
        }
    }
}

impl AsMemory for VideoController {
    open spec fn readable(&self, addr: usize) -> bool {
        addr <= 0xb
    }

    open spec fn writable(&self, addr: usize) -> bool {
        addr <= 0xb
    }

    fn memory_map(&mut self, addr: usize) -> (r: u8)
        ensures
            r == old(self).register(addr as int),
            *final(self) == *old(self),
    {
        match addr {
            0 => self.lcdc,  //LCD control register
            1 => self.stat,  //Interrupts
            2 => self.scy,  //Background viewport Y
            3 => self.scx,  //Background viewport X
            4 => self.ly,  //Line of drawing
            5 => self.lyc,  //Line to compare
            6 => self.dma,  //DMA!
            7 => self.bgp,  //Background Pallete Data
            8 => self.obp0,  //Oboject palette 1
            9 => self.obp1,  //Object palette 2
            0xa => self.wy,  //Window Y
            _ => self.wx,  //Window X
        }
    }

    fn memory_write(&mut self, addr: usize, val: u8)
        ensures
            *final(self) == old(self).written(addr as int, val),
    {
        match addr {
            0 => self.lcdc = val,
            1 => self.stat = (val & 0xF8) | (self.stat & 0x07),  //Last two bits are unwritable, and the coincidence bit
            2 => self.scy = val,  //Background Viewport Y
            3 => self.scx = val,  //Background viewport X
            4 => (),  //Line of drawing, is READ ONLY
            5 => self.lyc = val,  //Line to compare
            6 => self.dma = val,  //DMA! Controls a fun bypass between RAM and VRAM
            7 => self.bgp = val,  //Background Pallette Data
            8 => self.obp0 = val,  //Object palette 1
            9 => self.obp1 = val,  //Object palette 2
            0xa => self.wy = val,  //Window Y
            _ => self.wx = val,  //Window X
        }
    }
}

} // verus!
