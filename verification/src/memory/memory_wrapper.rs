use vstd::prelude::*;

use crate::audio::AudioController;
use crate::cartridge::cartridge::Cartridge;
use crate::interrupt::Interrupt;
use crate::joypad::Joypad;
use crate::screen::screen::Screen;

verus! {

/// A device that answers reads and writes at offsets of its own address range.
pub trait AsMemory {
    /// `memory_map(addr)` is defined at this offset.
    spec fn readable(&self, addr: usize) -> bool;

    /// `memory_write(addr, _)` is defined at this offset.
    spec fn writable(&self, addr: usize) -> bool;

    fn memory_map(&mut self, addr: usize) -> u8
        requires
            old(self).readable(addr),
    ;

    fn memory_write(&mut self, addr: usize, val: u8)
        requires
            old(self).writable(addr),
    ;
}

} // verus!

verus! {

/// The timer registers DIV (the high byte of `divider`), TIMA, TMA and TAC.
#[derive(Clone, Copy, PartialEq, Eq, Structural, Debug)]
pub struct Timer {
    pub divider: u16,  //Divider The div is the visible part of the system counter
    pub tima: u8,  //Timer counter.
    pub tma: u8,  //Timer reload.
    pub tac: u8,  //Timer control
}

/// The bit of the divider whose falling to zero (every `2^k` counts) ticks
/// TIMA, for the clock select `tac % 4`: 8, 2, 4, 6.
pub open spec fn timer_frequency(tac: u8) -> u16 {
    if tac % 4 == 0 {
        8
    } else if tac % 4 == 1 {
        2
    } else if tac % 4 == 2 {
        4
    } else {
        6
    }
}

impl Timer {
    /// TIMA ticks on this clock: the timer is enabled (TAC bit 2) and the
    /// incremented divider is a multiple of `2^timer_frequency(tac)`.
    pub open spec fn ticks(&self) -> bool {
        self.tac & 0x04 > 0 && (self.divider.wrapping_add(1) % (1u16 << timer_frequency(self.tac))) == 0
    }

    /// The timer after one clock: the divider counts up (wrapping); on a
    /// tick TIMA counts up, and on overflow it is reloaded from TMA.
    pub open spec fn clocked(self) -> Timer {
        let d = self.divider.wrapping_add(1);
        if self.ticks() {
            if self.tima == 255 {
                Timer { divider: d, tima: self.tma, ..self }
            } else {
                Timer { divider: d, tima: (self.tima + 1) as u8, ..self }
            }
        } else {
            Timer { divider: d, ..self }
        }
    }

    /// Advances the timer by one clock (see `clocked`); returns the timer
    /// interrupt when TIMA overflows.
    pub fn on_clock(&mut self) -> (r: Option<Interrupt>)
        ensures
            *final(self) == old(self).clocked(),
            r == if old(self).ticks() && old(self).tima == 255 { Some(Interrupt::Timer) } else { None },
    {
        self.divider = self.divider.wrapping_add(1);
        let frequency: u16 = match self.tac % 4 {
            0 => 8,  //Every 256 m cycles
            1 => 2,  //4 M cycles
            2 => 4,  //16 m cycles
            _ => 6,  //64 m cycles.
        };
        assert(1u16 << 8u16 == 256 && 1u16 << 2u16 == 4 && 1u16 << 4u16 == 16 && 1u16 << 6u16 == 64) by (bit_vector);
        //If timer is enabled. If we hit 0 on the internal divider.
        if (self.tac & 0x04 > 0) && ((self.divider % (1u16 << frequency)) == 0) {
            let overflow: bool = self.tima == 255;
            self.tima = self.tima.wrapping_add(1);
            if overflow {
                self.tima = self.tma;
                return Some(Interrupt::Timer);
            }
        }
        None
    }

    /// The register at offset `addr` (0..=3): DIV, TIMA, TMA, TAC.
    pub open spec fn register(&self, addr: int) -> u8 {
        if addr == 0 {
            ((self.divider & 0xFF00) >> 8u16) as u8
        } else if addr == 1 {
            self.tima
        } else if addr == 2 {
            self.tma
        } else {
            self.tac
        }
    }

    /// The timer after a write of `val` at offset `addr` (0..=3): any write
    /// to DIV resets the divider.
    pub open spec fn written(self, addr: int, val: u8) -> Timer {
        if addr == 0 {
            Timer { divider: 0, ..self }
        } else if addr == 1 {
            Timer { tima: val, ..self }
        } else if addr == 2 {
            Timer { tma: val, ..self }
        } else {
            Timer { tac: val, ..self }
        }
    }
}

impl AsMemory for Timer {
    open spec fn readable(&self, addr: usize) -> bool {
        addr <= 3
    }

    open spec fn writable(&self, addr: usize) -> bool {
        addr <= 3
    }

    fn memory_map(&mut self, addr: usize) -> (r: u8)
        ensures
            r == old(self).register(addr as int),
            *final(self) == *old(self),
    {
        match addr {
            0 => ((self.divider & 0xFF00) >> 8u16) as u8,
            1 => self.tima,
            2 => self.tma,
            _ => self.tac,
        }
    }

    fn memory_write(&mut self, addr: usize, val: u8)
        ensures
            *final(self) == old(self).written(addr as int, val),
    {
        match addr {
            0 => self.divider = 0,
            1 => self.tima = val,
            2 => self.tma = val,
            _ => self.tac = val,
        }
    }
}

/// An object memory DMA transfer: while active, byte `addr_l` of the page
/// `addr_u` is copied to object memory on each clock.
#[derive(Clone, Copy, PartialEq, Eq, Structural, Debug)]
pub struct DmaTransfer {
    pub active: bool,
    pub addr_u: usize,
    pub addr_l: usize,
}

} // verus!

verus! {

broadcast use vstd::array::group_array_axioms;

/// The value that reading the joypad register gives and leaves in it.
pub open spec fn joypad_read_value(js: u8) -> u8 {
    if js | 0x0F < 0x30 {
        0
    } else {
        js | 0x0F
    }
}

/// The address space of the machine: boot ROM, cartridge, video memory,
/// work RAM, object memory, I/O registers, high RAM and the interrupt
/// registers, with the cycles that memory accesses cost (`wait`).
pub struct MemWrap {
    pub boot_rom: [u8; 256],
    pub cart: Cartridge,
    pub work_ram: [u8; 8192],  // For CGB, switchable bank
    pub ppu: Screen,
    pub high_ram: [u8; 127],
    pub dma: DmaTransfer,
    pub wait: u8,
    pub joypad: Joypad,  //FF00
    pub timer: Timer,
    pub iflag: u8,
    pub audio_controller: AudioController,
    pub boot_control: u8,
    pub interrupts_enabled: u8,
}

impl MemWrap {
    /// The I/O register at offset `off` from 0xFF00 can be read.
    pub open spec fn io_readable(&self, off: usize) -> bool {
        ||| off <= 7
        ||| off == 0x0f
        ||| (0x10 <= off < 0x26 && self.audio_controller.readable((off - 0x10) as usize))
        ||| (0x40 <= off <= 0x4b)
        ||| off == 0x50
    }

    /// The I/O register at offset `off` from 0xFF00, as read.
    pub open spec fn io_value(&self, off: usize) -> u8 {
        if off == 0 {
            joypad_read_value(self.joypad.joypad_state)
        } else if off <= 3 {
            0
        } else if off <= 7 {
            self.timer.register(off - 4)
        } else if off == 0x0f {
            0xE0 | self.iflag
        } else if off < 0x26 {
            self.audio_controller.register(off - 0x10)
        } else if off <= 0x4b {
            self.ppu.vc.register(off - 0x40)
        } else {
            self.boot_control % 2
        }
    }

    /// The byte that `memory_map(addr)` returns. During a DMA transfer only
    /// high RAM can be read; every other address reads 0xFF.
    pub open spec fn peek(&self, addr: usize) -> u8 {
        if self.dma.active && !(0xFF80 <= addr <= 0xFFFE) {
            0xFF
        } else if addr <= 0x00ff {
            if self.boot_control == 0 {
                self.boot_rom[addr as int]
            } else {
                self.cart.peek(addr)
            }
        } else if addr <= 0x7FFF {
            self.cart.peek(addr)
        } else if addr <= 0x9FFF {
            if !self.ppu.drawing() || !self.ppu.lcd_on() { self.ppu.vram.byte(addr - 0x8000) } else { 0xff }
        } else if addr <= 0xBFFF {
            self.cart.peek(addr)
        } else if addr <= 0xDFFF {
            self.work_ram[addr - 0xC000]
        } else if addr <= 0xFE9F {
            if self.ppu.vc.stat % 4 < 3 || !self.ppu.lcd_on() { self.ppu.oam.byte(addr - 0xFE00) } else { 0xff }
        } else if addr <= 0xFF7F {
            self.io_value((addr - 0xFF00) as usize)
        } else if addr <= 0xFFFE {
            self.high_ram[addr - 0xFF80]
        } else {
            self.iflag
        }
    }

    /// The memory after `memory_map(addr)`: reading the joypad register
    /// (outside a DMA transfer) leaves the value read in it; other reads
    /// change nothing.
    pub open spec fn after_read(self, addr: usize) -> MemWrap {
        if addr == 0xFF00 && !self.dma.active {
            MemWrap { joypad: Joypad { joypad_state: joypad_read_value(self.joypad.joypad_state), ..self.joypad }, ..self }
        } else {
            self
        }
    }

    /// The I/O register at offset `off` from 0xFF00 can be written.
    pub open spec fn io_writable(&self, off: usize) -> bool {
        ||| off == 0
        ||| (4 <= off <= 7)
        ||| off == 0x0f
        ||| (0x10 <= off <= 0x3f && self.audio_controller.writable((off - 0x10) as usize))
        ||| (0x40 <= off <= 0x4b)
        ||| off == 0x50
    }

    /// The memory after a write of `val` to the I/O register at offset `off`.
    pub open spec fn io_written(self, off: usize, val: u8) -> MemWrap {
        if off == 0 {
            MemWrap { joypad: Joypad { joypad_state: val & 0x30, ..self.joypad }, ..self }
        } else if off <= 7 {
            MemWrap { timer: self.timer.written(off - 4, val), ..self }
        } else if off == 0x0f {
            MemWrap { iflag: 0xE0 | val, ..self }
        } else if off <= 0x3f {
            MemWrap { audio_controller: self.audio_controller.written(off - 0x10, val), ..self }
        } else if off <= 0x4b {
            MemWrap { ppu: Screen { vc: self.ppu.vc.written(off - 0x40, val), ..self.ppu }, ..self }
        } else {
            MemWrap { boot_control: 0x01, ..self }
        }
    }

    /// The memory with the DMA start that a write of `val` to 0xFF46 makes.
    pub open spec fn dma_started(self, addr: usize, val: u8) -> MemWrap {
        if addr == 0xFF46 {
            MemWrap { dma: DmaTransfer { active: true, addr_u: val as usize, addr_l: 0 }, ..self }
        } else {
            self
        }
    }

    /// `new` is this memory after `memory_write(addr, val)`. During a DMA
    /// transfer only high RAM can be written. Otherwise a write to 0xFF46
    /// starts a transfer (and is also stored in the DMA register), and the
    /// write goes where the address map sends it; writes to the video memory
    /// range land in object memory and writes to the object memory range in
    /// video memory (see `Screen::write_vram`, `Screen::write_oam`).
    pub open spec fn written(&self, new: &MemWrap, addr: usize, val: u8) -> bool {
        if self.dma.active {
            *new == if 0xFF80 <= addr <= 0xFFFE {
                MemWrap { high_ram: vstd::array::spec_array_update(self.high_ram, addr - 0xFF80, val), ..*self }
            } else {
                *self
            }
        } else {
            let s = self.dma_started(addr, val);
            if addr <= 0x7FFF {
                s.cart.written(&new.cart, addr, val) && *new == MemWrap { cart: new.cart, ..s }
            } else if addr <= 0x9FFF {
                *new == MemWrap {
                    ppu: if s.ppu.vc.stat % 4 < 3 || !s.ppu.lcd_on() {
                        Screen { oam: s.ppu.oam.with_byte(addr - 0x8000, val), ..s.ppu }
                    } else {
                        s.ppu
                    },
                    ..s
                }
            } else if addr <= 0xBFFF {
                s.cart.written(&new.cart, (addr - 0xa000) as usize, val) && *new == MemWrap { cart: new.cart, ..s }
            } else if addr <= 0xDFFF {
                *new == MemWrap { work_ram: vstd::array::spec_array_update(s.work_ram, addr - 0xc000, val), ..s }
            } else if addr <= 0xFE9F {
                *new == MemWrap {
                    ppu: if !s.ppu.drawing() || !s.ppu.lcd_on() {
                        Screen { vram: s.ppu.vram.with_byte(addr - 0xFE00, val), ..s.ppu }
                    } else {
                        s.ppu
                    },
                    ..s
                }
            } else if addr <= 0xFF7F {
                *new == s.io_written((addr - 0xFF00) as usize, val)
            } else if addr <= 0xFFFE {
                *new == MemWrap { high_ram: vstd::array::spec_array_update(s.high_ram, addr - 0xFF80, val), ..s }
            } else {
                *new == MemWrap { iflag: val, ..s }
            }
        }
    }
}

impl AsMemory for MemWrap {
    /// During a DMA transfer every read is defined; otherwise echo RAM
    /// (0xE000..=0xFDFF), 0xFEA0..=0xFEFF, unmapped I/O registers and what
    /// the cartridge cannot read are not readable.
    open spec fn readable(&self, addr: usize) -> bool {
        if self.dma.active {
            true
        } else if addr <= 0x00ff {
            self.boot_control == 0 || self.cart.readable(addr)
        } else if addr <= 0x7FFF {
            self.cart.readable(addr)
        } else if addr <= 0x9FFF {
            true
        } else if addr <= 0xBFFF {
            self.cart.readable(addr)
        } else if addr <= 0xDFFF {
            true
        } else if addr <= 0xFDFF {
            false
        } else if addr <= 0xFE9F {
            true
        } else if addr <= 0xFEFF {
            false
        } else if addr <= 0xFF7F {
            self.io_readable((addr - 0xFF00) as usize)
        } else {
            addr <= 0xFFFF
        }
    }

    /// During a DMA transfer every write is defined; otherwise echo RAM,
    /// 0xFEA0..=0xFEFF, the serial and unmapped I/O registers, and what the
    /// cartridge or the PPU cannot take are not writable.
    open spec fn writable(&self, addr: usize) -> bool {
        self.dma.active || (
            if addr <= 0x7FFF {
                self.cart.writable(addr)
            } else if addr <= 0x9FFF {
                self.ppu.vram_write_ok((addr - 0x8000) as usize)
            } else if addr <= 0xBFFF {
                self.cart.writable((addr - 0xa000) as usize)
            } else if addr <= 0xDFFF {
                true
            } else if addr <= 0xFDFF {
                false
            } else if addr <= 0xFE9F {
                true
            } else if addr <= 0xFEFF {
                false
            } else if addr <= 0xFF7F {
                self.io_writable((addr - 0xFF00) as usize)
            } else {
                addr <= 0xFFFF
            }
        )
    }

    fn memory_map(&mut self, addr: usize) -> (r: u8)
        ensures
            r == old(self).peek(addr),
            *final(self) == old(self).after_read(addr),
    {
        if self.dma.active {
            //We can only access high ram during DMA transfer
            if 0xFF80 <= addr && addr <= 0xFFFE {
                return self.high_ram[addr - 0xFF80];
            } else {
                return 0xFF;
            }
        }
        if addr <= 0x00ff {
            if self.boot_control == 0 {
                self.boot_rom[addr]
            } else {
                self.cart.memory_map(addr)
            }
        } else if addr <= 0x7FFF {
            self.cart.memory_map(addr)  //ROM
        } else if addr <= 0x9FFF {
            self.ppu.read_vram(addr - 0x8000)  //VRAM
        } else if addr <= 0xBFFF {
            self.cart.memory_map(addr)  //External bus
        } else if addr <= 0xDFFF {
            self.work_ram[addr - 0xC000]  //WRAM
        } else if addr <= 0xFE9F {
            self.ppu.read_oam(addr - 0xFE00)  // OAM
        } else if addr <= 0xFF7F {
            let off = addr - 0xFF00;
            if off == 0x00 {
                self.joypad.read()
            } else if off <= 0x03 {
                0  //Serial
            } else if off <= 0x07 {
                self.timer.memory_map(addr - 0xff04)
            } else if off == 0x0f {
                0xE0 | self.iflag
            } else if off < 0x26 {
                self.audio_controller.memory_map(addr - 0xff10)
            } else if off <= 0x4b {
                self.ppu.vc.memory_map(addr - 0xff40)
            } else {
                self.boot_control % 2
            }
        } else if addr <= 0xFFFE {
            self.high_ram[addr - 0xFF80]  //High ram
        } else {
            self.iflag
        }
    }

    fn memory_write(&mut self, addr: usize, val: u8)
        ensures
            old(self).written(final(self), addr, val),
    {
        if self.dma.active {
            //We can only access high ram during DMA transfer
            if 0xFF80 <= addr && addr <= 0xFFFE {
                self.high_ram[addr - 0xFF80] = val;
                proof {
                    assert(self.high_ram =~= vstd::array::spec_array_update(old(self).high_ram, addr - 0xFF80, val));
                }
            }
        } else {
            if addr == 0xFF46 {
                self.dma = DmaTransfer { active: true, addr_u: val as usize, addr_l: 0 };
            }
            let ghost s = *self;
            if addr <= 0x7FFF {
                self.cart.memory_write(addr, val)  //ROM
            } else if addr <= 0x9FFF {
                self.ppu.write_vram(addr - 0x8000, val)  //VRAM
            } else if addr <= 0xBFFF {
                self.cart.memory_write(addr - 0xa000, val)  //External Ram
            } else if addr <= 0xDFFF {
                self.work_ram[addr - 0xc000] = val;  //WRAM
                proof {
                    assert(self.work_ram =~= vstd::array::spec_array_update(s.work_ram, addr - 0xc000, val));
                }
            } else if addr <= 0xFE9F {
                self.ppu.write_oam(addr - 0xFE00, val)  // OAM
            } else if addr <= 0xFF7F {
                let off = addr - 0xFF00;
                if off == 0x0000 {
                    self.joypad.write(val)
                } else if off <= 0x0007 {
                    self.timer.memory_write(addr - 0xff04, val)
                } else if off == 0x000f {
                    self.iflag = 0xE0 | val
                } else if off <= 0x003f {
                    self.audio_controller.memory_write(addr - 0xff10, val)
                } else if off <= 0x4b {
                    self.ppu.vc.memory_write(addr - 0xff40, val)
                } else {
                    self.boot_control = 0x01
                }
            } else if addr <= 0xFFFE {
                self.high_ram[addr - 0xFF80] = val;  //High ram
                proof {
                    assert(self.high_ram =~= vstd::array::spec_array_update(s.high_ram, addr - 0xFF80, val));
                }
            } else {
                self.iflag = val
            }
        }
    }
}

} // verus!

verus! {

impl MemWrap {
    /// The source address of the next DMA byte.
    pub open spec fn dma_source(&self) -> int {
        self.dma.addr_u * 256 + self.dma.addr_l
    }

    /// `dma` is defined: the next byte goes to an object memory offset and
    /// comes from ROM, video memory, external RAM or work RAM that can be read.
    pub open spec fn dma_ok(&self) -> bool {
        let a = self.dma_source();
        &&& self.dma.addr_l < 160
        &&& self.dma.addr_u < 0x100
        &&& a < 0xE000
        &&& ((a <= 0x7FFF || 0xA000 <= a <= 0xBFFF) ==> self.cart.readable(a as usize))
    }

    /// The next byte that DMA copies.
    pub open spec fn dma_value(&self) -> u8 {
        let a = self.dma_source();
        if a <= 0x7FFF {
            self.cart.peek(a as usize)
        } else if a <= 0x9FFF {
            self.ppu.vram.byte(a - 0x8000)
        } else if a <= 0xBFFF {
            self.cart.peek(a as usize)
        } else {
            self.work_ram[a - 0xC000]
        }
    }

    /// The transfer after one byte: the offset moves on, and the transfer
    /// ends after 160 bytes.
    pub open spec fn dma_stepped(&self) -> DmaTransfer {
        if self.dma.addr_l + 1 == 160 {
            DmaTransfer { active: false, addr_u: 0, addr_l: 0 }
        } else {
            DmaTransfer { addr_l: (self.dma.addr_l + 1) as usize, ..self.dma }
        }
    }

    /// Copies one byte of the DMA transfer into object memory.
    pub fn dma(&mut self)
        requires
            old(self).dma_ok(),
        ensures
            *final(self) == (MemWrap {
                ppu: Screen { oam: old(self).ppu.oam.with_byte(old(self).dma.addr_l as int, old(self).dma_value()), ..old(self).ppu },
                dma: old(self).dma_stepped(),
                ..*old(self)
            }),
    {
        let hi = self.dma.addr_u;
        assert(hi << 8usize == hi * 256) by (bit_vector)
            requires hi < 0x100usize;
        let addr = 0x0000 + ((self.dma.addr_u) << 8usize) + self.dma.addr_l;
        let source = if addr <= 0x7FFF {
            self.cart.memory_map(addr)  //ROM
        } else if addr <= 0x9FFF {
            self.ppu.vram.memory_map(addr - 0x8000)  //VRAM
        } else if addr <= 0xBFFF {
            self.cart.memory_map(addr)  //External bus
        } else {
            self.work_ram[addr - 0xC000]
        };
        self.ppu.oam.memory_write(self.dma.addr_l, source);
        self.dma.addr_l = self.dma.addr_l + 1;
        if self.dma.addr_l == 160 {
            self.dma = DmaTransfer { active: false, addr_u: 0, addr_l: 0 }
        }
    }

    /// `on_clock` is defined: the PPU can take the dot, and an active DMA
    /// transfer can copy its next byte.
    pub open spec fn clock_ok(&self) -> bool {
        self.ppu.clock_ok() && (self.dma.active ==> self.dma_ok())
    }

    /// The interrupt flags after one clock with the buttons `pressed`: the
    /// PPU's first interrupt sets bit 0 when IE is odd; its second sets bit
    /// 1 when `(IE % 2) >> 1 == 1`; a timer overflow sets bit 2 when
    /// `IE >> (2 % 2) == 1`; an input change sets bit 4 when `(IE % 4) >> 1 == 1`.
    pub open spec fn clocked_iflag(&self, pressed: [bool; 8]) -> u8 {
        let ie = self.interrupts_enabled;
        let f1 = if self.ppu.next_vblank() is Some && ie % 2 == 1 { self.iflag | 0x01 } else { self.iflag };
        let f2 = if self.ppu.next_lcdc() is Some && (ie % 2) >> 1u8 == 1 { f1 | 0x02 } else { f1 };
        let f3 = if self.timer.ticks() && self.timer.tima == 255 && ie >> (2u8 % 2) == 1 { f2 | 0x04 } else { f2 };
        if self.joypad.input_changed(pressed) && (ie % 4) >> 1u8 == 1 { f3 | 0x10 } else { f3 }
    }

    /// `new` is this memory after one clock with the buttons `pressed`
    /// (see `on_clock`), which answered `clear_queue`.
    pub open spec fn clocked_to(&self, new: &MemWrap, pressed: [bool; 8], clear_queue: bool) -> bool {
        &&& self.ppu.clocked(Screen { oam: self.ppu.oam, ..new.ppu })
        &&& new.ppu.oam == if self.dma.active {
            self.ppu.oam.with_byte(self.dma.addr_l as int, self.dma_value())
        } else {
            self.ppu.oam
        }
        &&& new.dma == if self.dma.active { self.dma_stepped() } else { self.dma }
        &&& new.timer == self.timer.clocked()
        &&& new.iflag == self.clocked_iflag(pressed)
        &&& clear_queue == crate::audio::SquareSweep::silenced(self.audio_controller.audio_master_control)
        &&& new.audio_controller == (AudioController {
            audio_channel1: if clear_queue {
                crate::audio::SquareSweep { sweep: 0, sound_length: 0, envelope: 0, frequency: 0, control: 0, ..self.audio_controller.audio_channel1 }
            } else {
                self.audio_controller.audio_channel1
            },
            ..self.audio_controller
        })
        &&& new.boot_rom == self.boot_rom
        &&& new.cart == self.cart
        &&& new.work_ram == self.work_ram
        &&& new.high_ram == self.high_ram
        &&& new.wait == self.wait
        &&& new.joypad == self.joypad
        &&& new.boot_control == self.boot_control
        &&& new.interrupts_enabled == self.interrupts_enabled
    }

    /// Advances the machine's devices by one clock: the PPU takes a dot, a
    /// DMA transfer copies a byte, the timer counts, the buttons `pressed`
    /// are compared, the sound runs; interrupts are flagged (see
    /// `clocked_iflag`). Returns whether channel 1's sample queue must be
    /// emptied.
    #[verifier::rlimit(40)]
    pub fn on_clock(&mut self, pressed: [bool; 8]) -> (clear_queue: bool)
        requires
            old(self).clock_ok(),
        ensures
            old(self).clocked_to(final(self), pressed, clear_queue),
    {
        let video_interrupts = self.ppu.on_clock();
        if video_interrupts.0.is_some() {
            //LCDC
            if self.interrupts_enabled % 2 == 1 {
                self.iflag = self.iflag | 0x01;
            }
        }
        if video_interrupts.1.is_some() {
            //VBLANK
            if (self.interrupts_enabled % 2) >> 1u8 == 1 {
                self.iflag = self.iflag | 0x02;
            }
        }
        if self.dma.active {
            self.dma()
        }
        if self.timer.on_clock().is_some() {
            if self.interrupts_enabled >> (2u8 % 2) == 1 {
                self.iflag = self.iflag | 0x04;
            }
        }
        if self.joypad.on_clock(pressed).is_some() {
            if (self.interrupts_enabled % 4) >> 1u8 == 1 {
                self.iflag = self.iflag | 0x10;
            }
        }
        self.audio_controller.handle_audio(self.timer.divider)
    }
}

} // verus!

verus! {

impl MemWrap {
    /// This is the address space at power-on with the given devices, boot
    /// ROM and cartridge (see `new`): cleared RAM, no transfer or wait,
    /// timer and interrupt registers zero, and the screen at power-on.
    pub open spec fn is_fresh(&self, joypad: Joypad, audio: AudioController, boot_rom: [u8; 256], cartridge: Cartridge) -> bool {
        &&& self.boot_rom == boot_rom
        &&& self.cart == cartridge
        &&& self.joypad == joypad
        &&& self.audio_controller == audio
        &&& forall|i: int| 0 <= i < 8192 ==> #[trigger] self.work_ram[i] == 0
        &&& forall|i: int| 0 <= i < 127 ==> #[trigger] self.high_ram[i] == 0
        &&& self.dma == (DmaTransfer { active: false, addr_u: 0, addr_l: 0 })
        &&& self.wait == 0
        &&& self.timer == (Timer { divider: 0, tima: 0, tma: 0, tac: 0 })
        &&& self.iflag == 0 && self.boot_control == 0 && self.interrupts_enabled == 0
        &&& self.ppu.at_power_on()
    }

    /// The address space at power-on: the boot ROM mapped over the
    /// cartridge, cleared RAM, no transfer, no pending wait.
    pub fn new(joypad: Joypad, audio: AudioController, boot_rom: [u8; 256], cartridge: Cartridge) -> (r: MemWrap)
        ensures
            r.is_fresh(joypad, audio, boot_rom, cartridge),
    {
        Self {
            cart: cartridge,
            boot_rom: boot_rom,
            work_ram: crate::cartridge::mbc::zeroed(),
            high_ram: crate::cartridge::mbc::zeroed(),
            ppu: Screen::new(),
            dma: DmaTransfer { active: false, addr_u: 0, addr_l: 0 },
            wait: 0,
            joypad: joypad,
            timer: Timer { divider: 0, tima: 0, tma: 0, tac: 0 },
            iflag: 0,
            boot_control: 0,
            interrupts_enabled: 0,  //Interrupts
            audio_controller: audio,
        }
    }

    /// Reads a byte; the access costs two cycles of wait.
    pub fn grab_memory_8(&mut self, addr: u16) -> (r: u8)
        requires
            old(self).readable(addr as usize),
        ensures
            r == old(self).peek(addr as usize),
            *final(self) == (MemWrap { wait: old(self).wait.wrapping_add(2), ..old(self).after_read(addr as usize) }),
    {
        self.wait = self.wait.wrapping_add(2);
        self.memory_map(addr as usize)
    }

    /// Reads a little-endian word: the byte at `addr + 1` (wrapping) is the
    /// high byte and is read first; the access costs four cycles of wait.
    pub fn grab_memory_16(&mut self, addr: u16) -> (r: u16)
        requires
            old(self).readable(addr.wrapping_add(1) as usize),
            old(self).readable(addr as usize),
        ensures
            r == old(self).peek(addr.wrapping_add(1) as usize) * 256 + old(self).after_read(addr.wrapping_add(1) as usize).peek(addr as usize),
            *final(self) == (MemWrap {
                wait: old(self).wait.wrapping_add(4),
                ..old(self).after_read(addr.wrapping_add(1) as usize).after_read(addr as usize)
            }),
    {
        self.wait = self.wait.wrapping_add(4);
        let high_byte = self.memory_map(addr.wrapping_add(1) as usize);
        let low_byte = self.memory_map(addr as usize);
        (high_byte as u16) * 256 + (low_byte as u16)
    }

    /// Reads the three bytes from `addr` on (wrapping), each as `grab_memory_8`.
    pub fn grab_memory_24(&mut self, addr: u16) -> (r: [u8; 3])
        requires
            old(self).readable(addr as usize),
            old(self).readable(addr.wrapping_add(1) as usize),
            old(self).readable(addr.wrapping_add(2) as usize),
        ensures
            ({
                let s1 = MemWrap { wait: old(self).wait.wrapping_add(2), ..old(self).after_read(addr as usize) };
                let s2 = MemWrap { wait: s1.wait.wrapping_add(2), ..s1.after_read(addr.wrapping_add(1) as usize) };
                &&& r[0] == old(self).peek(addr as usize)
                &&& r[1] == s1.peek(addr.wrapping_add(1) as usize)
                &&& r[2] == s2.peek(addr.wrapping_add(2) as usize)
                &&& *final(self) == (MemWrap { wait: s2.wait.wrapping_add(2), ..s2.after_read(addr.wrapping_add(2) as usize) })
            }),
    {
        let b0 = self.grab_memory_8(addr);
        let b1 = self.grab_memory_8(addr.wrapping_add(1));
        let b2 = self.grab_memory_8(addr.wrapping_add(2));
        [b0, b1, b2]
    }

    /// Writes a byte.
    pub fn set_memory_8(&mut self, addr: u16, value: u8)
        requires
            old(self).writable(addr as usize),
        ensures
            old(self).written(final(self), addr as usize, value),
    {
        self.memory_write(addr as usize, value);
    }

    /// Writes a little-endian word (see `word_written`).
    pub fn set_memory_16(&mut self, addr: u16, value: u16)
        requires
            old(self).writable(addr.wrapping_add(1) as usize),
            forall|mid: MemWrap| old(self).written(&mid, addr.wrapping_add(1) as usize, (value >> 8u16) as u8) ==> #[trigger] mid.writable(addr as usize),
        ensures
            exists|mid: MemWrap|
                old(self).written(&mid, addr.wrapping_add(1) as usize, (value >> 8u16) as u8)
                && #[trigger] mid.written(final(self), addr as usize, (value % 256) as u8),
    {
        self.memory_write(addr.wrapping_add(1) as usize, (value >> 8u16) as u8);
        let ghost mid = *self;
        self.memory_write(addr as usize, (value % 256) as u8);
        assert(mid.written(self, addr as usize, (value % 256) as u8));
    }
}

} // verus!

verus! {

impl MemWrap {
    fn audio_can_read(off: usize) -> (r: bool)
        ensures
            r == (off <= 4 || (6 <= off <= 0xE) || (0x10 <= off <= 0x16) || off == 0x20),
    {
        off <= 4 || (6 <= off && off <= 0xE) || (0x10 <= off && off <= 0x16) || off == 0x20
    }

    fn audio_can_write(off: usize) -> (r: bool)
        ensures
            r == (off <= 4 || (6 <= off <= 0xE) || (0x10 <= off <= 0x16) || (0x20 <= off <= 0x2F)),
    {
        off <= 4 || (6 <= off && off <= 0xE) || (0x10 <= off && off <= 0x16) || (0x20 <= off && off <= 0x2F)
    }

    /// Whether `memory_map(addr)` is defined (see `readable`).
    pub fn can_read(&self, addr: usize) -> (r: bool)
        ensures
            r == self.readable(addr),
    {
        if self.dma.active {
            return true;
        }
        if addr <= 0x00ff {
            self.boot_control == 0 || self.cart.can_read(addr)
        } else if addr <= 0x7FFF {
            self.cart.can_read(addr)
        } else if addr <= 0x9FFF {
            true
        } else if addr <= 0xBFFF {
            self.cart.can_read(addr)
        } else if addr <= 0xDFFF {
            true
        } else if addr <= 0xFDFF {
            false
        } else if addr <= 0xFE9F {
            true
        } else if addr <= 0xFEFF {
            false
        } else if addr <= 0xFF7F {
            let off = addr - 0xFF00;
            off <= 7 || off == 0x0f || (0x10 <= off && off < 0x26 && MemWrap::audio_can_read(off - 0x10)) || (0x40 <= off && off <= 0x4b) || off == 0x50
        } else {
            addr <= 0xFFFF
        }
    }

    /// Whether `memory_write(addr, _)` is defined (see `writable`).
    pub fn can_write(&self, addr: usize) -> (r: bool)
        ensures
            r == self.writable(addr),
    {
        if self.dma.active {
            return true;
        }
        if addr <= 0x7FFF {
            self.cart.can_write(addr)
        } else if addr <= 0x9FFF {
            !(self.ppu.vc.stat % 4 < 3 || !crate::screen::screen::bit(self.ppu.vc.lcdc, 7)) || addr - 0x8000 < 160
        } else if addr <= 0xBFFF {
            self.cart.can_write(addr - 0xa000)
        } else if addr <= 0xDFFF {
            true
        } else if addr <= 0xFDFF {
            false
        } else if addr <= 0xFE9F {
            true
        } else if addr <= 0xFEFF {
            false
        } else if addr <= 0xFF7F {
            let off = addr - 0xFF00;
            off == 0 || (4 <= off && off <= 7) || off == 0x0f || (0x10 <= off && off <= 0x3f && MemWrap::audio_can_write(off - 0x10)) || (0x40 <= off && off <= 0x4b) || off == 0x50
        } else {
            addr <= 0xFFFF
        }
    }

    /// Whether `on_clock` is defined (see `clock_ok`).
    pub fn can_clock(&self) -> (r: bool)
        ensures
            r == self.clock_ok(),
    {
        if !self.ppu.can_clock() {
            return false;
        }
        if !self.dma.active {
            return true;
        }
        if !(self.dma.addr_l < 160 && self.dma.addr_u < 0x100) {
            return false;
        }
        let a = self.dma.addr_u * 256 + self.dma.addr_l;
        a < 0xE000 && (!(a <= 0x7FFF || (0xA000 <= a && a <= 0xBFFF)) || self.cart.can_read(a))
    }
}

} // verus!
