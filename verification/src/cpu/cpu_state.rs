use vstd::prelude::*;

use crate::audio::AudioController;
use crate::cartridge::cartridge::Cartridge;
use crate::cpu::registers::{flag_bit, DoubleReg, Flag, SingleReg};
use crate::joypad::Joypad;
use crate::memory::memory_wrapper::{AsMemory, MemWrap};

verus! {

/// The registers together with the address space, reading operands through
/// memory at PC.
pub struct CpuState {
    pub memory: MemWrap,
    pub a: u8,
    pub b: u8,
    pub c: u8,
    pub d: u8,
    pub e: u8,
    pub f: u8,
    pub h: u8,
    pub l: u8,
    pub sp: u16,
    pub pc: u16,
}

/// The 8-bit register numbered `n` (0..=7) in opcodes.
pub open spec fn single_of(n: u8) -> SingleReg {
    if n == 0 {
        SingleReg::B
    } else if n == 1 {
        SingleReg::C
    } else if n == 2 {
        SingleReg::D
    } else if n == 3 {
        SingleReg::E
    } else if n == 4 {
        SingleReg::H
    } else if n == 5 {
        SingleReg::L
    } else if n == 6 {
        SingleReg::Memptr
    } else {
        SingleReg::A
    }
}

/// The register pair numbered `k` (0..=3) among `p0`..`p3`.
pub open spec fn pair_of(k: u8, p0: DoubleReg, p1: DoubleReg, p2: DoubleReg, p3: DoubleReg) -> DoubleReg {
    if k == 0 {
        p0
    } else if k == 1 {
        p1
    } else if k == 2 {
        p2
    } else {
        p3
    }
}

impl CpuState {
    /// HL.
    pub open spec fn hl(&self) -> u16 {
        (self.h * 256 + self.l) as u16
    }

    /// The value of a register pair (HL+ and HL- give HL).
    pub open spec fn pair(&self, reg: DoubleReg) -> u16 {
        match reg {
            DoubleReg::AF => (self.a * 256 + self.f) as u16,
            DoubleReg::BC => (self.b * 256 + self.c) as u16,
            DoubleReg::DE => (self.d * 256 + self.e) as u16,
            DoubleReg::HL | DoubleReg::HLP | DoubleReg::HLM => self.hl(),
            DoubleReg::SP => self.sp,
            DoubleReg::PC => self.pc,
        }
    }

    /// The state after reading a pair: HL+ and HL- step HL.
    pub open spec fn after_pair(self, reg: DoubleReg) -> CpuState {
        match reg {
            DoubleReg::HLP => {
                let n = self.hl().wrapping_add(1);
                CpuState { h: (n >> 8u16) as u8, l: n as u8, ..self }
            },
            DoubleReg::HLM => {
                let n = self.hl().wrapping_sub(1);
                CpuState { h: (n >> 8u16) as u8, l: n as u8, ..self }
            },
            _ => self,
        }
    }

    /// The state with a pair (not AF, HL+ or HL-) set.
    pub open spec fn with_pair(self, reg: DoubleReg, val: u16) -> CpuState {
        match reg {
            DoubleReg::BC => CpuState { b: (val >> 8u16) as u8, c: val as u8, ..self },
            DoubleReg::DE => CpuState { d: (val >> 8u16) as u8, e: val as u8, ..self },
            DoubleReg::HL => CpuState { h: (val >> 8u16) as u8, l: val as u8, ..self },
            DoubleReg::SP => CpuState { sp: val, ..self },
            _ => CpuState { pc: val, ..self },
        }
    }

    /// The value of an 8-bit register (`Memptr` is the byte at HL).
    pub open spec fn single(&self, reg: SingleReg) -> u8 {
        match reg {
            SingleReg::A => self.a,
            SingleReg::B => self.b,
            SingleReg::C => self.c,
            SingleReg::D => self.d,
            SingleReg::E => self.e,
            SingleReg::F => self.f,
            SingleReg::H => self.h,
            SingleReg::L => self.l,
            SingleReg::Memptr => self.memory.peek(self.hl() as usize),
        }
    }

    /// The state with an 8-bit register (not F, not `Memptr`) set.
    pub open spec fn with_single(self, reg: SingleReg, val: u8) -> CpuState {
        match reg {
            SingleReg::A => CpuState { a: val, ..self },
            SingleReg::B => CpuState { b: val, ..self },
            SingleReg::C => CpuState { c: val, ..self },
            SingleReg::D => CpuState { d: val, ..self },
            SingleReg::E => CpuState { e: val, ..self },
            SingleReg::H => CpuState { h: val, ..self },
            _ => CpuState { l: val, ..self },
        }
    }

    /// The state with the memory after reading `addr` as
    /// `MemWrap::grab_memory_8`.
    pub open spec fn read_at(self, addr: u16) -> CpuState {
        CpuState { memory: MemWrap { wait: self.memory.wait.wrapping_add(2), ..self.memory.after_read(addr as usize) }, ..self }
    }

    /// The state with the memory after reading the word at `addr` as
    /// `MemWrap::grab_memory_16`.
    pub open spec fn read16_at(self, addr: u16) -> CpuState {
        CpuState {
            memory: MemWrap {
                wait: self.memory.wait.wrapping_add(4),
                ..self.memory.after_read(addr.wrapping_add(1) as usize).after_read(addr as usize)
            },
            ..self
        }
    }

    /// The word at `addr` as `MemWrap::grab_memory_16` reads it.
    pub open spec fn word_at(&self, addr: u16) -> u16 {
        (self.memory.peek(addr.wrapping_add(1) as usize) * 256 + self.memory.after_read(addr.wrapping_add(1) as usize).peek(
            addr as usize,
        )) as u16
    }

    /// A state at power-on: registers cleared and a fresh address space.
    pub fn new(joypad: Joypad, audio_con: AudioController, boot_rom: [u8; 256], cartridge: Cartridge) -> (r: Self)
        ensures
            r.memory.is_fresh(joypad, audio_con, boot_rom, cartridge),
            r.a == 0 && r.b == 0 && r.c == 0 && r.d == 0 && r.e == 0 && r.f == 0 && r.h == 0 && r.l == 0,
            r.sp == 0 && r.pc == 0,
    {
        Self {
            memory: MemWrap::new(joypad, audio_con, boot_rom, cartridge),
            a: 0x00,
            b: 0x00,
            c: 0x00,
            d: 0x00,
            e: 0x00,
            f: 0x00,
            h: 0x00,
            l: 0x00,
            sp: 0x0000,
            pc: 0x0000,
        }
    }

    /// The register in bits 0..=2 of `opcode`.
    pub fn get_r8_end(&mut self, opcode: u8) -> (r: SingleReg)
        ensures
            r == single_of(opcode % 8),
            *final(self) == *old(self),
    {
        let n = opcode % 8;
        if n == 0 {
            SingleReg::B
        } else if n == 1 {
            SingleReg::C
        } else if n == 2 {
            SingleReg::D
        } else if n == 3 {
            SingleReg::E
        } else if n == 4 {
            SingleReg::H
        } else if n == 5 {
            SingleReg::L
        } else if n == 6 {
            SingleReg::Memptr
        } else {
            SingleReg::A
        }
    }

    /// The pair in bits 4..=5 of `opcode`: BC, DE, HL, SP.
    pub fn r16_tbl(&mut self, opcode: u8) -> (r: DoubleReg)
        ensures
            r == pair_of((opcode >> 4u8) % 4, DoubleReg::BC, DoubleReg::DE, DoubleReg::HL, DoubleReg::SP),
            *final(self) == *old(self),
    {
        let k = (opcode >> 4u8) % 4;
        let ret = if k == 0 {
            DoubleReg::BC
        } else if k == 1 {
            DoubleReg::DE
        } else if k == 2 {
            DoubleReg::HL
        } else {
            DoubleReg::SP
        };
        ret
    }

    /// The pair in bits 4..=5 of `opcode` for PUSH and POP: BC, DE, HL, AF.
    pub fn r16_stk_tbl(&mut self, opcode: u8) -> (r: DoubleReg)
        ensures
            r == pair_of((opcode >> 4u8) % 4, DoubleReg::BC, DoubleReg::DE, DoubleReg::HL, DoubleReg::AF),
            *final(self) == *old(self),
    {
        let k = (opcode >> 4u8) % 4;
        if k == 0 {
            DoubleReg::BC
        } else if k == 1 {
            DoubleReg::DE
        } else if k == 2 {
            DoubleReg::HL
        } else {
            DoubleReg::AF
        }
    }

    /// The pair in bits 4..=5 of `opcode` for loads through memory: BC,
    /// DE, HL+, HL-.
    pub fn r16_mem_tbl(&mut self, opcode: u8) -> (r: DoubleReg)
        ensures
            r == pair_of((opcode >> 4u8) % 4, DoubleReg::BC, DoubleReg::DE, DoubleReg::HLP, DoubleReg::HLM),
            *final(self) == *old(self),
    {
        let k = (opcode >> 4u8) % 4;
        if k == 0 {
            DoubleReg::BC
        } else if k == 1 {
            DoubleReg::DE
        } else if k == 2 {
            DoubleReg::HLP
        } else {
            DoubleReg::HLM
        }
    }

    /// Steps PC by one (wrapping) and returns it.
    pub fn inc_pc(&mut self) -> (r: u16)
        ensures
            r == old(self).pc.wrapping_add(1),
            *final(self) == (CpuState { pc: r, ..*old(self) }),
    {
        self.pc = self.pc.wrapping_add(1);
        self.pc
    }

    pub fn get_pc(&mut self) -> (r: u16)
        ensures
            r == old(self).pc,
            *final(self) == *old(self),
    {
        self.pc
    }

    pub fn set_pc(&mut self, amount: u16)
        ensures
            *final(self) == (CpuState { pc: amount, ..*old(self) }),
    {
        self.pc = amount;
    }

    /// Writes a byte at the address in a register pair.
    pub fn set_r16_mem_8(&mut self, reg: DoubleReg, val: u8)
        requires
            old(self).memory.writable(old(self).pair(reg) as usize),
        ensures
            old(self).memory.written(&final(self).memory, old(self).pair(reg) as usize, val),
            *final(self) == (CpuState { memory: final(self).memory, ..old(self).after_pair(reg) }),
    {
        let reg_val = self.get_r16(reg);
        self.memory.set_memory_8(reg_val, val)
    }

    /// Writes a word at the address in a register pair.
    pub fn set_r16_mem_16(&mut self, reg: DoubleReg, val: u16)
        requires
            old(self).memory.writable(old(self).pair(reg).wrapping_add(1) as usize),
            forall|mid: MemWrap|
                old(self).memory.written(&mid, old(self).pair(reg).wrapping_add(1) as usize, (val >> 8u16) as u8)
                    ==> #[trigger] mid.writable(old(self).pair(reg) as usize),
        ensures
            exists|mid: MemWrap|
                old(self).memory.written(&mid, old(self).pair(reg).wrapping_add(1) as usize, (val >> 8u16) as u8)
                && #[trigger] mid.written(&final(self).memory, old(self).pair(reg) as usize, (val % 256) as u8),
            *final(self) == (CpuState { memory: final(self).memory, ..old(self).after_pair(reg) }),
    {
        let reg_val = self.get_r16(reg);
        self.memory.set_memory_16(reg_val, val)
    }

    /// The byte at the address in a register pair.
    pub fn get_r16_mem_8(&mut self, reg: DoubleReg) -> (r: u8)
        requires
            old(self).memory.readable(old(self).pair(reg) as usize),
        ensures
            r == old(self).memory.peek(old(self).pair(reg) as usize),
            *final(self) == old(self).after_pair(reg).read_at(old(self).pair(reg)),
    {
        let addr = self.get_r16(reg);
        let ret = self.memory.grab_memory_8(addr);
        ret
    }

    /// The word at the address in a register pair.
    pub fn get_r16_mem_16(&mut self, reg: DoubleReg) -> (r: u16)
        requires
            old(self).memory.readable(old(self).pair(reg).wrapping_add(1) as usize),
            old(self).memory.readable(old(self).pair(reg) as usize),
        ensures
            r == old(self).word_at(old(self).pair(reg)),
            *final(self) == old(self).after_pair(reg).read16_at(old(self).pair(reg)),
    {
        let addr = self.get_r16(reg);
        self.memory.grab_memory_16(addr)
    }

    /// Pops a word: reads it at SP, then SP moves up by two (wrapping).
    pub fn pop(&mut self) -> (r: u16)
        requires
            old(self).memory.readable(old(self).sp.wrapping_add(1) as usize),
            old(self).memory.readable(old(self).sp as usize),
        ensures
            r == old(self).word_at(old(self).sp),
            *final(self) == (CpuState { sp: old(self).sp.wrapping_add(2), ..old(self).read16_at(old(self).sp) }),
    {
        let value = self.get_r16_mem_16(DoubleReg::SP);
        self.sp = self.sp.wrapping_add(2);
        return value
    }

    /// Pushes a word: SP moves down by two (wrapping), then the word is
    /// written at SP.
    pub fn push(&mut self, val: u16)
        requires
            old(self).memory.writable(old(self).sp.wrapping_sub(1) as usize),
            forall|mid: MemWrap|
                old(self).memory.written(&mid, old(self).sp.wrapping_sub(1) as usize, (val >> 8u16) as u8)
                    ==> #[trigger] mid.writable(old(self).sp.wrapping_sub(2) as usize),
        ensures
            final(self).sp == old(self).sp.wrapping_sub(2),
            exists|mid: MemWrap|
                old(self).memory.written(&mid, old(self).sp.wrapping_sub(1) as usize, (val >> 8u16) as u8)
                && #[trigger] mid.written(&final(self).memory, old(self).sp.wrapping_sub(2) as usize, (val % 256) as u8),
            *final(self) == (CpuState { memory: final(self).memory, sp: old(self).sp.wrapping_sub(2), ..*old(self) }),
    {
        self.sp = self.sp.wrapping_sub(2);
        assert(self.sp.wrapping_add(1) == old(self).sp.wrapping_sub(1));
        self.set_r16_mem_16(DoubleReg::SP, val);
    }

    /// Whether a flag is set.
    pub fn get_flag(&mut self, flag: Flag) -> (r: bool)
        ensures
            r == (old(self).f & flag_bit(flag) == flag_bit(flag)),
            *final(self) == *old(self),
    {
        match flag {
            Flag::Zero => (self.f & 0x80) == 0x80,
            Flag::Neg => (self.f & 0x40) == 0x40,
            Flag::HalfCarry => (self.f & 0x20) == 0x20,
            Flag::Carry => (self.f & 0x10) == 0x10,
        }
    }

    /// Sets the flag when `state`, else clears it.
    pub fn mark_flag(&mut self, flag: Flag, state: bool)
        ensures
            *final(self) == (CpuState {
                f: if state { old(self).f | flag_bit(flag) } else { old(self).f & !flag_bit(flag) },
                ..*old(self)
            }),
    {
        if state {
            self.set_flag(flag);
        } else {
            self.unset_flag(flag);
        }
    }

    /// Writes a byte.
    pub fn set_byte(&mut self, addr: u16, val: u8)
        requires
            old(self).memory.writable(addr as usize),
        ensures
            old(self).memory.written(&final(self).memory, addr as usize, val),
            *final(self) == (CpuState { memory: final(self).memory, ..*old(self) }),
    {
        self.memory.set_memory_8(addr, val)
    }

    /// Reads a byte.
    pub fn get_byte(&mut self, addr: u16) -> (r: u8)
        requires
            old(self).memory.readable(addr as usize),
        ensures
            r == old(self).memory.peek(addr as usize),
            *final(self) == old(self).read_at(addr),
    {
        self.memory.grab_memory_8(addr)
    }

    /// Steps PC and reads the byte there.
    pub fn get_imm8(&mut self) -> (r: u8)
        requires
            old(self).memory.readable(old(self).pc.wrapping_add(1) as usize),
        ensures
            r == old(self).memory.peek(old(self).pc.wrapping_add(1) as usize),
            *final(self) == (CpuState { pc: old(self).pc.wrapping_add(1), ..*old(self) }).read_at(old(self).pc.wrapping_add(1)),
    {
        let pc = self.inc_pc();
        self.memory.grab_memory_8(pc)
    }

    /// Steps PC and reads the byte there, signed.
    pub fn get_simm8(&mut self) -> (r: i8)
        requires
            old(self).memory.readable(old(self).pc.wrapping_add(1) as usize),
        ensures
            r == old(self).memory.peek(old(self).pc.wrapping_add(1) as usize) as i8,
            *final(self) == (CpuState { pc: old(self).pc.wrapping_add(1), ..*old(self) }).read_at(old(self).pc.wrapping_add(1)),
    {
        let pc = self.inc_pc();
        self.memory.grab_memory_8(pc) as i8
    }

    /// Steps PC, reads the word there, and steps PC again.
    pub fn get_imm16(&mut self) -> (r: u16)
        requires
            old(self).memory.readable(old(self).pc.wrapping_add(2) as usize),
            old(self).memory.readable(old(self).pc.wrapping_add(1) as usize),
        ensures
            r == old(self).word_at(old(self).pc.wrapping_add(1)),
            *final(self) == (CpuState {
                pc: old(self).pc.wrapping_add(2),
                ..(CpuState { pc: old(self).pc.wrapping_add(1), ..*old(self) }).read16_at(old(self).pc.wrapping_add(1))
            }),
    {
        let pc = self.inc_pc();
        assert(pc.wrapping_add(1) == old(self).pc.wrapping_add(2));
        let ret: u16 = self.memory.grab_memory_16(pc);
        self.inc_pc();
        return ret;
    }

    /// Complements the carry flag and clears N and H.
    pub fn flip_carry(&mut self)
        ensures
            *final(self) == (CpuState { f: (old(self).f & !0x40u8 & !0x20u8) ^ 0x10, ..*old(self) }),
    {
        self.mark_flag(Flag::Neg, false);
        self.mark_flag(Flag::HalfCarry, false);
        let ghost f1 = self.f;
        if self.get_flag(Flag::Carry) {
            self.mark_flag(Flag::Carry, false);
        } else {
            self.mark_flag(Flag::Carry, true);
        }
        assert((f1 & 0x10 == 0x10 ==> f1 & !0x10u8 == f1 ^ 0x10) && (f1 & 0x10 != 0x10 ==> f1 | 0x10 == f1 ^ 0x10))
            by (bit_vector);
    }

    /// Reads a word.
    pub fn get_mem_16(&mut self, addr: u16) -> (r: u16)
        requires
            old(self).memory.readable(addr.wrapping_add(1) as usize),
            old(self).memory.readable(addr as usize),
        ensures
            r == old(self).word_at(addr),
            *final(self) == old(self).read16_at(addr),
    {
        self.memory.grab_memory_16(addr)
    }

    /// Writes a word.
    pub fn set_mem_16(&mut self, addr: u16, value: u16)
        requires
            old(self).memory.writable(addr.wrapping_add(1) as usize),
            forall|mid: MemWrap|
                old(self).memory.written(&mid, addr.wrapping_add(1) as usize, (value >> 8u16) as u8)
                    ==> #[trigger] mid.writable(addr as usize),
        ensures
            exists|mid: MemWrap|
                old(self).memory.written(&mid, addr.wrapping_add(1) as usize, (value >> 8u16) as u8)
                && #[trigger] mid.written(&final(self).memory, addr as usize, (value % 256) as u8),
            *final(self) == (CpuState { memory: final(self).memory, ..*old(self) }),
    {
        self.memory.set_memory_16(addr, value)
    }

    /// Clocks the memory with the buttons `pressed`; returns whether
    /// channel 1's sample queue must be emptied.
    pub fn on_clock(&mut self, pressed: [bool; 8]) -> (clear_queue: bool)
        requires
            old(self).memory.clock_ok(),
        ensures
            old(self).memory.clocked_to(&final(self).memory, pressed, clear_queue),
            *final(self) == (CpuState { memory: final(self).memory, ..*old(self) }),
    {
        self.memory.on_clock(pressed)
    }

    pub fn get_acc(&mut self) -> (r: u8)
        ensures
            r == old(self).a,
            *final(self) == *old(self),
    {
        self.a
    }

    pub fn set_acc(&mut self, val: u8)
        ensures
            *final(self) == (CpuState { a: val, ..*old(self) }),
    {
        self.a = val
    }

    /// Reads an 8-bit register (`Memptr` reads the byte at HL).
    pub fn get_r8(&mut self, reg: SingleReg) -> (r: u8)
        requires
            reg == SingleReg::Memptr ==> old(self).memory.readable(old(self).hl() as usize),
        ensures
            r == old(self).single(reg),
            *final(self) == if reg == SingleReg::Memptr { old(self).read_at(old(self).hl()) } else { *old(self) },
    {
        match reg {
            SingleReg::A => self.a,
            SingleReg::B => self.b,
            SingleReg::C => self.c,
            SingleReg::D => self.d,
            SingleReg::E => self.e,
            SingleReg::F => self.f,
            SingleReg::H => self.h,
            SingleReg::Memptr => {
                let addr = self.get_r16(DoubleReg::HL);
                self.memory.grab_memory_8(addr)
            },
            SingleReg::L => self.l,
        }
    }

    /// Reads a register pair; HL+ and HL- step HL after giving it.
    pub fn get_r16(&mut self, reg: DoubleReg) -> (r: u16)
        ensures
            r == old(self).pair(reg),
            *final(self) == old(self).after_pair(reg),
    {
        match reg {
            DoubleReg::AF => (self.a as u16) * 0x100 + (self.f as u16),
            DoubleReg::BC => (self.b as u16) * 0x100 + (self.c as u16),
            DoubleReg::DE => (self.d as u16) * 0x100 + (self.e as u16),
            DoubleReg::HL => (self.h as u16) * 0x100 + (self.l as u16),
            DoubleReg::HLP => {
                let hl = (self.h as u16) * 0x100 + (self.l as u16);
                let addr = hl.wrapping_add(1);
                self.h = (addr >> 8u16) as u8;
                self.l = addr as u8;
                hl
            },
            DoubleReg::HLM => {
                let hl = (self.h as u16) * 0x100 + (self.l as u16);
                let addr = hl.wrapping_sub(1);
                self.h = (addr >> 8u16) as u8;
                self.l = addr as u8;
                hl
            },
            DoubleReg::SP => self.sp,
            DoubleReg::PC => self.pc,
        }
    }

    /// Sets an 8-bit register (`Memptr` writes the byte at HL); F cannot be
    /// set this way.
    pub fn set_r8(&mut self, reg: SingleReg, val: u8)
        requires
            reg != SingleReg::F,
            reg == SingleReg::Memptr ==> old(self).memory.writable(old(self).hl() as usize),
        ensures
            reg == SingleReg::Memptr ==> old(self).memory.written(&final(self).memory, old(self).hl() as usize, val)
                && *final(self) == (CpuState { memory: final(self).memory, ..*old(self) }),
            reg != SingleReg::Memptr ==> *final(self) == old(self).with_single(reg, val),
    {
        match reg {
            SingleReg::A => self.a = val,
            SingleReg::B => self.b = val,
            SingleReg::C => self.c = val,
            SingleReg::D => self.d = val,
            SingleReg::E => self.e = val,
            SingleReg::Memptr => {
                let addr = self.get_r16(DoubleReg::HL);
                self.memory.set_memory_8(addr, val)
            },
            SingleReg::H => self.h = val,
            _ => self.l = val,
        }
    }

    /// Sets a register pair; AF, HL+ and HL- cannot be set this way.
    pub fn set_r16(&mut self, reg: DoubleReg, val: u16)
        requires
            reg != DoubleReg::AF,
            reg != DoubleReg::HLP,
            reg != DoubleReg::HLM,
        ensures
            *final(self) == old(self).with_pair(reg, val),
    {
        match reg {
            DoubleReg::BC => {
                self.b = (val >> 8u16) as u8;
                self.c = val as u8;
            },
            DoubleReg::DE => {
                self.d = (val >> 8u16) as u8;
                self.e = val as u8;
            },
            DoubleReg::HL => {
                self.h = (val >> 8u16) as u8;
                self.l = val as u8;
            },
            DoubleReg::SP => self.sp = val,
            _ => self.pc = val,
        }
    }

    /// Sets a flag.
    pub fn set_flag(&mut self, flag: Flag)
        ensures
            *final(self) == (CpuState { f: old(self).f | flag_bit(flag), ..*old(self) }),
    {
        self.f = self.f | match flag {
            Flag::Zero => 128,
            Flag::Neg => 64,
            Flag::HalfCarry => 32,
            Flag::Carry => 16,
        };
    }

    /// Sets F to the four given flags.
    pub fn set_flags(&mut self, zero: bool, neg: bool, hc: bool, carry: bool)
        ensures
            *final(self) == (CpuState { f: crate::cpu::cpu::flags_byte(zero, neg, hc, carry), ..*old(self) }),
    {
        let z: u8 = if zero { 128 } else { 0 };
        let n: u8 = if neg { 64 } else { 0 };
        let h: u8 = if hc { 32 } else { 0 };
        let c: u8 = if carry { 16 } else { 0 };
        self.f = z + n + h + c;
    }

    /// Clears a flag.
    pub fn unset_flag(&mut self, flag: Flag)
        ensures
            *final(self) == (CpuState { f: old(self).f & !flag_bit(flag), ..*old(self) }),
    {
        let mask: u8 = match flag {
            Flag::Zero => 0x7F,
            Flag::Neg => 0xBF,
            Flag::HalfCarry => 0xDF,
            Flag::Carry => 0xEF,
        };
        assert(mask == !flag_bit(flag)) by {
            assert(!0x80u8 == 0x7Fu8 && !0x40u8 == 0xBFu8 && !0x20u8 == 0xDFu8 && !0x10u8 == 0xEFu8) by (bit_vector);
        }
        self.f = self.f & mask;
    }

    /// Replaces a register pair (not AF, HL+ or HL-) by `fun` of its value.
    pub fn change_r16<Fun: Fn(u16) -> u16>(&mut self, reg: DoubleReg, fun: Fun)
        requires
            reg != DoubleReg::AF,
            reg != DoubleReg::HLP,
            reg != DoubleReg::HLM,
            forall|x: u16| fun.requires((x,)),
        ensures
            exists|r: u16| fun.ensures((old(self).pair(reg),), r) && *final(self) == old(self).with_pair(reg, r),
    {
        let v = self.get_r16(reg);
        let result = fun(v);
        self.set_r16(reg, result);
    }

    /// Whether bit `idx` of an 8-bit register is set.
    pub fn get_bit(&mut self, reg: SingleReg, idx: u8) -> (r: bool)
        requires
            idx < 8,
            reg == SingleReg::Memptr ==> old(self).memory.readable(old(self).hl() as usize),
        ensures
            r == ((old(self).single(reg) >> idx) % 2 == 1),
            *final(self) == if reg == SingleReg::Memptr { old(self).read_at(old(self).hl()) } else { *old(self) },
    {
        let v = self.get_r8(reg);
        assert((v & (1u8 << idx)) == (1u8 << idx) <==> (v >> idx) % 2 == 1) by (bit_vector)
            requires
                idx < 8,
        ;
        return (v & (1u8 << idx)) == (1u8 << idx);
    }

    /// Clears all flags.
    pub fn reset_flags(&mut self)
        ensures
            *final(self) == (CpuState { f: 0, ..*old(self) }),
    {
        self.set_flags(false, false, false, false);
    }
}

} // verus!
