use vstd::prelude::*;

use crate::cpu::function_table::{
    cb_block_table, first_match, function_table, Alu16SelfFunction, Alu8Function, Alu8SelfFunction, CPUFn, CPUFunct, Dest16,
    Dest8, FunFind, Src16, Src8,
};
use crate::cpu::registers::{flag_bit, DoubleReg, Flag};
use crate::cpu::step::{alu16_spec, bit_index, flags2, with_opt_flag};
use crate::cpu::step::{first_interrupt, ime_advanced, interrupt_bit};
use crate::memory::memory_wrapper::{AsMemory, MemWrap};
use crate::audio::AudioController;
use crate::cartridge::cartridge::Cartridge;
use crate::joypad::Joypad;

verus! {

/// The interrupt master enable and its delayed transitions: EI takes effect
/// after the next instruction (EnableInterrupt, then AlmostEnabled).
#[derive(Clone, Copy, PartialEq, Eq, Structural, Debug)]
pub enum InterruptState {
    Enabled,  //Despite naming, it's really that we have E, DI, AD as "enabled" states
    DisableInterrupt,
    EnableInterrupt,
    AlmostEnabled,
    Disabled,
}

/// The processor: its registers, the fetched instruction (`command`), the
/// interrupt master enable, the opcode tables, and the address space.
/// `fault` records that an instruction attempted a memory access or an
/// interrupt-enable change that the machine does not define; the processor
/// then stops executing.
pub struct CpuStruct {
    pub function_lookup: [FunFind; 63],
    pub cb_block_lookup: [FunFind; 11],
    pub ime_flag: InterruptState,
    pub stopped: bool,
    pub testing_mode: bool,
    pub memory: MemWrap,
    pub a: u8,
    pub b: u8,
    pub c: u8,
    pub d: u8,
    pub e: u8,
    pub f: u8,
    pub h: u8,
    pub l: u8,
    pub sp: u16,
    pub pc: u16,
    pub command: [u8; 3],
    pub fault: bool,
}

/// The F register with the given flags: Z 0x80, N 0x40, H 0x20, C 0x10.
pub open spec fn flags_byte(zero: bool, neg: bool, hc: bool, carry: bool) -> u8 {
    ((if zero { 128int } else { 0 }) + (if neg { 64int } else { 0 }) + (if hc { 32int } else { 0 }) + (if carry { 16int } else { 0 })) as u8
}

/// `f` with the flag bit `bit` set or cleared.
pub open spec fn with_flag(f: u8, bit: u8, state: bool) -> u8 {
    if state {
        f | bit
    } else {
        f & !bit
    }
}

/// The word with high byte `x` and low byte `y`.
pub open spec fn glue(x: u8, y: u8) -> u16 {
    (x * 256 + y) as u16
}

impl CpuStruct {
    /// The instruction is 0xCB-prefixed.
    pub open spec fn is_cb(&self) -> bool {
        self.command[0] == 0xCB
    }

    /// The opcode: the byte after the prefix for 0xCB-prefixed instructions.
    pub open spec fn ir(&self) -> u8 {
        if self.is_cb() {
            self.command[1]
        } else {
            self.command[0]
        }
    }

    /// The flag whose bit is `bit` is set in F.
    pub open spec fn flag_set(&self, bit: u8) -> bool {
        self.f & bit == bit
    }

    /// HL.
    pub open spec fn hl(&self) -> u16 {
        glue(self.h, self.l)
    }

    /// The processor and value after reading `addr`: the access happens when
    /// no fault occurred and the address is readable; otherwise the fault is
    /// recorded and 0xFF is read.
    pub open spec fn rd8(self, addr: u16) -> (CpuStruct, u8) {
        if !self.fault && self.memory.readable(addr as usize) {
            (
                CpuStruct { memory: MemWrap { wait: self.memory.wait.wrapping_add(2), ..self.memory.after_read(addr as usize) }, ..self },
                self.memory.peek(addr as usize),
            )
        } else {
            (CpuStruct { fault: true, ..self }, 0xFF)
        }
    }

    /// The processor and value after reading the little-endian word at `addr`
    /// (high byte at `addr + 1`, read first); on a fault 0xFFFF is read.
    pub open spec fn rd16(self, addr: u16) -> (CpuStruct, u16) {
        let hi = addr.wrapping_add(1) as usize;
        if !self.fault && self.memory.readable(hi) && self.memory.readable(addr as usize) {
            (
                CpuStruct {
                    memory: MemWrap { wait: self.memory.wait.wrapping_add(4), ..self.memory.after_read(hi).after_read(addr as usize) },
                    ..self
                },
                (self.memory.peek(hi) * 256 + self.memory.after_read(hi).peek(addr as usize)) as u16,
            )
        } else {
            (CpuStruct { fault: true, ..self }, 0xFFFF)
        }
    }

    /// `new` is the processor after writing `v` at `addr` (or recording a
    /// fault when it cannot).
    pub open spec fn wr8(self, new: CpuStruct, addr: u16, v: u8) -> bool {
        if !self.fault && self.memory.writable(addr as usize) {
            self.memory.written(&new.memory, addr as usize, v) && new == CpuStruct { memory: new.memory, ..self }
        } else {
            new == CpuStruct { fault: true, ..self }
        }
    }

    /// `new` is the processor after writing the word `v` at `addr`: the high
    /// byte to `addr + 1` first, then the low byte to `addr`.
    pub open spec fn wr16(self, new: CpuStruct, addr: u16, v: u16) -> bool {
        exists|mid: CpuStruct| #[trigger] self.wr8(mid, addr.wrapping_add(1), (v >> 8u16) as u8) && mid.wr8(new, addr, (v % 256) as u8)
    }

    /// The processor and the byte operand after the program counter.
    pub open spec fn imm8(self) -> (CpuStruct, u8) {
        (CpuStruct { pc: self.pc.wrapping_add(1), ..self }, self.command[1])
    }

    /// The processor and the word operand after the program counter.
    pub open spec fn imm16(self) -> (CpuStruct, u16) {
        (CpuStruct { pc: self.pc.wrapping_add(2), ..self }, glue(self.command[2], self.command[1]))
    }

    /// The processor and the value of a register pair; HLP and HLM yield
    /// HL and then increment or decrement it.
    pub open spec fn r16(self, reg: DoubleReg) -> (CpuStruct, u16) {
        match reg {
            DoubleReg::AF => (self, glue(self.a, self.f)),
            DoubleReg::BC => (self, glue(self.b, self.c)),
            DoubleReg::DE => (self, glue(self.d, self.e)),
            DoubleReg::HL => (self, self.hl()),
            DoubleReg::HLP => {
                let n = self.hl().wrapping_add(1);
                (CpuStruct { h: (n >> 8u16) as u8, l: n as u8, ..self }, self.hl())
            },
            DoubleReg::HLM => {
                let n = self.hl().wrapping_sub(1);
                (CpuStruct { h: (n >> 8u16) as u8, l: n as u8, ..self }, self.hl())
            },
            DoubleReg::SP => (self, self.sp),
            DoubleReg::PC => (self, self.pc),
        }
    }

    /// The processor with a register pair set to `val`; F keeps only its
    /// high nibble.
    pub open spec fn with_r16(self, reg: DoubleReg, val: u16) -> CpuStruct {
        match reg {
            DoubleReg::AF => CpuStruct { a: (val >> 8u16) as u8, f: (val as u8) & 0xf0, ..self },
            DoubleReg::BC => CpuStruct { b: (val >> 8u16) as u8, c: val as u8, ..self },
            DoubleReg::DE => CpuStruct { d: (val >> 8u16) as u8, e: val as u8, ..self },
            DoubleReg::HL => CpuStruct { h: (val >> 8u16) as u8, l: val as u8, ..self },
            DoubleReg::SP => CpuStruct { sp: val, ..self },
            _ => CpuStruct { pc: val, ..self },
        }
    }

    /// The processor and the 8-bit register numbered `idx` in opcodes
    /// (B, C, D, E, H, L, (HL), A).
    pub open spec fn r8(self, idx: u8) -> (CpuStruct, u8) {
        if idx == 0 {
            (self, self.b)
        } else if idx == 1 {
            (self, self.c)
        } else if idx == 2 {
            (self, self.d)
        } else if idx == 3 {
            (self, self.e)
        } else if idx == 4 {
            (self, self.h)
        } else if idx == 5 {
            (self, self.l)
        } else if idx == 6 {
            self.rd8(self.hl())
        } else {
            (self, self.a)
        }
    }

    /// `new` is the processor with the 8-bit register numbered `idx` set to `v`.
    pub open spec fn r8_set(self, new: CpuStruct, idx: u8, v: u8) -> bool {
        if idx == 0 {
            new == CpuStruct { b: v, ..self }
        } else if idx == 1 {
            new == CpuStruct { c: v, ..self }
        } else if idx == 2 {
            new == CpuStruct { d: v, ..self }
        } else if idx == 3 {
            new == CpuStruct { e: v, ..self }
        } else if idx == 4 {
            new == CpuStruct { h: v, ..self }
        } else if idx == 5 {
            new == CpuStruct { l: v, ..self }
        } else if idx == 6 {
            self.wr8(new, self.hl(), v)
        } else {
            new == CpuStruct { a: v, ..self }
        }
    }

    /// The register number in bits 3..=5 of the opcode.
    pub open spec fn mid_idx(&self) -> u8 {
        (self.ir() >> 3u8) % 8
    }

    /// The register number in bits 0..=2 of the opcode.
    pub open spec fn end_idx(&self) -> u8 {
        self.ir() % 8
    }

    /// The register pair in bits 4..=5 of the opcode: BC, DE, HL, SP.
    pub open spec fn r16_tbl_spec(&self) -> DoubleReg {
        let k = (self.ir() >> 4u8) % 4;
        if k == 0 { DoubleReg::BC } else if k == 1 { DoubleReg::DE } else if k == 2 { DoubleReg::HL } else { DoubleReg::SP }
    }

    /// The register pair in bits 4..=5 of the opcode for stack
    /// instructions: BC, DE, HL, AF.
    pub open spec fn r16_stk_tbl_spec(&self) -> DoubleReg {
        let k = (self.ir() >> 4u8) % 4;
        if k == 0 { DoubleReg::BC } else if k == 1 { DoubleReg::DE } else if k == 2 { DoubleReg::HL } else { DoubleReg::AF }
    }

    /// The register pair in bits 4..=5 of the opcode for memory
    /// instructions: BC, DE, HL+, HL-.
    pub open spec fn r16_mem_tbl_spec(&self) -> DoubleReg {
        let k = (self.ir() >> 4u8) % 4;
        if k == 0 { DoubleReg::BC } else if k == 1 { DoubleReg::DE } else if k == 2 { DoubleReg::HLP } else { DoubleReg::HLM }
    }

    /// The processor and value after popping a word: read at SP, then SP + 2.
    pub open spec fn popped(self) -> (CpuStruct, u16) {
        let (s1, v) = self.rd16(self.sp);
        (CpuStruct { sp: s1.sp.wrapping_add(2), ..s1 }, v)
    }

    /// `new` is the processor after pushing `val`: SP - 2, then the word is
    /// written at SP.
    pub open spec fn pushed(self, new: CpuStruct, val: u16) -> bool {
        let s1 = CpuStruct { sp: self.sp.wrapping_sub(2), ..self };
        s1.wr16(new, s1.sp, val)
    }
}

} // verus!

verus! {

impl CpuStruct {
    /// The instruction is 0xCB-prefixed.
    fn cb_flag(&self) -> (r: bool)
        ensures
            r == self.is_cb(),
    {
        self.command[0] == 0xCB
    }

    /// The opcode of the fetched instruction.
    fn instruction_register(&self) -> (r: u8)
        ensures
            r == self.ir(),
    {
        if self.cb_flag() {
            return self.command[1];
        }
        self.command[0]
    }

    /// Whether `flag` is set in F.
    fn get_flag(&self, flag: Flag) -> (r: bool)
        ensures
            r == self.flag_set(flag_bit(flag)),
    {
        self.f & flag.discriminant() == flag.discriminant()
    }

    /// Sets or clears `flag` in F.
    fn mark_flag(&mut self, flag: Flag, state: bool)
        ensures
            *final(self) == (CpuStruct { f: with_flag(old(self).f, flag_bit(flag), state), ..*old(self) }),
    {
        if state {
            self.f = self.f | flag.discriminant();
        } else {
            self.f = self.f & !flag.discriminant();
        }
    }

    /// Sets F to the four given flags.
    fn set_flags(&mut self, zero: bool, neg: bool, hc: bool, carry: bool)
        ensures
            *final(self) == (CpuStruct { f: flags_byte(zero, neg, hc, carry), ..*old(self) }),
    {
        let z: u8 = if zero { 128 } else { 0 };
        let n: u8 = if neg { 64 } else { 0 };
        let h: u8 = if hc { 32 } else { 0 };
        let c: u8 = if carry { 16 } else { 0 };
        self.f = z + n + h + c;
    }

    /// Changes each flag (Z, N, H, C in this order) that is given.
    fn set_flags2(&mut self, flags: [Option<bool>; 4])
        ensures
            *final(self) == (CpuStruct { f: flags2(old(self).f, flags[0], flags[1], flags[2], flags[3]), ..*old(self) }),
    {
        let mut idx: u8 = 128;
        let mut i: usize = 0;
        while i < 4
            invariant
                0 <= i <= 4,
                idx == (if i == 0 { 128u8 } else if i == 1 { 64u8 } else if i == 2 { 32u8 } else if i == 3 { 16u8 } else { 8u8 }),
                *self == (CpuStruct { f: self.f, ..*old(self) }),
                self.f == (if i == 0 {
                    old(self).f
                } else if i == 1 {
                    with_opt_flag(old(self).f, 0x80, flags[0])
                } else if i == 2 {
                    with_opt_flag(with_opt_flag(old(self).f, 0x80, flags[0]), 0x40, flags[1])
                } else if i == 3 {
                    with_opt_flag(with_opt_flag(with_opt_flag(old(self).f, 0x80, flags[0]), 0x40, flags[1]), 0x20, flags[2])
                } else {
                    flags2(old(self).f, flags[0], flags[1], flags[2], flags[3])
                }),
            decreases 4 - i,
        {
            match flags[i] {
                Some(val) => {
                    if val {
                        self.f = self.f | idx;
                    } else {
                        self.f = self.f & !idx;
                    }
                },
                None => {},
            }
            assert(idx >> 1u8 == idx / 2) by (bit_vector);
            idx = idx >> 1u8;
            i = i + 1;
        }
    }

    /// Reads a byte through the memory map; an address that cannot be read
    /// is a fault (and reads 0xFF), and a processor with a fault reads
    /// nothing.
    fn read8(&mut self, addr: u16) -> (r: u8)
        ensures
            (*final(self), r) == old(self).rd8(addr),
    {
        if !self.fault && self.memory.can_read(addr as usize) {
            self.memory.grab_memory_8(addr)
        } else {
            self.fault = true;
            0xFF
        }
    }

    /// Reads a little-endian word through the memory map (see `read8`).
    fn read16(&mut self, addr: u16) -> (r: u16)
        ensures
            (*final(self), r) == old(self).rd16(addr),
    {
        if !self.fault && self.memory.can_read(addr.wrapping_add(1) as usize) && self.memory.can_read(addr as usize) {
            self.memory.grab_memory_16(addr)
        } else {
            self.fault = true;
            0xFFFF
        }
    }

    /// Writes a byte through the memory map; an address that cannot be
    /// written is a fault, and a processor with a fault writes nothing.
    fn write8(&mut self, addr: u16, v: u8)
        ensures
            old(self).wr8(*final(self), addr, v),
    {
        if !self.fault && self.memory.can_write(addr as usize) {
            self.memory.set_memory_8(addr, v);
        } else {
            self.fault = true;
        }
    }

    /// Pops a word: reads it at SP, then SP moves up by two.
    fn pop_stack(&mut self) -> (r: u16)
        ensures
            (*final(self), r) == old(self).popped(),
    {
        let value = self.read16(self.sp);
        self.sp = self.sp.wrapping_add(2);
        value
    }

    /// Pushes a word: SP moves down by two, then the word is written at SP
    /// (high byte first, at SP + 1).
    fn push_stack(&mut self, val: u16)
        ensures
            old(self).pushed(*final(self), val),
    {
        self.sp = self.sp.wrapping_sub(2);
        let ghost s1 = *self;
        self.write8(self.sp.wrapping_add(1), (val >> 8u16) as u8);
        let ghost mid = *self;
        self.write8(self.sp, (val % 256) as u8);
        assert(s1.wr8(mid, s1.sp.wrapping_add(1), (val >> 8u16) as u8) && mid.wr8(*self, s1.sp, (val % 256) as u8));
    }

    /// The byte after the opcode; PC steps over it.
    fn get_imm8(&mut self) -> (r: u8)
        ensures
            (*final(self), r) == old(self).imm8(),
    {
        self.pc = self.pc.wrapping_add(1);
        self.command[1]
    }

    /// The byte after the opcode, signed; PC steps over it.
    fn get_simm8(&mut self) -> (r: i8)
        ensures
            *final(self) == old(self).imm8().0,
            r == old(self).command[1] as i8,
    {
        self.pc = self.pc.wrapping_add(1);
        self.command[1] as i8
    }

    /// The little-endian word after the opcode; PC steps over it.
    fn get_imm16(&mut self) -> (r: u16)
        ensures
            (*final(self), r) == old(self).imm16(),
    {
        self.pc = self.pc.wrapping_add(2);
        (self.command[2] as u16) * 256 + (self.command[1] as u16)
    }

    /// The value of a register pair (HL+ and HL- step HL after giving it).
    fn get_r16(&mut self, reg: DoubleReg) -> (r: u16)
        ensures
            (*final(self), r) == old(self).r16(reg),
    {
        match reg {
            DoubleReg::AF => (self.a as u16) * 256 + (self.f as u16),
            DoubleReg::BC => (self.b as u16) * 256 + (self.c as u16),
            DoubleReg::DE => (self.d as u16) * 256 + (self.e as u16),
            DoubleReg::HL => (self.h as u16) * 256 + (self.l as u16),
            DoubleReg::HLP => {
                let hl = (self.h as u16) * 256 + (self.l as u16);
                let addr = hl.wrapping_add(1);
                self.h = (addr >> 8u16) as u8;
                self.l = addr as u8;
                hl
            },
            DoubleReg::HLM => {
                let hl = (self.h as u16) * 256 + (self.l as u16);
                let addr = hl.wrapping_sub(1);
                self.h = (addr >> 8u16) as u8;
                self.l = addr as u8;
                hl
            },
            DoubleReg::SP => self.sp,
            DoubleReg::PC => self.pc,
        }
    }

    /// Sets a register pair; F keeps only its high nibble.
    fn set_r16(&mut self, reg: DoubleReg, val: u16)
        requires
            reg != DoubleReg::HLP,
            reg != DoubleReg::HLM,
        ensures
            *final(self) == old(self).with_r16(reg, val),
    {
        match reg {
            DoubleReg::AF => {
                self.a = (val >> 8u16) as u8;
                self.f = (val as u8) & 0xf0;
            },
            DoubleReg::BC => {
                self.b = (val >> 8u16) as u8;
                self.c = val as u8;
            },
            DoubleReg::DE => {
                self.d = (val >> 8u16) as u8;
                self.e = val as u8;
            },
            DoubleReg::HL => {
                self.h = (val >> 8u16) as u8;
                self.l = val as u8;
            },
            DoubleReg::SP => self.sp = val,
            _ => self.pc = val,
        }
    }

    /// The byte at the address in a register pair.
    fn get_r16_mem_8(&mut self, reg: DoubleReg) -> (r: u8)
        ensures
            ({
                let (s1, addr) = old(self).r16(reg);
                (*final(self), r) == s1.rd8(addr)
            }),
    {
        let addr = self.get_r16(reg);
        self.read8(addr)
    }

    /// Writes `val` at the address in a register pair.
    fn set_r16_mem_8(&mut self, reg: DoubleReg, val: u8)
        ensures
            ({
                let (s1, addr) = old(self).r16(reg);
                s1.wr8(*final(self), addr, val)
            }),
    {
        let reg_val = self.get_r16(reg);
        self.write8(reg_val, val)
    }

    /// The 8-bit register numbered `idx` (B, C, D, E, H, L, (HL), A).
    fn get_r8(&mut self, idx: u8) -> (r: u8)
        requires
            idx < 8,
        ensures
            (*final(self), r) == old(self).r8(idx),
    {
        if idx == 0 {
            self.b
        } else if idx == 1 {
            self.c
        } else if idx == 2 {
            self.d
        } else if idx == 3 {
            self.e
        } else if idx == 4 {
            self.h
        } else if idx == 5 {
            self.l
        } else if idx == 6 {
            self.get_r16_mem_8(DoubleReg::HL)
        } else {
            self.a
        }
    }

    /// Sets the 8-bit register numbered `idx` (B, C, D, E, H, L, (HL), A).
    fn set_r8(&mut self, idx: u8, val: u8)
        requires
            idx < 8,
        ensures
            old(self).r8_set(*final(self), idx, val),
    {
        if idx == 0 {
            self.b = val
        } else if idx == 1 {
            self.c = val
        } else if idx == 2 {
            self.d = val
        } else if idx == 3 {
            self.e = val
        } else if idx == 4 {
            self.h = val
        } else if idx == 5 {
            self.l = val
        } else if idx == 6 {
            self.set_r16_mem_8(DoubleReg::HL, val)
        } else {
            self.a = val
        }
    }

    /// The 8-bit register in bits 3..=5 of the opcode.
    pub fn get_r8_mid(&mut self) -> (r: u8)
        ensures
            (*final(self), r) == old(self).r8(old(self).mid_idx()),
    {
        let idx = (self.instruction_register() >> 3u8) % 8;
        self.get_r8(idx)
    }

    /// Sets the 8-bit register in bits 3..=5 of the opcode.
    pub fn set_r8_mid(&mut self, val: u8)
        ensures
            old(self).r8_set(*final(self), old(self).mid_idx(), val),
    {
        let idx = (self.instruction_register() >> 3u8) % 8;
        self.set_r8(idx, val)
    }

    /// The 8-bit register in bits 0..=2 of the opcode.
    fn get_r8_end(&mut self) -> (r: u8)
        ensures
            (*final(self), r) == old(self).r8(old(self).end_idx()),
    {
        let idx = self.instruction_register() % 8;
        self.get_r8(idx)
    }

    /// Sets the 8-bit register in bits 0..=2 of the opcode.
    pub fn set_r8_end(&mut self, val: u8)
        ensures
            old(self).r8_set(*final(self), old(self).end_idx(), val),
    {
        let idx = self.instruction_register() % 8;
        self.set_r8(idx, val)
    }

    /// The register pair of a load through memory: BC, DE, HL+, HL-.
    pub fn r16_mem_tbl(&self) -> (r: DoubleReg)
        ensures
            r == self.r16_mem_tbl_spec(),
    {
        let k = (self.instruction_register() >> 4u8) % 4;
        if k == 0 {
            DoubleReg::BC
        } else if k == 1 {
            DoubleReg::DE
        } else if k == 2 {
            DoubleReg::HLP
        } else {
            DoubleReg::HLM
        }
    }

    /// The register pair of a 16-bit operation: BC, DE, HL, SP.
    fn r16_tbl(&self) -> (r: DoubleReg)
        ensures
            r == self.r16_tbl_spec(),
    {
        let k = (self.instruction_register() >> 4u8) % 4;
        if k == 0 {
            DoubleReg::BC
        } else if k == 1 {
            DoubleReg::DE
        } else if k == 2 {
            DoubleReg::HL
        } else {
            DoubleReg::SP
        }
    }

    /// The register pair of PUSH and POP: BC, DE, HL, AF.
    fn r16_stk_tbl(&self) -> (r: DoubleReg)
        ensures
            r == self.r16_stk_tbl_spec(),
    {
        let k = (self.instruction_register() >> 4u8) % 4;
        if k == 0 {
            DoubleReg::BC
        } else if k == 1 {
            DoubleReg::DE
        } else if k == 2 {
            DoubleReg::HL
        } else {
            DoubleReg::AF
        }
    }
}

} // verus!

verus! {

/// The low nibble of a byte is at most 0x0F.
proof fn low_nibble_bound(x: u8)
    ensures
        x & 0x0F <= 0x0F,
{
    assert(x & 0x0F <= 0x0F) by (bit_vector);
}

impl CpuStruct {
    /// Whether the condition of a conditional instruction holds (NZ, Z,
    /// NC, C by bits 3..=4 of the opcode).
    pub fn cond(&mut self) -> (r: bool)
        ensures
            r == old(self).cond_holds(),
            *final(self) == *old(self),
    {
        let zero = self.get_flag(Flag::Zero);
        let carry = self.get_flag(Flag::Carry);
        let k = (self.instruction_register() >> 3u8) % 4;
        if k == 0 {
            !zero
        } else if k == 1 {
            zero
        } else if k == 2 {
            !carry
        } else {
            carry
        }
    }

    /// The operand of an accumulator operation: the byte after the opcode
    /// for opcodes above 0xC0, else the register in bits 0..=2.
    pub fn alu_operand(&mut self) -> (r: u8)
        ensures
            (*final(self), r) == old(self).operand(),
    {
        if self.instruction_register() > 0xC0 {
            self.get_imm8()
        } else {
            self.get_r8_end()
        }
    }

    /// Adds `cycles` to the wait before the next instruction.
    pub fn wait(&mut self, cycles: u8)
        ensures
            *final(self) == old(self).waited(cycles),
    {
        self.memory.wait = self.memory.wait.wrapping_add(cycles);
    }

    pub fn add(&mut self, acc: u8, op: u8) -> (r: u8)
        ensures
            (*final(self), r) == old(self).alu8_out(Alu8Function::Add, acc, op),
    {
        let ret = acc.wrapping_add(op);
        proof {
            low_nibble_bound(acc);
            low_nibble_bound(op);
        }
        self.set_flags(ret == 0, false, ((acc & 0x0F) + (op & 0x0F)) > 0x10, acc.checked_add(op).is_none());
        ret
    }

    pub fn adc(&mut self, acc: u8, op: u8) -> (r: u8)
        ensures
            (*final(self), r) == old(self).alu8_out(Alu8Function::Adc, acc, op),
    {
        let carry: u8 = if self.get_flag(Flag::Carry) { 1 } else { 0 };
        let operand = op.wrapping_add(carry);
        let ret = acc.wrapping_add(operand);
        proof {
            low_nibble_bound(acc);
            low_nibble_bound(operand);
        }
        self.set_flags(ret == 0, false, ((acc & 0x0F) + (operand & 0x0F)) > 0x10, acc.checked_add(operand).is_none());
        ret
    }

    pub fn sub(&mut self, acc: u8, op: u8) -> (r: u8)
        ensures
            (*final(self), r) == old(self).alu8_out(Alu8Function::Sub, acc, op),
    {
        self.set_flags(acc == op, true, (acc & 0x0F) < (op & 0x0F), op > acc);
        acc.wrapping_sub(op)
    }

    pub fn subc(&mut self, acc: u8, op: u8) -> (r: u8)
        ensures
            (*final(self), r) == old(self).alu8_out(Alu8Function::Subc, acc, op),
    {
        let carry: u8 = if self.get_flag(Flag::Carry) { 1 } else { 0 };
        let operand: u8 = op.wrapping_add(carry);
        self.set_flags(acc == operand, true, (acc & 0x0F) < (operand & 0x0F), operand > acc);
        acc.wrapping_sub(operand)
    }

    pub fn and(&mut self, acc: u8, op: u8) -> (r: u8)
        ensures
            (*final(self), r) == old(self).alu8_out(Alu8Function::And, acc, op),
    {
        self.set_flags(op & acc == 0, false, true, false);
        acc & op
    }

    pub fn xor(&mut self, acc: u8, op: u8) -> (r: u8)
        ensures
            (*final(self), r) == old(self).alu8_out(Alu8Function::Xor, acc, op),
    {
        self.set_flags((acc ^ op) == 0, false, false, false);
        acc ^ op
    }

    pub fn or(&mut self, acc: u8, op: u8) -> (r: u8)
        ensures
            (*final(self), r) == old(self).alu8_out(Alu8Function::Or, acc, op),
    {
        self.set_flags(acc | op == 0, false, false, false);
        acc | op
    }

    pub fn cp(&mut self, acc: u8, op: u8) -> (r: u8)
        ensures
            (*final(self), r) == old(self).alu8_out(Alu8Function::Cp, acc, op),
    {
        self.set_flags(acc == op, true, (acc & 0x0F) < (op & 0x0F), op > acc);
        acc
    }

    /// Rotate left through carry.
    pub fn rl(&mut self, op: u8) -> (r: u8)
        ensures
            (*final(self), r) == old(self).alu8self_done(Alu8SelfFunction::Rl, op),
    {
        let carry: u8 = if self.get_flag(Flag::Carry) { 1 } else { 0 };
        let ret = (op % 128) * 2 + carry;
        let cb = self.cb_flag();
        self.set_flags(cb && ret == 0, false, false, op > 127);
        ret
    }

    /// Rotate left circular.
    pub fn rlc(&mut self, op: u8) -> (r: u8)
        ensures
            (*final(self), r) == old(self).alu8self_done(Alu8SelfFunction::Rlc, op),
    {
        let cb = self.cb_flag();
        self.set_flags(cb && op == 0, false, false, op > 127);
        (op % 128) * 2 + op / 128
    }

    /// Rotate right through carry.
    pub fn rr(&mut self, op: u8) -> (r: u8)
        ensures
            (*final(self), r) == old(self).alu8self_done(Alu8SelfFunction::Rr, op),
    {
        let carry: u8 = if self.get_flag(Flag::Carry) { 128 } else { 0 };
        let bottom: bool = (op % 2) == 1;
        let ret = op / 2 + carry;
        let cb = self.cb_flag();
        self.set_flags(cb && ret == 0, false, false, bottom);
        ret
    }

    /// Rotate right circular.
    pub fn rrc(&mut self, op: u8) -> (r: u8)
        ensures
            (*final(self), r) == old(self).alu8self_done(Alu8SelfFunction::Rrc, op),
    {
        let cb = self.cb_flag();
        self.set_flags(cb && op == 0, false, false, (op % 2) == 1);
        op / 2 + (op % 2) * 128
    }

    /// Decimal adjust: corrects `acc` after a BCD addition or subtraction,
    /// by N, H, C and the accumulator.
    pub fn daa(&mut self, acc: u8) -> (r: u8)
        ensures
            (*final(self), r) == old(self).alu8self_done(Alu8SelfFunction::Daa, acc),
    {
        let subtract = self.get_flag(Flag::Neg);
        let hcarry = self.get_flag(Flag::HalfCarry);
        let carry = self.get_flag(Flag::Carry);
        let mut offset: u8 = 0;
        if (!subtract && ((self.a & 0xf) > 0x9)) || hcarry {
            offset = offset + 0x06;
        }
        if (!subtract && (self.a > 0x99)) || carry {
            offset = offset + 0x60;
        }
        let ret = if subtract {
            acc.wrapping_sub(offset)
        } else {
            acc.wrapping_add(offset)
        };
        self.mark_flag(Flag::Zero, ret == 0);
        self.mark_flag(Flag::HalfCarry, false);
        self.mark_flag(Flag::Carry, ret > 0x99);
        ret
    }

    /// Shift left into carry.
    pub fn sla(&mut self, op: u8) -> (r: u8)
        ensures
            (*final(self), r) == old(self).alu8self_done(Alu8SelfFunction::Sla, op),
    {
        self.set_flags(op == 128 || op == 0, false, false, op > 127);
        (op % 128) * 2
    }

    /// Arithmetic shift right into carry (bit 7 kept).
    pub fn sra(&mut self, op: u8) -> (r: u8)
        ensures
            (*final(self), r) == old(self).alu8self_done(Alu8SelfFunction::Sra, op),
    {
        self.set_flags(op < 2, false, false, op % 2 == 1);
        op / 2 + if op > 127 { 128 } else { 0 }
    }

    /// Logical shift right into carry.
    pub fn srl(&mut self, op: u8) -> (r: u8)
        ensures
            (*final(self), r) == old(self).alu8self_done(Alu8SelfFunction::Srl, op),
    {
        self.set_flags(op < 2, false, false, op % 2 == 1);
        op / 2
    }

    /// Swaps the nibbles.
    pub fn swap(&mut self, op: u8) -> (r: u8)
        ensures
            (*final(self), r) == old(self).alu8self_done(Alu8SelfFunction::Swap, op),
    {
        self.set_flags(op == 0, false, false, false);
        (op % 16) * 16 + op / 16
    }

    /// The bit that BIT, RES and SET address (bits 3..=5 of the opcode).
    pub fn bit_idx(&self) -> (r: u8)
        ensures
            r == bit_index(self.ir()),
            r < 8,
    {
        let ir = self.instruction_register();
        assert((ir & 0x3F) >> 3u8 < 8) by (bit_vector);
        (ir & 0x3F) >> 3u8
    }

    /// Tests a bit: Z is set when it is clear.
    pub fn bit(&mut self, op: u8) -> (r: u8)
        ensures
            (*final(self), r) == old(self).alu8self_done(Alu8SelfFunction::Bit, op),
    {
        let bi = self.bit_idx();
        self.mark_flag(Flag::Zero, ((op >> bi) % 2) == 0);
        self.mark_flag(Flag::Neg, false);
        self.mark_flag(Flag::HalfCarry, true);
        op
    }

    /// Clears a bit.
    pub fn res(&mut self, op: u8) -> (r: u8)
        ensures
            (*final(self), r) == old(self).alu8self_done(Alu8SelfFunction::Res, op),
    {
        let bi = self.bit_idx();
        op & !(1u8 << bi)
    }

    /// Sets a bit.
    pub fn set(&mut self, op: u8) -> (r: u8)
        ensures
            (*final(self), r) == old(self).alu8self_done(Alu8SelfFunction::SetBit, op),
    {
        let bi = self.bit_idx();
        op | (1u8 << bi)
    }

    pub fn inc_r16(&mut self, op: u16) -> (r: u16)
        ensures
            r == alu16_spec(Alu16SelfFunction::IncR16, op),
            *final(self) == *old(self),
    {
        op.wrapping_add(1)
    }

    pub fn dec_r16(&mut self, op: u16) -> (r: u16)
        ensures
            r == alu16_spec(Alu16SelfFunction::DecR16, op),
            *final(self) == *old(self),
    {
        op.wrapping_sub(1)
    }
}

} // verus!

verus! {

impl CpuStruct {
    pub fn nop(&mut self)
        ensures
            old(self).other_step(*final(self), CPUFunct::Nop),
    {
    }

    /// Increments the register in bits 3..=5 of the opcode.
    pub fn inc_r8(&mut self)
        ensures
            old(self).other_step(*final(self), CPUFunct::IncR8),
    {
        let reg = self.get_r8_mid();
        self.set_flags2([Some(reg == 0xff), Some(false), Some(reg % 0x10 == 0xf), None]);
        self.set_r8_mid(reg.wrapping_add(1));
    }

    /// Decrements the register in bits 3..=5 of the opcode.
    pub fn dec_r8(&mut self)
        ensures
            old(self).other_step(*final(self), CPUFunct::DecR8),
    {
        let reg = self.get_r8_mid();
        self.mark_flag(Flag::Zero, reg == 1);
        self.mark_flag(Flag::Neg, true);
        self.mark_flag(Flag::HalfCarry, reg == 0x10);
        self.set_r8_mid(reg.wrapping_sub(1));
    }

    /// Adds the register pair in bits 4..=5 of the opcode to HL.
    pub fn add_hl(&mut self)
        ensures
            old(self).other_step(*final(self), CPUFunct::AddHl),
    {
        let reg = self.r16_tbl();
        let operand: u16 = self.get_r16(reg);
        let hl_val: u16 = self.get_r16(DoubleReg::HL);
        let result = hl_val.wrapping_add(operand);
        self.set_r16(DoubleReg::HL, result);
        proof {
            low_twelve_bound(hl_val);
            low_twelve_bound(operand);
        }
        self.set_flags2(
            [
                None,
                Some(false),
                Some((hl_val & 0x0fff) + (operand & 0x0fff) > 0x1000),
                Some(hl_val.checked_add(operand).is_none()),
            ],
        );
    }

    /// Complements A.
    pub fn cpl(&mut self)
        ensures
            old(self).other_step(*final(self), CPUFunct::Cpl),
    {
        self.mark_flag(Flag::HalfCarry, true);
        self.mark_flag(Flag::Neg, true);
        self.a = !self.a;
    }

    /// Complements the carry flag.
    pub fn ccf(&mut self)
        ensures
            old(self).other_step(*final(self), CPUFunct::Ccf),
    {
        self.mark_flag(Flag::Neg, false);
        self.mark_flag(Flag::HalfCarry, false);
        self.f = self.f ^ Flag::Carry.discriminant();
    }

    /// Sets the carry flag.
    pub fn scf(&mut self)
        ensures
            old(self).other_step(*final(self), CPUFunct::Scf),
    {
        self.f = self.f | Flag::Carry.discriminant();
    }

    /// Jumps relative by the signed byte after the opcode.
    pub fn jr_imm(&mut self)
        ensures
            old(self).other_step(*final(self), CPUFunct::JrImm),
    {
        let imm = self.get_simm8();
        self.pc = self.pc.wrapping_add_signed(imm as i16);
    }

    /// Jumps to the word after the opcode (PC is left one before it).
    pub fn jump(&mut self)
        ensures
            ({
                let (s1, imm) = old(self).imm16();
                *final(self) == CpuStruct { pc: imm.wrapping_sub(1), ..s1 }
            }),
    {
        let imm: u16 = self.get_imm16();
        self.pc = imm.wrapping_sub(1);
    }

    /// Jumps to the word after the opcode when the condition holds.
    pub fn jp_cond_imm(&mut self)
        ensures
            old(self).other_step(*final(self), CPUFunct::JpCondImm),
    {
        let imm: u16 = self.get_imm16();
        if self.cond() {
            self.pc = imm.wrapping_sub(1);
        }
    }

    /// Pushes the address after the instruction and jumps to the word
    /// after the opcode.
    pub fn call(&mut self)
        ensures
            old(self).other_step(*final(self), CPUFunct::Call),
    {
        let ret_addr = self.pc.wrapping_add(3);
        self.push_stack(ret_addr);
        let ghost s1 = *self;
        let imm = self.get_imm16();
        self.pc = imm.wrapping_sub(1);
        assert(old(self).pushed(s1, old(self).pc.wrapping_add(3)));
    }

    /// Pushes PC and jumps to the vector in bits 3..=5 of the opcode.
    pub fn rst(&mut self)
        ensures
            old(self).other_step(*final(self), CPUFunct::Rst),
    {
        self.push_stack(self.pc);
        let ghost s1 = *self;
        self.pc = (self.instruction_register() & 0x38).wrapping_sub(1) as u16;
        assert(old(self).pushed(s1, old(self).pc));
    }

    /// Returns: PC is popped (and left one before the target).
    pub fn ret(&mut self)
        ensures
            old(self).other_step(*final(self), CPUFunct::Ret),
    {
        let v = self.pop_stack();
        self.pc = v.wrapping_sub(1);
    }

    /// Returns and enables interrupts.
    pub fn reti(&mut self)
        ensures
            old(self).other_step(*final(self), CPUFunct::Reti),
    {
        self.pc = self.pop_stack();
        match self.ime_flag {
            InterruptState::Disabled => self.ime_flag = InterruptState::EnableInterrupt,
            InterruptState::AlmostEnabled | InterruptState::Enabled => self.ime_flag = InterruptState::Enabled,
            _ => self.fault = true,
        }
    }

    /// Pops the register pair in bits 4..=5 of the opcode.
    pub fn pop(&mut self)
        ensures
            old(self).other_step(*final(self), CPUFunct::Pop),
    {
        let pop_val = self.pop_stack();
        let reg = self.r16_stk_tbl();
        self.set_r16(reg, pop_val);
    }

    /// Pushes the register pair in bits 4..=5 of the opcode.
    pub fn push(&mut self)
        ensures
            old(self).other_step(*final(self), CPUFunct::Push),
    {
        let reg = self.r16_stk_tbl();
        let value: u16 = self.get_r16(reg);
        self.push_stack(value);
    }

    /// Adds the signed byte after the opcode to SP.
    pub fn add_sp_imm8(&mut self)
        ensures
            old(self).other_step(*final(self), CPUFunct::AddSpImm8),
    {
        let operand: i8 = self.get_simm8();
        let carry = self.sp.checked_add_signed(operand as i16).is_none();
        self.mark_flag(Flag::Carry, carry);
        self.mark_flag(Flag::Neg, false);
        self.mark_flag(Flag::Zero, false);
        self.sp = self.sp.wrapping_add_signed(operand as i16);
    }

    /// Loads HL with SP - (0x100 - the byte after the opcode).
    pub fn ld_hl_imm8(&mut self)
        ensures
            old(self).other_step(*final(self), CPUFunct::LdHlImm8),
    {
        let imm = self.get_imm8();
        let v = self.sp.wrapping_sub(0x100 - (imm as u16));
        self.set_r16(DoubleReg::HL, v);
    }

    /// Disables interrupts.
    pub fn di(&mut self)
        ensures
            old(self).other_step(*final(self), CPUFunct::Di),
    {
        match self.ime_flag {
            InterruptState::Disabled => self.ime_flag = InterruptState::Disabled,
            InterruptState::AlmostEnabled | InterruptState::Enabled => self.ime_flag = InterruptState::DisableInterrupt,
            _ => self.fault = true,
        }
    }

    /// Enables interrupts after the next instruction.
    pub fn ei(&mut self)
        ensures
            old(self).other_step(*final(self), CPUFunct::Ei),
    {
        match self.ime_flag {
            InterruptState::Disabled => self.ime_flag = InterruptState::EnableInterrupt,
            InterruptState::AlmostEnabled | InterruptState::Enabled => self.ime_flag = InterruptState::Enabled,
            _ => self.fault = true,
        }
    }

    /// Stops (treated as a halt).
    pub fn stop(&mut self)
        ensures
            old(self).other_step(*final(self), CPUFunct::Stop),
    {
        self.stopped = true;
    }

    /// Halts until an interrupt.
    pub fn halt(&mut self)
        ensures
            old(self).other_step(*final(self), CPUFunct::Halt),
    {
        self.stopped = true;
        self.ime_flag = InterruptState::Enabled;
    }
}

/// The low twelve bits of a word are at most 0x0FFF.
proof fn low_twelve_bound(x: u16)
    ensures
        x & 0x0fff <= 0x0fff,
{
    assert(x & 0x0fff <= 0x0fff) by (bit_vector);
}

} // verus!

verus! {

impl CpuStruct {
    /// The 8-bit load from `source` to `dest`.
    pub fn ld(&mut self, source: &Src8, dest: &Dest8)
        ensures
            old(self).ld_step(*final(self), *source, *dest),
    {
        let source_value: u8 = match source {
            Src8::Imm16Mem => {
                let imm = self.get_imm16();
                self.read8(imm)
            },
            Src8::Imm8 => self.get_imm8(),
            Src8::HighBank => {
                let imm = self.get_imm8();
                self.read8(0xff00u16 + imm as u16)
            },
            Src8::Acc => self.a,
            Src8::R8Mid => self.get_r8_mid(),
            Src8::R8 => self.get_r8_end(),
            Src8::HighC => self.read8(0xff00u16 + self.c as u16),
            Src8::R16Mem => {
                let reg = self.r16_mem_tbl();
                self.get_r16_mem_8(reg)
            },
        };
        let ghost s1 = *self;
        assert((s1, source_value) == old(self).ld_source(*source));
        match dest {
            Dest8::R8 => self.set_r8_mid(source_value),
            Dest8::Imm16Mem => {
                let dest = self.get_imm16();
                self.write8(dest, source_value);
            },
            Dest8::Imm8High => {
                let imm = self.get_imm8();
                self.write8(0xff00u16 + imm as u16, source_value);
            },
            Dest8::Acc => self.a = source_value,
            Dest8::R16Mem => {
                let reg = self.r16_mem_tbl();
                self.set_r16_mem_8(reg, source_value);
            },
            Dest8::HighC => self.write8(0xff00u16 + self.c as u16, source_value),
        }
    }

    /// The 16-bit load from `source` to `dest`.
    pub fn ld16(&mut self, source: &Src16, dest: &Dest16)
        ensures
            *final(self) == old(self).ld16_spec(*source, *dest),
    {
        let value: u16 = match source {
            Src16::Imm16 => self.get_imm16(),
            Src16::HL => self.get_r16(DoubleReg::HL),
            Src16::SP => self.get_r16(DoubleReg::SP),
        };
        match dest {
            Dest16::R16 => {
                let reg = self.r16_tbl();
                self.set_r16(reg, value);
            },
            Dest16::PC => self.set_r16(DoubleReg::PC, value),
            Dest16::SP => self.set_r16(DoubleReg::SP, value),
            Dest16::HL => self.set_r16(DoubleReg::HL, value),
        }
    }

    fn alu8(&mut self, fun: Alu8Function, acc: u8, op: u8) -> (r: u8)
        ensures
            (*final(self), r) == old(self).alu8_out(fun, acc, op),
    {
        match fun {
            Alu8Function::Add => self.add(acc, op),
            Alu8Function::Adc => self.adc(acc, op),
            Alu8Function::Sub => self.sub(acc, op),
            Alu8Function::Subc => self.subc(acc, op),
            Alu8Function::And => self.and(acc, op),
            Alu8Function::Xor => self.xor(acc, op),
            Alu8Function::Or => self.or(acc, op),
            Alu8Function::Cp => self.cp(acc, op),
        }
    }

    fn alu8_self(&mut self, fun: Alu8SelfFunction, op: u8) -> (r: u8)
        ensures
            (*final(self), r) == old(self).alu8self_done(fun, op),
    {
        match fun {
            Alu8SelfFunction::Rlc => self.rlc(op),
            Alu8SelfFunction::Rrc => self.rrc(op),
            Alu8SelfFunction::Rl => self.rl(op),
            Alu8SelfFunction::Rr => self.rr(op),
            Alu8SelfFunction::Daa => self.daa(op),
            Alu8SelfFunction::Sla => self.sla(op),
            Alu8SelfFunction::Sra => self.sra(op),
            Alu8SelfFunction::Swap => self.swap(op),
            Alu8SelfFunction::Srl => self.srl(op),
            Alu8SelfFunction::Bit => self.bit(op),
            Alu8SelfFunction::Res => self.res(op),
            Alu8SelfFunction::SetBit => self.set(op),
        }
    }

    fn alu16_self(&mut self, fun: Alu16SelfFunction, op: u16) -> (r: u16)
        ensures
            r == alu16_spec(fun, op),
            *final(self) == *old(self),
    {
        match fun {
            Alu16SelfFunction::IncR16 => self.inc_r16(op),
            Alu16SelfFunction::DecR16 => self.dec_r16(op),
        }
    }

    fn other(&mut self, x: CPUFunct)
        ensures
            old(self).other_step(*final(self), x),
    {
        match x {
            CPUFunct::Nop | CPUFunct::CbBlock => self.nop(),
            CPUFunct::IncR8 => self.inc_r8(),
            CPUFunct::DecR8 => self.dec_r8(),
            CPUFunct::AddHl => self.add_hl(),
            CPUFunct::Cpl => self.cpl(),
            CPUFunct::Ccf => self.ccf(),
            CPUFunct::Scf => self.scf(),
            CPUFunct::JrImm => self.jr_imm(),
            CPUFunct::Stop => self.stop(),
            CPUFunct::Halt => self.halt(),
            CPUFunct::Ret => self.ret(),
            CPUFunct::Reti => self.reti(),
            CPUFunct::JpCondImm => self.jp_cond_imm(),
            CPUFunct::Call => self.call(),
            CPUFunct::Rst => self.rst(),
            CPUFunct::Pop => self.pop(),
            CPUFunct::Push => self.push(),
            CPUFunct::AddSpImm8 => self.add_sp_imm8(),
            CPUFunct::LdHlImm8 => self.ld_hl_imm8(),
            CPUFunct::Di => self.di(),
            CPUFunct::Ei => self.ei(),
        }
    }

    /// Runs one entry of an opcode table.
    fn execute(&mut self, fun: CPUFn)
        ensures
            old(self).fun_step(*final(self), fun),
    {
        match fun {
            CPUFn::Ld8(src_enum, dest_enum) => self.ld(&src_enum, &dest_enum),
            CPUFn::Ld16(src16, dest16) => self.ld16(&src16, &dest16),
            CPUFn::ALU8(alu_func) => {
                let op = self.alu_operand();
                let acc = self.a;
                self.a = self.alu8(alu_func, acc, op);
            },
            CPUFn::ALU8Self(alu_func) => {
                let op = self.get_r8_end();
                let val = self.alu8_self(alu_func, op);
                self.set_r8_end(val);
            },
            CPUFn::ALU16Self(alu_fun) => {
                let reg: DoubleReg = self.r16_tbl();
                let op = self.get_r16(reg);
                let val = self.alu16_self(alu_fun, op);
                self.set_r16(reg, val);
            },
            CPUFn::Other(x) => self.other(x),
            CPUFn::Cond(x, pc_advance) => {
                if self.cond() {
                    self.other(x);
                } else {
                    self.pc = self.pc.wrapping_add(pc_advance as u16);
                }
            },
        }
    }
}

} // verus!

verus! {

/// `i` is the first row of `t` that `op` matches (or the length of `t`)
/// when no earlier row matches and row `i` does.
proof fn lemma_first_match(t: Seq<FunFind>, op: u8, i: int)
    requires
        0 <= i <= t.len(),
        forall|j: int| 0 <= j < i ==> op & (#[trigger] t[j]).mask != t[j].value,
        i < t.len() ==> op & t[i].mask == t[i].value,
    ensures
        first_match(t, op) == i,
    decreases i,
{
    if i > 0 {
        let rest = t.drop_first();
        assert forall|j: int| 0 <= j < i - 1 implies op & (#[trigger] rest[j]).mask != rest[j].value by {
            assert(rest[j] == t[j + 1]);
        }
        assert(op & t[0].mask != t[0].value);
        if i - 1 < rest.len() {
            assert(rest[i - 1] == t[i]);
        }
        lemma_first_match(rest, op, i - 1);
    }
}

/// The index of the first row of `table` that `op` matches (the length of
/// the table when none does).
fn lookup(table: &[FunFind], op: u8) -> (r: usize)
    ensures
        r == first_match(table@, op),
{
    let mut i: usize = 0;
    while i < table.len()
        invariant
            0 <= i <= table.len(),
            forall|j: int| 0 <= j < i ==> op & (#[trigger] table@[j]).mask != table@[j].value,
        decreases table.len() - i,
    {
        if op & table[i].mask == table[i].value {
            proof {
                lemma_first_match(table@, op, i as int);
            }
            return i;
        }
        i = i + 1;
    }
    proof {
        lemma_first_match(table@, op, i as int);
    }
    i
}

/// The bit and the vector of the highest-priority interrupt pending in
/// `pending`, searching bits 0 to 4.
fn first_pending(pending: u8) -> (r: Option<(u8, u16)>)
    ensures
        match r {
            Some((bit, target)) => first_interrupt(pending) < 5 && bit == interrupt_bit(first_interrupt(pending))
                && target == 0x40 + 8 * first_interrupt(pending),
            None => first_interrupt(pending) == 5,
        },
{
    let mut bit_idx: u8 = 1;
    let mut target_call: u16 = 0x0040;
    let ghost mut k: int = 0;
    while bit_idx != 0x20
        invariant
            0 <= k <= 5,
            bit_idx == (if k == 5 { 0x20u8 } else { interrupt_bit(k) }),
            target_call == 0x40 + 8 * k,
            forall|j: int| 0 <= j < k ==> pending & #[trigger] interrupt_bit(j) == 0,
        decreases 5 - k,
    {
        if pending & bit_idx > 0 {
            return Some((bit_idx, target_call));
        }
        bit_idx = bit_idx * 2;
        target_call = target_call + 8;
        proof {
            k = k + 1;
        }
    }
    None
}

impl CpuStruct {
    /// Advances the interrupt master enable, ends a halt when an interrupt
    /// is requested and enabled, and, when the master enable is enabled,
    /// services the highest-priority such interrupt (see
    /// `interrupts_handled`).
    pub fn handle_interrupts(&mut self)
        ensures
            old(self).interrupts_handled(*final(self)),
    {
        reveal(CpuStruct::interrupts_handled);
        if self.fault {
            return ;
        }
        self.ime_flag = match self.ime_flag {
            InterruptState::Enabled | InterruptState::AlmostEnabled => InterruptState::Enabled,
            InterruptState::EnableInterrupt => InterruptState::AlmostEnabled,
            InterruptState::DisableInterrupt | InterruptState::Disabled => InterruptState::Disabled,
        };
        let are_interrupts_enabled: bool = match self.ime_flag {
            InterruptState::Enabled | InterruptState::DisableInterrupt => true,
            _ => false,
        };
        let enabled_interrupts_flag: u8 = self.read8(0xFFFF);
        let interrupt_flag: u8 = self.read8(0xFF0F);
        let ghost s2 = *self;
        match first_pending(interrupt_flag & enabled_interrupts_flag) {
            Some((bit_idx, target_call)) => {
                if are_interrupts_enabled {
                    //We check in here so that if we have the case where we're halted, and don't have IME Enabled, we unhalt
                    self.write8(0xFF0F, interrupt_flag ^ bit_idx);
                    let ghost s3 = *self;
                    self.ime_flag = InterruptState::Disabled;
                    self.push_stack(self.pc);
                    let ghost s4 = *self;
                    self.pc = target_call;
                    assert(s2.wr8(s3, 0xFF0F, interrupt_flag ^ bit_idx) && s3.ime_cleared().pushed(s4, s3.pc));
                }
                self.stopped = false;
            },
            None => {},
        }
    }

    /// Runs the first matching entry of the opcode table (or of the 0xCB
    /// table); returns that entry's cycles for an unprefixed instruction.
    fn run_table(&mut self) -> (wait: Option<u8>)
        ensures
            old(self).table_ran(*final(self)),
            !old(self).is_cb() && first_match(old(self).function_lookup@, old(self).ir()) < 63 ==> wait == Some(
                old(self).function_lookup[first_match(old(self).function_lookup@, old(self).ir())].wait,
            ),
            old(self).is_cb() || first_match(old(self).function_lookup@, old(self).ir()) >= 63 ==> wait is None,
    {
        let ir = self.instruction_register();
        if !self.cb_flag() {
            let i = lookup(&self.function_lookup, ir);
            if i < 63 {
                let fun_entry = self.function_lookup[i];
                self.execute(fun_entry.fun);
                return Some(fun_entry.wait);
            }
        } else {
            let i = lookup(&self.cb_block_lookup, ir);
            if i < 11 {
                let fun_entry = self.cb_block_lookup[i];
                match fun_entry.fun {
                    CPUFn::ALU8Self(_) => self.execute(fun_entry.fun),
                    _ => self.fault = true,
                }
            }
        }
        None
    }
}

} // verus!

verus! {

impl CpuStruct {
    /// One step of the processor's clock (see `interpreted`): the pending
    /// wait counts down, and when none is left the processor either checks
    /// interrupts while halted, or fetches, checks interrupts and runs the
    /// instruction at PC.
    pub fn interpret_command(&mut self)
        ensures
            old(self).interpreted(*final(self)),
    {
        if self.fault {
            return ;
        }
        if self.memory.wait > 0 {
            self.memory.wait = self.memory.wait - 1;
        }
        if self.memory.wait == 0 {
            if !self.stopped {
                if !(self.memory.can_read(self.pc as usize) && self.memory.can_read(self.pc.wrapping_add(1) as usize)
                    && self.memory.can_read(self.pc.wrapping_add(2) as usize)) {
                    self.fault = true;
                    return ;
                }
                let ghost s0 = *self;
                self.fetch();
                let ghost s1 = *self;
                if self.instruction_register() != 0xF3 {
                    //0xf3= disable interrutpts
                    self.handle_interrupts();
                }
                let ghost s2 = *self;
                assert(s1.irq_checked(s2));
                self.execute_fetched();
                let ghost s3 = *self;
                assert(s0.fetched(s1) && s1.irq_checked(s2) && s2.executed(s3));
                self.pc = self.pc.wrapping_add(1);
            } else {
                let ghost s0 = *self;
                self.handle_interrupts();  //We must handle interrutps for stop case.
                let ghost s1 = *self;
                assert(s0.interrupts_handled(s1));
                self.pc = self.pc.wrapping_add(1);
            }
        }
    }

    /// Reads the three bytes at PC into `command`.
    fn fetch(&mut self)
        requires
            !old(self).fault,
            old(self).fetch_ok(),
        ensures
            old(self).fetched(*final(self)),
    {
        self.command = self.memory.grab_memory_24(self.pc);
    }

    /// Runs the fetched instruction (see `executed`).
    fn execute_fetched(&mut self)
        ensures
            old(self).executed(*final(self)),
    {
        reveal(CpuStruct::executed);
        let ghost s2 = *self;
        let cb = self.cb_flag();
        let wait = self.run_table();
        let ghost mid = *self;
        if !cb {
            match wait {
                Some(w) => self.wait(w),
                None => {},
            }
        } else {
            self.pc = self.pc.wrapping_add(1);
        }
        proof {
            if !s2.is_cb() {
                let i = first_match(s2.function_lookup@, s2.ir());
                if i < 63 {
                    assert(s2.fun_step(mid, s2.function_lookup[i].fun));
                }
            } else {
                let i = first_match(s2.cb_block_lookup@, s2.ir());
                if i < 11 && s2.cb_block_lookup[i].fun is ALU8Self {
                    assert(s2.fun_step(mid, s2.cb_block_lookup[i].fun));
                }
            }
        }
    }

    /// Runs the given instruction (see `command_ran`); returns whether
    /// channel 1's sample queue must be emptied.
    pub fn run_command(&mut self, command: [u8; 3], pressed: [bool; 8]) -> (clear_queue: bool)
        ensures
            old(self).command_ran(*final(self), command, pressed, clear_queue),
    {
        if self.fault {
            return false;
        }
        self.command = command;
        let ghost s0 = *self;
        if self.instruction_register() != 0xF3 {
            //0xf3= disable interrutpts
            self.handle_interrupts();
        }
        let ghost s1 = *self;
        assert(s0.irq_checked(s1));
        let cb = self.cb_flag();
        let _ = self.run_table();
        let ghost s2 = *self;
        if !cb {
            return false;
        }
        self.clock_memory(pressed)
    }

    /// Clocks the memory with the buttons `pressed` (a memory that cannot
    /// be clocked is a fault).
    fn clock_memory(&mut self, pressed: [bool; 8]) -> (clear_queue: bool)
        ensures
            old(self).memory_clocked(*final(self), pressed, clear_queue),
    {
        if self.memory.can_clock() {
            self.memory.on_clock(pressed)
        } else {
            self.fault = true;
            false
        }
    }

    /// One clock of the machine with the buttons `pressed`: the processor
    /// steps, then the memory and its devices; returns whether channel 1's
    /// sample queue must be emptied.
    pub fn on_clock(&mut self, pressed: [bool; 8]) -> (clear_queue: bool)
        ensures
            old(self).clocked(*final(self), pressed, clear_queue),
    {
        self.interpret_command();
        let ghost s1 = *self;
        let r = self.clock_memory(pressed);
        assert(old(self).interpreted(s1));
        r
    }

    /// Loads the register values that the boot ROM leaves, with PC at the
    /// cartridge entry point 0x0100.
    pub fn test_init(&mut self)
        ensures
            *final(self) == (CpuStruct {
                a: 0x01,
                f: 0xB0,
                c: 0x13,
                e: 0xd8,
                h: 0x01,
                l: 0x4d,
                pc: 0x0100,
                sp: 0xFFFE,
                ..*old(self)
            }),
    {
        self.a = 0x01;
        self.f = 0xB0;
        self.c = 0x13;
        self.e = 0xd8;
        self.h = 0x01;
        self.l = 0x4d;
        self.pc = 0x0100;
        self.sp = 0xFFFE;
    }

    /// A processor at power-on: registers cleared, interrupts being
    /// disabled, running, with the opcode tables and a fresh address space.
    pub fn new(joypad: Joypad, audio: AudioController, boot_rom: [u8; 256], cartridge: Cartridge) -> (r: Self)
        ensures
            r.memory.is_fresh(joypad, audio, boot_rom, cartridge),
            r.function_lookup@ == function_table(),
            r.cb_block_lookup@ == cb_block_table(),
            r.ime_flag == InterruptState::DisableInterrupt,
            !r.stopped && !r.testing_mode && !r.fault,
            r.command[0] == 0 && r.command[1] == 0 && r.command[2] == 0,
            r.a == 0 && r.b == 0 && r.c == 0 && r.d == 0 && r.e == 0 && r.f == 0 && r.h == 0 && r.l == 0,
            r.sp == 0 && r.pc == 0,
    {
        Self {
            memory: MemWrap::new(joypad, audio, boot_rom, cartridge),
            function_lookup: FunFind::function_lookup(),
            cb_block_lookup: FunFind::cb_block_lookup(),
            ime_flag: InterruptState::DisableInterrupt,  //Interreupt master enable
            stopped: false,
            testing_mode: false,
            command: [0x00, 0x00, 0x00],
            a: 0x00,
            b: 0x00,
            c: 0x00,
            d: 0x00,
            e: 0x00,
            f: 0x00,
            h: 0x00,
            l: 0x00,
            sp: 0x0000,
            pc: 0x0000,
            fault: false,
        }
    }
}

} // verus!
