use vstd::prelude::*;

use crate::memory::memory_wrapper::{AsMemory, MemWrap};

verus! {

/// The 8-bit registers, and the byte at (HL).
#[derive(Copy, Clone, PartialEq, Eq, Structural, Debug)]
pub enum SingleReg {
    A,
    B,
    C,
    D,
    E,
    F,
    H,
    L,
    Memptr,
}

/// The register pairs; HLP and HLM are HL with a post-increment or
/// post-decrement.
#[derive(Copy, Clone, PartialEq, Eq, Structural, Debug)]
pub enum DoubleReg {
    AF,
    BC,
    DE,
    HL,
    HLP,
    HLM,
    SP,
    PC,
}

/// The flags of the F register.
#[derive(Copy, Clone, PartialEq, Eq, Structural, Debug)]
pub enum Flag {
    Zero,
    Neg,  //Often marked as N.
    HalfCarry,
    Carry,
}

/// The bit of F that a flag occupies.
pub open spec fn flag_bit(flag: Flag) -> u8 {
    match flag {
        Flag::Zero => 0x80,
        Flag::Neg => 0x40,
        Flag::HalfCarry => 0x20,
        Flag::Carry => 0x10,
    }
}

impl Flag {
    /// The bit of F that the flag occupies: Z 0x80, N 0x40, H 0x20, C 0x10.
    pub fn discriminant(&self) -> (r: u8)
        ensures
            r == flag_bit(*self),
    {
        match self {
            Flag::Zero => 0x80,
            Flag::Neg => 0x40,
            Flag::HalfCarry => 0x20,
            Flag::Carry => 0x10,
        }
    }
}

} // verus!

verus! {

/// How an instruction leaves a flag.
#[derive(Copy, Clone, PartialEq, Eq, Structural, Debug)]
pub enum FlagR {
    SetFlag,
    Unset,
    Keep,
    Function(bool),
}

/// The register file on its own: eight 8-bit registers, SP and PC.
#[derive(Copy, Clone, PartialEq, Eq, Structural, Debug)]
pub struct RegStruct {
    pub a: u8,  //A IS THE ACCUMULATOR
    pub b: u8,
    pub c: u8,
    pub d: u8,
    pub e: u8,
    pub f: u8,
    pub h: u8,
    pub l: u8,
    pub sp: u16,
    pub pc: u16,
}

/// The value of F for `set_flags`: Z and N both land on bit 6, H on bit 5,
/// C on bit 4 (Z and N together carry into bit 7).
pub open spec fn reg_flags_byte(zero: bool, neg: bool, hc: bool, carry: bool) -> u8 {
    ((if zero { 64int } else { 0 }) + (if neg { 64int } else { 0 }) + (if hc { 32int } else { 0 }) + (if carry { 16int } else { 0 })) as u8
}

impl RegStruct {
    /// HL.
    pub open spec fn hl(&self) -> u16 {
        (self.h * 256 + self.l) as u16
    }

    /// The value of a register pair (HL+ and HL- give HL).
    pub open spec fn pair(&self, reg: DoubleReg) -> u16 {
        match reg {
            DoubleReg::AF => (self.a * 256 + self.f) as u16,
            DoubleReg::BC => (self.b * 256 + self.c) as u16,
            DoubleReg::DE => (self.d * 256 + self.e) as u16,
            DoubleReg::HL | DoubleReg::HLP | DoubleReg::HLM => self.hl(),
            DoubleReg::SP => self.sp,
            DoubleReg::PC => self.pc,
        }
    }

    /// The registers after reading a pair: HL+ and HL- step HL.
    pub open spec fn after_pair(self, reg: DoubleReg) -> RegStruct {
        match reg {
            DoubleReg::HLP => {
                let n = self.hl().wrapping_add(1);
                RegStruct { h: (n >> 8u16) as u8, l: n as u8, ..self }
            },
            DoubleReg::HLM => {
                let n = self.hl().wrapping_sub(1);
                RegStruct { h: (n >> 8u16) as u8, l: n as u8, ..self }
            },
            _ => self,
        }
    }

    /// The value of an 8-bit register; `Memptr` is the byte at HL in `mem`.
    pub open spec fn single(&self, reg: SingleReg, mem: &MemWrap) -> u8 {
        match reg {
            SingleReg::A => self.a,
            SingleReg::B => self.b,
            SingleReg::C => self.c,
            SingleReg::D => self.d,
            SingleReg::E => self.e,
            SingleReg::F => self.f,
            SingleReg::H => self.h,
            SingleReg::L => self.l,
            SingleReg::Memptr => mem.peek(self.hl() as usize),
        }
    }

    /// The registers with the 8-bit register `reg` (not F, not `Memptr`) set.
    pub open spec fn with_single(self, reg: SingleReg, val: u8) -> RegStruct {
        match reg {
            SingleReg::A => RegStruct { a: val, ..self },
            SingleReg::B => RegStruct { b: val, ..self },
            SingleReg::C => RegStruct { c: val, ..self },
            SingleReg::D => RegStruct { d: val, ..self },
            SingleReg::E => RegStruct { e: val, ..self },
            SingleReg::H => RegStruct { h: val, ..self },
            _ => RegStruct { l: val, ..self },
        }
    }

    /// The registers with a pair (not AF, HL+ or HL-) set.
    pub open spec fn with_pair(self, reg: DoubleReg, val: u16) -> RegStruct {
        match reg {
            DoubleReg::BC => RegStruct { b: (val >> 8u16) as u8, c: val as u8, ..self },
            DoubleReg::DE => RegStruct { d: (val >> 8u16) as u8, e: val as u8, ..self },
            DoubleReg::HL => RegStruct { h: (val >> 8u16) as u8, l: val as u8, ..self },
            DoubleReg::SP => RegStruct { sp: val, ..self },
            _ => RegStruct { pc: val, ..self },
        }
    }

    /// The memory that reading `reg` leaves: `Memptr` reads as
    /// `MemWrap::grab_memory_8`.
    pub open spec fn mem_after_single(&self, reg: SingleReg, mem: MemWrap) -> MemWrap {
        if reg == SingleReg::Memptr {
            MemWrap { wait: mem.wait.wrapping_add(2), ..mem.after_read(self.hl() as usize) }
        } else {
            mem
        }
    }

    pub fn get_acc(&mut self) -> (r: u8)
        ensures
            r == old(self).a,
            *final(self) == *old(self),
    {
        self.a
    }

    pub fn set_acc(&mut self, val: u8)
        ensures
            *final(self) == (RegStruct { a: val, ..*old(self) }),
    {
        self.a = val
    }

    /// Reads an 8-bit register (`Memptr` reads the byte at HL).
    pub fn get_r8(&mut self, reg: SingleReg, memory: &mut MemWrap) -> (r: u8)
        requires
            reg == SingleReg::Memptr ==> old(memory).readable(old(self).hl() as usize),
        ensures
            r == old(self).single(reg, old(memory)),
            *final(self) == *old(self),
            *final(memory) == old(self).mem_after_single(reg, *old(memory)),
    {
        match reg {
            SingleReg::A => self.a,
            SingleReg::B => self.b,
            SingleReg::C => self.c,
            SingleReg::D => self.d,
            SingleReg::E => self.e,
            SingleReg::F => self.f,
            SingleReg::H => self.h,
            SingleReg::Memptr => {
                let hl = self.get_r16(DoubleReg::HL);
                memory.grab_memory_8(hl)
            },
            SingleReg::L => self.l,
        }
    }

    /// Reads a register pair; HL+ and HL- step HL after giving it.
    pub fn get_r16(&mut self, reg: DoubleReg) -> (r: u16)
        ensures
            r == old(self).pair(reg),
            *final(self) == old(self).after_pair(reg),
    {
        match reg {
            DoubleReg::AF => (self.a as u16) * 0x100 + (self.f as u16),
            DoubleReg::BC => (self.b as u16) * 0x100 + (self.c as u16),
            DoubleReg::DE => (self.d as u16) * 0x100 + (self.e as u16),
            DoubleReg::HL => (self.h as u16) * 0x100 + (self.l as u16),
            DoubleReg::HLP => {
                let hl = (self.h as u16) * 0x100 + (self.l as u16);
                let addr = hl.wrapping_add(1);
                self.h = (addr >> 8u16) as u8;
                self.l = addr as u8;
                hl
            },
            DoubleReg::HLM => {
                let hl = (self.h as u16) * 0x100 + (self.l as u16);
                let addr = hl.wrapping_sub(1);
                self.h = (addr >> 8u16) as u8;
                self.l = addr as u8;
                hl
            },
            DoubleReg::SP => self.sp,
            DoubleReg::PC => self.pc,
        }
    }

    /// Sets an 8-bit register (`Memptr` writes the byte at HL); F cannot be
    /// set this way.
    pub fn set_r8(&mut self, reg: SingleReg, val: u8, memory: &mut MemWrap)
        requires
            reg != SingleReg::F,
            reg == SingleReg::Memptr ==> old(memory).writable(old(self).hl() as usize),
        ensures
            reg == SingleReg::Memptr ==> *final(self) == *old(self) && old(memory).written(final(memory), old(self).hl() as usize, val),
            reg != SingleReg::Memptr ==> *final(self) == old(self).with_single(reg, val) && *final(memory) == *old(memory),
    {
        match reg {
            SingleReg::A => self.a = val,
            SingleReg::B => self.b = val,
            SingleReg::C => self.c = val,
            SingleReg::D => self.d = val,
            SingleReg::E => self.e = val,
            SingleReg::Memptr => {
                let hl = self.get_r16(DoubleReg::HL);
                memory.set_memory_8(hl, val)
            },
            SingleReg::H => self.h = val,
            _ => self.l = val,
        }
    }

    /// Sets a register pair; AF, HL+ and HL- cannot be set this way.
    pub fn set_r16(&mut self, reg: DoubleReg, val: u16)
        requires
            reg != DoubleReg::AF,
            reg != DoubleReg::HLP,
            reg != DoubleReg::HLM,
        ensures
            *final(self) == old(self).with_pair(reg, val),
    {
        match reg {
            DoubleReg::BC => {
                self.b = (val >> 8u16) as u8;
                self.c = val as u8;
            },
            DoubleReg::DE => {
                self.d = (val >> 8u16) as u8;
                self.e = val as u8;
            },
            DoubleReg::HL => {
                self.h = (val >> 8u16) as u8;
                self.l = val as u8;
            },
            DoubleReg::SP => self.sp = val,
            _ => self.pc = val,
        }
    }

    /// Sets a flag.
    pub fn set_flag(&mut self, flag: Flag)
        ensures
            *final(self) == (RegStruct { f: old(self).f | flag_bit(flag), ..*old(self) }),
    {
        self.f = self.f | match flag {
            Flag::Zero => 128,
            Flag::Neg => 64,
            Flag::HalfCarry => 32,
            Flag::Carry => 16,
        };
    }

    /// Sets the flag when `b`, else clears it.
    pub fn flag_cond(&mut self, flag: Flag, b: bool)
        ensures
            *final(self) == (RegStruct {
                f: if b { old(self).f | flag_bit(flag) } else { old(self).f & !flag_bit(flag) },
                ..*old(self)
            }),
    {
        if b {
            self.set_flag(flag);
        } else {
            self.unset_flag(flag);
        }
    }

    /// Sets F from four flags (see `reg_flags_byte`).
    pub fn set_flags(&mut self, zero: bool, neg: bool, hc: bool, carry: bool)
        ensures
            *final(self) == (RegStruct { f: reg_flags_byte(zero, neg, hc, carry), ..*old(self) }),
    {
        let z: u8 = if zero { 1 } else { 0 };
        let n: u8 = if neg { 1 } else { 0 };
        let h: u8 = if hc { 1 } else { 0 };
        let c: u8 = if carry { 1 } else { 0 };
        self.f = ((((z * 2) + (n * 2)) + h) * 2 + c) * 16;
    }

    /// Clears a flag.
    pub fn unset_flag(&mut self, flag: Flag)
        ensures
            *final(self) == (RegStruct { f: old(self).f & !flag_bit(flag), ..*old(self) }),
    {
        let mask: u8 = match flag {
            Flag::Zero => 0x7F,
            Flag::Neg => 0xBF,
            Flag::HalfCarry => 0xDF,
            Flag::Carry => 0xEF,
        };
        assert(mask == !flag_bit(flag)) by {
            assert(!0x80u8 == 0x7Fu8) by (bit_vector);
            assert(!0x40u8 == 0xBFu8) by (bit_vector);
            assert(!0x20u8 == 0xDFu8) by (bit_vector);
            assert(!0x10u8 == 0xEFu8) by (bit_vector);
        }
        self.f = self.f & mask;
    }

    /// Advances PC by `amount` and returns it.
    pub fn inc_pc(&mut self, amount: u8) -> (r: u16)
        requires
            old(self).pc + amount <= 0xFFFF,
        ensures
            r == old(self).pc + amount,
            *final(self) == (RegStruct { pc: r, ..*old(self) }),
    {
        self.pc = self.pc + amount as u16;
        return self.pc;
    }

    /// Sets PC and returns it.
    pub fn set_pc(&mut self, amount: u16) -> (r: u16)
        ensures
            r == amount,
            *final(self) == (RegStruct { pc: amount, ..*old(self) }),
    {
        self.pc = amount;
        self.pc
    }

    /// Replaces the 8-bit register `reg` by `fun` of its value and returns
    /// the new value.
    pub fn change_r8<Fun: Fn(u8) -> u8>(&mut self, reg: SingleReg, fun: Fun, mem: &mut MemWrap) -> (r: u8)
        requires
            reg != SingleReg::F,
            reg == SingleReg::Memptr ==> old(mem).readable(old(self).hl() as usize) && old(mem).writable(old(self).hl() as usize),
            forall|x: u8| fun.requires((x,)),
        ensures
            fun.ensures((old(self).single(reg, old(mem)),), r),
            reg == SingleReg::Memptr ==> *final(self) == *old(self) && old(self).mem_after_single(reg, *old(mem)).written(
                final(mem),
                old(self).hl() as usize,
                r,
            ),
            reg != SingleReg::Memptr ==> *final(self) == old(self).with_single(reg, r) && *final(mem) == *old(mem),
    {
        let v = self.get_r8(reg, mem);
        let result = fun(v);
        self.set_r8(reg, result, mem);
        result
    }

    /// Replaces a register pair (not AF, HL+ or HL-) by `fun` of its value.
    pub fn change_r16<Fun: Fn(u16) -> u16>(&mut self, reg: DoubleReg, fun: Fun)
        requires
            reg != DoubleReg::AF,
            reg != DoubleReg::HLP,
            reg != DoubleReg::HLM,
            forall|x: u16| fun.requires((x,)),
        ensures
            exists|r: u16| fun.ensures((old(self).pair(reg),), r) && *final(self) == old(self).with_pair(reg, r),
    {
        let v = self.get_r16(reg);
        let result = fun(v);
        self.set_r16(reg, result);
    }

    /// Whether bit `idx` of the 8-bit register `reg` is set.
    pub fn get_bit(&mut self, reg: SingleReg, idx: u8, mem: &mut MemWrap) -> (r: bool)
        requires
            idx < 8,
            reg == SingleReg::Memptr ==> old(mem).readable(old(self).hl() as usize),
        ensures
            r == ((old(self).single(reg, old(mem)) >> idx) % 2 == 1),
            *final(self) == *old(self),
            *final(mem) == old(self).mem_after_single(reg, *old(mem)),
    {
        let v = self.get_r8(reg, mem);
        assert((v & (1u8 << idx)) == (1u8 << idx) <==> (v >> idx) % 2 == 1) by (bit_vector)
            requires
                idx < 8,
        ;
        return (v & (1u8 << idx)) == (1u8 << idx);
    }

    /// Clears all flags (as `set_flags` with every flag false).
    pub fn reset_flags(&mut self)
        ensures
            *final(self) == (RegStruct { f: 0, ..*old(self) }),
    {
        self.set_flags(false, false, false, false);
    }

    /// Every register cleared.
    pub fn new() -> (r: Self)
        ensures
            r == (RegStruct { a: 0, b: 0, c: 0, d: 0, e: 0, f: 0, h: 0, l: 0, sp: 0, pc: 0 }),
    {
        return Self {
            a: 0x00,  //A IS THE ACCUMULATOR
            b: 0,
            c: 0x00,
            d: 0,
            e: 0x00,
            f: 0x00,
            h: 0x00,
            l: 0x00,
            sp: 0x0000,
            pc: 0x0000,
        };
    }
}

} // verus!
