use vstd::prelude::*;

use crate::cpu::cpu::{flags_byte, glue, with_flag, CpuStruct, InterruptState};
use crate::cpu::function_table::{
    first_match, Alu16SelfFunction, Alu8Function, Alu8SelfFunction, CPUFn, CPUFunct, Dest16, Dest8, Src16, Src8,
};
use crate::cpu::registers::DoubleReg;
use crate::memory::memory_wrapper::{AsMemory, MemWrap};

verus! {

/// `f` with the flag bit `bit` changed to `o` where `o` is given.
pub open spec fn with_opt_flag(f: u8, bit: u8, o: Option<bool>) -> u8 {
    match o {
        Some(v) => with_flag(f, bit, v),
        None => f,
    }
}

/// `f` with Z, N, H and C changed to those of the four that are given.
pub open spec fn flags2(f: u8, z: Option<bool>, n: Option<bool>, h: Option<bool>, c: Option<bool>) -> u8 {
    with_opt_flag(with_opt_flag(with_opt_flag(with_opt_flag(f, 0x80, z), 0x40, n), 0x20, h), 0x10, c)
}

/// The interrupt master enable after the transition that precedes each
/// instruction: a pending EI becomes almost enabled, then enabled; DI
/// takes effect at once.
pub open spec fn ime_advanced(s: InterruptState) -> InterruptState {
    match s {
        InterruptState::Enabled | InterruptState::AlmostEnabled => InterruptState::Enabled,
        InterruptState::EnableInterrupt => InterruptState::AlmostEnabled,
        InterruptState::DisableInterrupt | InterruptState::Disabled => InterruptState::Disabled,
    }
}

/// The interrupt master enable after EI (and RETI); `None` in the states
/// where the machine does not define the instruction.
pub open spec fn ime_after_ei(s: InterruptState) -> Option<InterruptState> {
    match s {
        InterruptState::Disabled => Some(InterruptState::EnableInterrupt),
        InterruptState::AlmostEnabled | InterruptState::Enabled => Some(InterruptState::Enabled),
        _ => None,
    }
}

/// The interrupt master enable after DI; `None` in the states where the
/// machine does not define the instruction.
pub open spec fn ime_after_di(s: InterruptState) -> Option<InterruptState> {
    match s {
        InterruptState::Disabled => Some(InterruptState::Disabled),
        InterruptState::AlmostEnabled | InterruptState::Enabled => Some(InterruptState::DisableInterrupt),
        _ => None,
    }
}

/// The bit of interrupt `k` in IE and IF.
pub open spec fn interrupt_bit(k: int) -> u8 {
    if k == 0 {
        1
    } else if k == 1 {
        2
    } else if k == 2 {
        4
    } else if k == 3 {
        8
    } else {
        16
    }
}

/// The highest-priority interrupt pending in `p` (the lowest set bit
/// among the five interrupt bits), or 5 when none is.
pub open spec fn first_interrupt(p: u8) -> int {
    if p & interrupt_bit(0) != 0 {
        0
    } else if p & interrupt_bit(1) != 0 {
        1
    } else if p & interrupt_bit(2) != 0 {
        2
    } else if p & interrupt_bit(3) != 0 {
        3
    } else if p & interrupt_bit(4) != 0 {
        4
    } else {
        5
    }
}

/// The result and the new F of the accumulator operation `fun` on `acc`
/// and `op`, with the flags before it `f`.
pub open spec fn alu8_spec(fun: Alu8Function, f: u8, acc: u8, op: u8) -> (u8, u8) {
    let carry: u8 = if f & 0x10 == 0x10 { 1 } else { 0 };
    match fun {
        Alu8Function::Add => {
            let ret = acc.wrapping_add(op);
            (ret, flags_byte(ret == 0, false, (acc & 0x0F) + (op & 0x0F) > 0x10, acc + op > 0xFF))
        },
        Alu8Function::Adc => {
            let operand = op.wrapping_add(carry);
            let ret = acc.wrapping_add(operand);
            (ret, flags_byte(ret == 0, false, (acc & 0x0F) + (operand & 0x0F) > 0x10, acc + operand > 0xFF))
        },
        Alu8Function::Sub => (acc.wrapping_sub(op), flags_byte(acc == op, true, (acc & 0x0F) < (op & 0x0F), op > acc)),
        Alu8Function::Subc => {
            let operand = op.wrapping_add(carry);
            (acc.wrapping_sub(operand), flags_byte(acc == operand, true, (acc & 0x0F) < (operand & 0x0F), operand > acc))
        },
        Alu8Function::And => (acc & op, flags_byte(op & acc == 0, false, true, false)),
        Alu8Function::Xor => (acc ^ op, flags_byte(acc ^ op == 0, false, false, false)),
        Alu8Function::Or => (acc | op, flags_byte(acc | op == 0, false, false, false)),
        Alu8Function::Cp => (acc, flags_byte(acc == op, true, (acc & 0x0F) < (op & 0x0F), op > acc)),
    }
}

/// The bit that BIT, RES and SET address: bits 3..=5 of the opcode.
pub open spec fn bit_index(ir: u8) -> u8 {
    (ir & 0x3F) >> 3u8
}

/// The DAA adjustment of `acc`, by the flags `f` and the accumulator `a`.
pub open spec fn daa_value(f: u8, a: u8, acc: u8) -> u8 {
    let subtract = f & 0x40 == 0x40;
    let lo: u8 = if (!subtract && (a & 0xf) > 0x9) || f & 0x20 == 0x20 { 0x06 } else { 0 };
    let hi: u8 = if (!subtract && a > 0x99) || f & 0x10 == 0x10 { 0x60 } else { 0 };
    if subtract {
        acc.wrapping_sub((lo + hi) as u8)
    } else {
        acc.wrapping_add((lo + hi) as u8)
    }
}

/// The result and the new F of the single-register operation `fun` on
/// `op`, with the flags before it `f`, the accumulator `a`, the opcode `ir`
/// and whether it came after the 0xCB prefix.
pub open spec fn alu8self_spec(fun: Alu8SelfFunction, f: u8, a: u8, ir: u8, cb: bool, op: u8) -> (u8, u8) {
    let carry = f & 0x10 == 0x10;
    match fun {
        Alu8SelfFunction::Rlc => (((op % 128) * 2 + op / 128) as u8, flags_byte(cb && op == 0, false, false, op > 127)),
        Alu8SelfFunction::Rrc => ((op / 2 + (op % 2) * 128) as u8, flags_byte(cb && op == 0, false, false, op % 2 == 1)),
        Alu8SelfFunction::Rl => {
            let ret = ((op % 128) * 2 + if carry { 1int } else { 0 }) as u8;
            (ret, flags_byte(cb && ret == 0, false, false, op > 127))
        },
        Alu8SelfFunction::Rr => {
            let ret = (op / 2 + if carry { 128int } else { 0 }) as u8;
            (ret, flags_byte(cb && ret == 0, false, false, op % 2 == 1))
        },
        Alu8SelfFunction::Daa => {
            let ret = daa_value(f, a, op);
            (ret, with_flag(with_flag(with_flag(f, 0x80, ret == 0), 0x20, false), 0x10, ret > 0x99))
        },
        Alu8SelfFunction::Sla => (((op % 128) * 2) as u8, flags_byte(op == 128 || op == 0, false, false, op > 127)),
        Alu8SelfFunction::Sra => ((op / 2 + if op > 127 { 128int } else { 0 }) as u8, flags_byte(op < 2, false, false, op % 2 == 1)),
        Alu8SelfFunction::Swap => (((op % 16) * 16 + op / 16) as u8, flags_byte(op == 0, false, false, false)),
        Alu8SelfFunction::Srl => (op / 2, flags_byte(op < 2, false, false, op % 2 == 1)),
        Alu8SelfFunction::Bit => (op, with_flag(with_flag(with_flag(f, 0x80, (op >> bit_index(ir)) % 2 == 0), 0x40, false), 0x20, true)),
        Alu8SelfFunction::Res => (op & !(1u8 << bit_index(ir)), f),
        Alu8SelfFunction::SetBit => (op | (1u8 << bit_index(ir)), f),
    }
}

/// The result of the 16-bit register operation `fun` on `op`.
pub open spec fn alu16_spec(fun: Alu16SelfFunction, op: u16) -> u16 {
    match fun {
        Alu16SelfFunction::IncR16 => op.wrapping_add(1),
        Alu16SelfFunction::DecR16 => op.wrapping_sub(1),
    }
}

impl CpuStruct {
    /// The condition of a conditional instruction (bits 3..=4 of the
    /// opcode): NZ, Z, NC, C.
    pub open spec fn cond_holds(&self) -> bool {
        let k = (self.ir() >> 3u8) % 4;
        if k == 0 {
            !self.flag_set(0x80)
        } else if k == 1 {
            self.flag_set(0x80)
        } else if k == 2 {
            !self.flag_set(0x10)
        } else {
            self.flag_set(0x10)
        }
    }

    /// The operand of an accumulator operation: the byte after the opcode
    /// for opcodes above 0xC0, else the register in bits 0..=2.
    pub open spec fn operand(self) -> (CpuStruct, u8) {
        if self.ir() > 0xC0 {
            self.imm8()
        } else {
            self.r8(self.end_idx())
        }
    }

    /// The processor with the program counter advanced by `n`.
    pub open spec fn pc_advanced(self, n: u16) -> CpuStruct {
        CpuStruct { pc: self.pc.wrapping_add(n), ..self }
    }

    /// The processor with the pending wait counted down by one (when any).
    pub open spec fn wait_counted(self) -> CpuStruct {
        CpuStruct {
            memory: MemWrap { wait: if self.memory.wait > 0 { (self.memory.wait - 1) as u8 } else { 0 }, ..self.memory },
            ..self
        }
    }

    /// The processor with `command` as the fetched instruction.
    pub open spec fn with_command(self, command: [u8; 3]) -> CpuStruct {
        CpuStruct { command: command, ..self }
    }

    /// The processor with the interrupt master enable cleared.
    pub open spec fn ime_cleared(self) -> CpuStruct {
        CpuStruct { ime_flag: InterruptState::Disabled, ..self }
    }

    /// The processor with `n` cycles added to the pending wait.
    pub open spec fn waited(self, n: u8) -> CpuStruct {
        CpuStruct { memory: MemWrap { wait: self.memory.wait.wrapping_add(n), ..self.memory }, ..self }
    }

    /// The processor with the interrupt master enable set to `next`, or
    /// with a fault when `next` is `None`.
    pub open spec fn with_ime(self, next: Option<InterruptState>) -> CpuStruct {
        match next {
            Some(s) => CpuStruct { ime_flag: s, ..self },
            None => CpuStruct { fault: true, ..self },
        }
    }

    /// The processor and the byte that an 8-bit load takes from `src`.
    pub open spec fn ld_source(self, src: Src8) -> (CpuStruct, u8) {
        match src {
            Src8::Imm16Mem => {
                let (s1, a) = self.imm16();
                s1.rd8(a)
            },
            Src8::Imm8 => self.imm8(),
            Src8::HighBank => {
                let (s1, i) = self.imm8();
                s1.rd8(glue(0xff, i))
            },
            Src8::Acc => (self, self.a),
            Src8::R8Mid => self.r8(self.mid_idx()),
            Src8::R8 => self.r8(self.end_idx()),
            Src8::HighC => self.rd8(glue(0xff, self.c)),
            Src8::R16Mem => {
                let (s1, a) = self.r16(self.r16_mem_tbl_spec());
                s1.rd8(a)
            },
        }
    }

    /// `new` is the processor after an 8-bit load stores `v` at `dst`.
    pub open spec fn ld_dest(self, new: CpuStruct, dst: Dest8, v: u8) -> bool {
        match dst {
            Dest8::R8 => self.r8_set(new, self.mid_idx(), v),
            Dest8::Imm16Mem => {
                let (s1, a) = self.imm16();
                s1.wr8(new, a, v)
            },
            Dest8::Imm8High => {
                let (s1, i) = self.imm8();
                s1.wr8(new, glue(0xff, i), v)
            },
            Dest8::Acc => new == CpuStruct { a: v, ..self },
            Dest8::R16Mem => {
                let (s1, a) = self.r16(self.r16_mem_tbl_spec());
                s1.wr8(new, a, v)
            },
            Dest8::HighC => self.wr8(new, glue(0xff, self.c), v),
        }
    }

    /// `new` is the processor after the 8-bit load from `src` to `dst`.
    pub open spec fn ld_step(self, new: CpuStruct, src: Src8, dst: Dest8) -> bool {
        let (s1, v) = self.ld_source(src);
        s1.ld_dest(new, dst, v)
    }

    /// The processor after the 16-bit load from `src` to `dst`.
    pub open spec fn ld16_spec(self, src: Src16, dst: Dest16) -> CpuStruct {
        let (s1, v) = match src {
            Src16::Imm16 => self.imm16(),
            Src16::HL => (self, self.hl()),
            Src16::SP => (self, self.sp),
        };
        match dst {
            Dest16::R16 => s1.with_r16(s1.r16_tbl_spec(), v),
            Dest16::PC => s1.with_r16(DoubleReg::PC, v),
            Dest16::SP => s1.with_r16(DoubleReg::SP, v),
            Dest16::HL => s1.with_r16(DoubleReg::HL, v),
        }
    }

    /// The processor and the result after the accumulator operation `fun`
    /// on `acc` and `op` (only F changes).
    pub open spec fn alu8_out(self, fun: Alu8Function, acc: u8, op: u8) -> (CpuStruct, u8) {
        let (r, f) = alu8_spec(fun, self.f, acc, op);
        (CpuStruct { f: f, ..self }, r)
    }

    /// The processor after the accumulator operation `fun` with `op`: A
    /// takes the result.
    pub open spec fn alu8_done(self, fun: Alu8Function, op: u8) -> CpuStruct {
        let (s, r) = self.alu8_out(fun, self.a, op);
        CpuStruct { a: r, ..s }
    }

    /// The result and the processor after the single-register operation
    /// `fun` on `op` (only F changes).
    pub open spec fn alu8self_done(self, fun: Alu8SelfFunction, op: u8) -> (CpuStruct, u8) {
        let (r, f) = alu8self_spec(fun, self.f, self.a, self.ir(), self.is_cb(), op);
        (CpuStruct { f: f, ..self }, r)
    }

    /// `new` is the processor after the instruction `x`.
    pub open spec fn other_step(self, new: CpuStruct, x: CPUFunct) -> bool {
        match x {
            CPUFunct::Nop | CPUFunct::CbBlock => new == self,
            CPUFunct::IncR8 => {
                let (s1, v) = self.r8(self.mid_idx());
                let s2 = CpuStruct { f: flags2(s1.f, Some(v == 0xff), Some(false), Some(v % 0x10 == 0xf), None), ..s1 };
                s2.r8_set(new, self.mid_idx(), v.wrapping_add(1))
            },
            CPUFunct::DecR8 => {
                let (s1, v) = self.r8(self.mid_idx());
                let s2 = CpuStruct { f: with_flag(with_flag(with_flag(s1.f, 0x80, v == 1), 0x40, true), 0x20, v == 0x10), ..s1 };
                s2.r8_set(new, self.mid_idx(), v.wrapping_sub(1))
            },
            CPUFunct::AddHl => {
                let operand = self.r16(self.r16_tbl_spec()).1;
                let hl = self.hl();
                let s1 = self.with_r16(DoubleReg::HL, hl.wrapping_add(operand));
                new == CpuStruct {
                    f: flags2(
                        s1.f,
                        None,
                        Some(false),
                        Some((hl & 0x0fff) + (operand & 0x0fff) > 0x1000),
                        Some(hl + operand > 0xFFFF),
                    ),
                    ..s1
                }
            },
            CPUFunct::Cpl => new == CpuStruct { a: !self.a, f: with_flag(with_flag(self.f, 0x20, true), 0x40, true), ..self },
            CPUFunct::Ccf => new == CpuStruct { f: with_flag(with_flag(self.f, 0x40, false), 0x20, false) ^ 0x10, ..self },
            CPUFunct::Scf => new == CpuStruct { f: self.f | 0x10, ..self },
            CPUFunct::JrImm => new == CpuStruct {
                pc: self.pc.wrapping_add(1).wrapping_add_signed(self.command[1] as i8 as i16),
                ..self
            },
            CPUFunct::Stop => new == CpuStruct { stopped: true, ..self },
            CPUFunct::Halt => new == CpuStruct { stopped: true, ime_flag: InterruptState::Enabled, ..self },
            CPUFunct::Ret => {
                let (s1, v) = self.popped();
                new == CpuStruct { pc: v.wrapping_sub(1), ..s1 }
            },
            CPUFunct::Reti => {
                let (s1, v) = self.popped();
                new == CpuStruct { pc: v, ..s1 }.with_ime(ime_after_ei(self.ime_flag))
            },
            CPUFunct::JpCondImm => {
                let (s1, imm) = self.imm16();
                new == if self.cond_holds() { CpuStruct { pc: imm.wrapping_sub(1), ..s1 } } else { s1 }
            },
            CPUFunct::Call => exists|s1: CpuStruct|
                #[trigger] self.pushed(s1, self.pc.wrapping_add(3))
                && new == CpuStruct { pc: glue(self.command[2], self.command[1]).wrapping_sub(1), ..s1 },
            CPUFunct::Rst => exists|s1: CpuStruct|
                #[trigger] self.pushed(s1, self.pc)
                && new == CpuStruct { pc: (self.ir() & 0x38).wrapping_sub(1) as u16, ..s1 },
            CPUFunct::Pop => {
                let (s1, v) = self.popped();
                new == s1.with_r16(self.r16_stk_tbl_spec(), v)
            },
            CPUFunct::Push => self.pushed(new, self.r16(self.r16_stk_tbl_spec()).1),
            CPUFunct::AddSpImm8 => {
                let o = self.command[1] as i8 as i16;
                new == CpuStruct {
                    pc: self.pc.wrapping_add(1),
                    sp: self.sp.wrapping_add_signed(o),
                    f: with_flag(with_flag(with_flag(self.f, 0x10, self.sp + o > 0xFFFF || self.sp + o < 0), 0x40, false), 0x80, false),
                    ..self
                }
            },
            CPUFunct::LdHlImm8 => {
                let (s1, imm) = self.imm8();
                new == s1.with_r16(DoubleReg::HL, self.sp.wrapping_sub((0x100 - imm) as u16))
            },
            CPUFunct::Di => new == self.with_ime(ime_after_di(self.ime_flag)),
            CPUFunct::Ei => new == self.with_ime(ime_after_ei(self.ime_flag)),
        }
    }

    /// `new` is the processor after running the table entry `fun`.
    pub open spec fn fun_step(self, new: CpuStruct, fun: CPUFn) -> bool {
        match fun {
            CPUFn::Ld8(s, d) => self.ld_step(new, s, d),
            CPUFn::Ld16(s, d) => new == self.ld16_spec(s, d),
            CPUFn::ALU8(g) => {
                let (s1, op) = self.operand();
                new == s1.alu8_done(g, op)
            },
            CPUFn::ALU8Self(g) => {
                let (s1, op) = self.r8(self.end_idx());
                let (s2, r) = s1.alu8self_done(g, op);
                s2.r8_set(new, self.end_idx(), r)
            },
            CPUFn::ALU16Self(g) => {
                let reg = self.r16_tbl_spec();
                let (s1, op) = self.r16(reg);
                new == s1.with_r16(reg, alu16_spec(g, op))
            },
            CPUFn::Other(x) => self.other_step(new, x),
            CPUFn::Cond(x, adv) => if self.cond_holds() {
                self.other_step(new, x)
            } else {
                new == self.pc_advanced(adv as u16)
            },
        }
    }

    /// `new` is the processor after the interrupt check that precedes an
    /// instruction: the interrupt master enable advances, and IE (0xFFFF)
    /// and IF (0xFF0F) are read. When an interrupt is both requested and
    /// enabled, a halt ends; when the master enable is then enabled, the
    /// highest-priority such interrupt is also acknowledged in IF, the
    /// enable is cleared, PC is pushed and execution continues at its vector
    /// 0x40 + 8k. A processor with a fault does nothing.
    #[verifier::opaque]
    pub open spec fn interrupts_handled(self, new: CpuStruct) -> bool {
        let s0 = CpuStruct { ime_flag: ime_advanced(self.ime_flag), ..self };
        let (s1, ie) = s0.rd8(0xFFFF);
        let (s2, fl) = s1.rd8(0xFF0F);
        let k = first_interrupt(fl & ie);
        if self.fault {
            new == self
        } else if k >= 5 {
            new == s2
        } else if s0.ime_flag != InterruptState::Enabled {
            new == CpuStruct { stopped: false, ..s2 }
        } else {
            exists|s3: CpuStruct, s4: CpuStruct|
                #[trigger] s2.wr8(s3, 0xFF0F, fl ^ interrupt_bit(k))
                && #[trigger] s3.ime_cleared().pushed(s4, s3.pc)
                && new == CpuStruct { pc: (0x40 + 8 * k) as u16, stopped: false, ..s4 }
        }
    }

    /// `new` is the processor after running the fetched instruction: the
    /// first matching entry of the opcode table (or of the 0xCB table,
    /// which also steps over the prefix); an unprefixed entry adds its
    /// cycles to the wait.
    #[verifier::opaque]
    pub open spec fn executed(self, new: CpuStruct) -> bool {
        if !self.is_cb() {
            let i = first_match(self.function_lookup@, self.ir());
            if i < 63 {
                exists|s: CpuStruct|
                    #[trigger] self.fun_step(s, self.function_lookup[i].fun)
                    && new == s.waited(self.function_lookup[i].wait)
            } else {
                new == self
            }
        } else {
            let i = first_match(self.cb_block_lookup@, self.ir());
            if i < 11 {
                if self.cb_block_lookup[i].fun is ALU8Self {
                    exists|s: CpuStruct| #[trigger] self.fun_step(s, self.cb_block_lookup[i].fun) && new == s.pc_advanced(1)
                } else {
                    new == CpuStruct { fault: true, ..self }.pc_advanced(1)
                }
            } else {
                new == self.pc_advanced(1)
            }
        }
    }

    /// The three bytes at PC (wrapping) can be fetched.
    pub open spec fn fetch_ok(&self) -> bool {
        &&& self.memory.readable(self.pc as usize)
        &&& self.memory.readable(self.pc.wrapping_add(1) as usize)
        &&& self.memory.readable(self.pc.wrapping_add(2) as usize)
    }

    /// `new` is the processor with the three bytes at PC read into
    /// `command`, each read as `MemWrap::grab_memory_8`.
    pub open spec fn fetched(self, new: CpuStruct) -> bool {
        let (s1, b0) = self.rd8(self.pc);
        let (s2, b1) = s1.rd8(self.pc.wrapping_add(1));
        let (s3, b2) = s2.rd8(self.pc.wrapping_add(2));
        &&& new.command[0] == b0
        &&& new.command[1] == b1
        &&& new.command[2] == b2
        &&& new == CpuStruct { command: new.command, ..s3 }
    }

    /// `new` is the processor after one call of `interpret_command`: the
    /// pending wait counts down; when it is then zero, a halted processor
    /// only checks interrupts, and a running one fetches the instruction at
    /// PC, checks interrupts (unless the instruction is DI) and runs it;
    /// either way PC then steps by one. A processor with a fault does
    /// nothing, and a fetch that cannot be made is a fault.
    pub open spec fn interpreted(self, new: CpuStruct) -> bool {
        let s0 = self.wait_counted();
        if self.fault {
            new == self
        } else if s0.memory.wait != 0 {
            new == s0
        } else if s0.stopped {
            exists|s1: CpuStruct| #[trigger] s0.interrupts_handled(s1) && new == s1.pc_advanced(1)
        } else if !s0.fetch_ok() {
            new == CpuStruct { fault: true, ..s0 }
        } else {
            exists|s1: CpuStruct, s2: CpuStruct, s3: CpuStruct|
                #![trigger s0.fetched(s1), s1.irq_checked(s2), s2.executed(s3)]
                s0.fetched(s1) && s1.irq_checked(s2) && s2.executed(s3) && new == s3.pc_advanced(1)
        }
    }

    /// `new` is the processor after the interrupt check, which every
    /// instruction but DI (0xF3) makes before it runs.
    pub open spec fn irq_checked(self, new: CpuStruct) -> bool {
        if self.ir() != 0xF3 {
            self.interrupts_handled(new)
        } else {
            new == self
        }
    }

    /// `new` is the processor after running the first matching entry of
    /// the opcode table (or of the 0xCB table, whose entries must be
    /// single-register operations: another is a fault), with no wait.
    pub open spec fn table_ran(self, new: CpuStruct) -> bool {
        if !self.is_cb() {
            let i = first_match(self.function_lookup@, self.ir());
            if i < 63 {
                self.fun_step(new, self.function_lookup[i].fun)
            } else {
                new == self
            }
        } else {
            let i = first_match(self.cb_block_lookup@, self.ir());
            if i < 11 {
                if self.cb_block_lookup[i].fun is ALU8Self {
                    self.fun_step(new, self.cb_block_lookup[i].fun)
                } else {
                    new == CpuStruct { fault: true, ..self }
                }
            } else {
                new == self
            }
        }
    }

    /// `new` is the processor after the memory is clocked with the buttons
    /// `pressed` (answering `clear_queue`); a memory that cannot be clocked
    /// is a fault.
    pub open spec fn memory_clocked(self, new: CpuStruct, pressed: [bool; 8], clear_queue: bool) -> bool {
        if self.memory.clock_ok() {
            self.memory.clocked_to(&new.memory, pressed, clear_queue) && new == CpuStruct { memory: new.memory, ..self }
        } else {
            new == CpuStruct { fault: true, ..self } && !clear_queue
        }
    }

    /// `new` is the processor after `run_command(command, pressed)`, which
    /// answered `clear_queue`: the given instruction runs after the
    /// interrupt check, without a wait and without moving PC past it; a
    /// 0xCB-prefixed one then clocks the memory. A processor with a fault
    /// does nothing.
    pub open spec fn command_ran(self, new: CpuStruct, command: [u8; 3], pressed: [bool; 8], clear_queue: bool) -> bool {
        let s0 = self.with_command(command);
        if self.fault {
            new == self && !clear_queue
        } else {
            exists|s1: CpuStruct, s2: CpuStruct|
                #![trigger s0.irq_checked(s1), s1.table_ran(s2)]
                s0.irq_checked(s1) && s1.table_ran(s2) && if s1.is_cb() {
                    s2.memory_clocked(new, pressed, clear_queue)
                } else {
                    new == s2 && !clear_queue
                }
        }
    }

    /// `new` is the processor after one clock with the buttons `pressed`:
    /// one `interpret_command`, then the memory is clocked.
    pub open spec fn clocked(self, new: CpuStruct, pressed: [bool; 8], clear_queue: bool) -> bool {
        exists|s1: CpuStruct| #[trigger] self.interpreted(s1) && s1.memory_clocked(new, pressed, clear_queue)
    }
}

} // verus!
