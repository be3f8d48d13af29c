//! Properties that hold across the operations of the machine.

use vstd::prelude::*;

use crate::cartridge::mbc1::Mbc1;
use crate::cartridge::mbc2::Mbc2;
use crate::cartridge::mbc3::{Mbc3, RTC};
use crate::cartridge::mbc5::Mbc5;
use crate::interrupt::Interrupt;
use crate::memory::mapped_io::MappedIO;
use crate::screen::screen::{color_id, palette_shade, GBColor};
use crate::cpu::cpu::{CpuStruct, InterruptState};
use crate::cpu::function_table::{
    cb_block_table, first_match, function_table, Alu16SelfFunction, Alu8Function, Alu8SelfFunction, CPUFn, CPUFunct, Dest16, Dest8,
    FunFind, Src16, Src8,
};
use crate::cpu::registers::{DoubleReg, RegStruct};
use crate::cpu::step::{alu8_spec, alu8self_spec, ime_advanced, ime_after_di, ime_after_ei};
use crate::memory::memory_wrapper::{AsMemory, MemWrap, Timer};
use crate::screen::oam::OamStruct;
use crate::screen::screen::Screen;
use crate::screen::video_controller::VideoController;
use crate::screen::vram::Vram;

verus! {

broadcast use vstd::array::group_array_axioms;

/// Work RAM (0xC000..=0xDFFF) and high RAM (0xFF80..=0xFFFE): the memory
/// that holds what is written to it.
pub open spec fn plain_ram(addr: usize) -> bool {
    (0xC000 <= addr <= 0xDFFF) || (0xFF80 <= addr <= 0xFFFE)
}

/// A byte written to work RAM or high RAM reads back (work RAM only while
/// no DMA transfer runs: during one, only high RAM takes writes).
pub proof fn lemma_ram_read_after_write(m: MemWrap, m2: MemWrap, addr: usize, v: u8)
    requires
        plain_ram(addr),
        addr <= 0xDFFF ==> !m.dma.active,
        m.written(&m2, addr, v),
    ensures
        m2.peek(addr) == v,
{
}

/// A write leaves every other byte of work RAM and high RAM as it was
/// (reads of work RAM become 0xFF when the write starts a DMA transfer).
pub proof fn lemma_ram_write_leaves_others(m: MemWrap, m2: MemWrap, addr: usize, v: u8, other: usize)
    requires
        plain_ram(other),
        other != addr,
        addr == 0xFF46 && !m.dma.active ==> 0xFF80 <= other,
        m.written(&m2, addr, v),
    ensures
        m2.peek(other) == m.peek(other),
{
}

/// A word pushed onto a stack in RAM (in high RAM while a DMA transfer
/// runs) pops back, and the pop restores SP.
pub proof fn lemma_push_then_pop(s: CpuStruct, s1: CpuStruct, v: u16)
    requires
        !s.fault,
        plain_ram(s.sp.wrapping_sub(2) as usize),
        plain_ram(s.sp.wrapping_sub(1) as usize),
        s.sp.wrapping_sub(2) <= 0xDFFF ==> !s.memory.dma.active,
        s.sp.wrapping_sub(1) <= 0xDFFF ==> !s.memory.dma.active,
        s.pushed(s1, v),
    ensures
        s1.popped().1 == v,
        s1.popped().0.sp == s.sp,
        !s1.popped().0.fault,
{
    let t = CpuStruct { sp: s.sp.wrapping_sub(2), ..s };
    let lo = t.sp;
    let hi = t.sp.wrapping_add(1);
    assert(hi == s.sp.wrapping_sub(1));
    let mid = choose|mid: CpuStruct| #[trigger] t.wr8(mid, hi, (v >> 8u16) as u8) && mid.wr8(s1, lo, (v % 256) as u8);
    assert(t.memory.writable(hi as usize));
    lemma_ram_read_after_write(t.memory, mid.memory, hi as usize, (v >> 8u16) as u8);
    assert(mid.memory.writable(lo as usize));
    lemma_ram_read_after_write(mid.memory, s1.memory, lo as usize, (v % 256) as u8);
    lemma_ram_write_leaves_others(mid.memory, s1.memory, lo as usize, (v % 256) as u8, hi as usize);
    assert(s1.memory.readable(hi as usize) && s1.memory.readable(lo as usize));
    assert(s1.memory.after_read(hi as usize) == s1.memory);
    assert((v >> 8u16) as u8 * 256 + (v % 256) as u8 == v) by (bit_vector);
}

/// A register pair reads back what was written to it; AF reads back with
/// the low nibble of F cleared.
pub proof fn lemma_pair_read_after_write(s: CpuStruct, reg: DoubleReg, v: u16)
    requires
        reg != DoubleReg::HLP,
        reg != DoubleReg::HLM,
    ensures
        s.with_r16(reg, v).r16(reg).1 == if reg == DoubleReg::AF { v & 0xFFF0 } else { v },
        s.with_r16(reg, v).r16(reg).0 == s.with_r16(reg, v),
{
    assert(((v >> 8u16) as u8) as u16 * 256 + (v as u8) as u16 == v) by (bit_vector);
    assert(((v >> 8u16) as u8) as u16 * 256 + ((v as u8) & 0xf0) as u16 == v & 0xFFF0) by (bit_vector);
}

/// The register file's pairs read back what was written to them.
pub proof fn lemma_regstruct_pair_read_after_write(r: RegStruct, reg: DoubleReg, v: u16)
    requires
        reg != DoubleReg::AF,
        reg != DoubleReg::HLP,
        reg != DoubleReg::HLM,
    ensures
        r.with_pair(reg, v).pair(reg) == v,
{
    assert(((v >> 8u16) as u8) as u16 * 256 + (v as u8) as u16 == v) by (bit_vector);
}

/// An LCD register reads back what was written to it, except that STAT
/// keeps its bits 0..=2 and LY is read-only.
pub proof fn lemma_video_register_read_after_write(vc: VideoController, addr: int, v: u8)
    requires
        0 <= addr <= 0xb,
    ensures
        vc.written(addr, v).register(addr) == if addr == 1 {
            (v & 0xF8) | (vc.stat & 0x07)
        } else if addr == 4 {
            vc.ly
        } else {
            v
        },
{
}

/// TIMA, TMA and TAC read back what was written to them; any write to DIV
/// makes it read 0.
pub proof fn lemma_timer_register_read_after_write(t: Timer, addr: int, v: u8)
    requires
        0 <= addr <= 3,
    ensures
        t.written(addr, v).register(addr) == if addr == 0 { 0 } else { v },
{
    assert(((0u16 & 0xFF00u16) >> 8u16) as u8 == 0) by (bit_vector);
}

/// A byte written to video memory reads back.
pub proof fn lemma_vram_read_after_write(vram: Vram, addr: int, v: u8)
    requires
        0 <= addr < 0x2000,
    ensures
        vram.with_byte(addr, v).byte(addr) == v,
{
}

/// A byte written to object memory reads back.
pub proof fn lemma_oam_read_after_write(oam: OamStruct, addr: int, v: u8)
    requires
        0 <= addr < 160,
    ensures
        oam.with_byte(addr, v).byte(addr) == v,
{
}

/// EI takes effect after the instruction that follows it: the interrupt test before
/// that instruction leaves interrupts not yet enabled, the one after it
/// enables them.
pub proof fn lemma_ei_is_delayed(ime: InterruptState)
    requires
        ime_after_ei(ime) is Some,
    ensures
        ime_advanced(ime_advanced(ime_after_ei(ime).unwrap())) == InterruptState::Enabled,
        ime == InterruptState::Disabled ==> ime_advanced(ime_after_ei(ime).unwrap()) != InterruptState::Enabled,
{
}

/// DI takes effect at once: the next interrupt check finds interrupts
/// disabled.
pub proof fn lemma_di_is_immediate(ime: InterruptState)
    requires
        ime_after_di(ime) is Some,
    ensures
        ime_advanced(ime_after_di(ime).unwrap()) == InterruptState::Disabled,
{
}

/// XOR of the accumulator with itself clears it and leaves only Z set.
pub proof fn lemma_xor_self_clears(f: u8, a: u8)
    ensures
        alu8_spec(Alu8Function::Xor, f, a, a) == (0u8, 0x80u8),
{
    assert(a ^ a == 0) by (bit_vector);
}

/// Subtracting what was added gives the accumulator back.
pub proof fn lemma_sub_undoes_add(f: u8, f2: u8, a: u8, b: u8)
    ensures
        alu8_spec(Alu8Function::Sub, f2, alu8_spec(Alu8Function::Add, f, a, b).0, b).0 == a,
{
}

/// CP sets the flags as SUB does and leaves the accumulator as it was.
pub proof fn lemma_cp_is_sub_without_result(f: u8, a: u8, b: u8)
    ensures
        alu8_spec(Alu8Function::Cp, f, a, b) == (a, alu8_spec(Alu8Function::Sub, f, a, b).1),
{
}

/// Swapping the nibbles twice gives the byte back.
pub proof fn lemma_swap_twice(f: u8, a: u8, ir: u8, cb: bool, op: u8)
    ensures
        ({
            let (r1, f1) = alu8self_spec(Alu8SelfFunction::Swap, f, a, ir, cb, op);
            alu8self_spec(Alu8SelfFunction::Swap, f1, a, ir, cb, r1).0 == op
        }),
{
}

/// Rotating right circular undoes rotating left circular.
pub proof fn lemma_rrc_undoes_rlc(f: u8, a: u8, ir: u8, cb: bool, op: u8)
    ensures
        ({
            let (r1, f1) = alu8self_spec(Alu8SelfFunction::Rlc, f, a, ir, cb, op);
            alu8self_spec(Alu8SelfFunction::Rrc, f1, a, ir, cb, r1).0 == op
        }),
{
}

/// The line counter stays below 154.
pub proof fn lemma_ly_stays_below_154(s: Screen, new: Screen)
    requires
        s.vc.ly < 154,
        s.clocked(new),
    ensures
        new.vc.ly < 154,
{
}

/// VBlank has the highest priority: with interrupts enabled and its
/// request bit set, the interrupt check jumps to 0x40, clears the interrupt
/// master enable and ends a halt.
pub proof fn lemma_vblank_first(s: CpuStruct, new: CpuStruct)
    requires
        !s.fault,
        ime_advanced(s.ime_flag) == InterruptState::Enabled,
        s.memory.iflag & 1 != 0,
        s.interrupts_handled(new),
    ensures
        new.pc == 0x40,
        new.ime_flag == InterruptState::Disabled,
        !new.stopped,
{
    reveal(CpuStruct::interrupts_handled);
    let fl = s.memory.iflag;
    if s.memory.dma.active {
        assert((0xFFu8 & 0xFFu8) & 1u8 != 0) by (bit_vector);
    } else {
        assert(((0xE0u8 | fl) & fl) & 1u8 != 0) by (bit_vector)
            requires
                fl & 1 != 0,
        ;
    }
}

/// A requested and enabled interrupt ends a halt even while the interrupt
/// master enable is off; nothing is dispatched then.
pub proof fn lemma_pending_interrupt_ends_halt(s: CpuStruct, new: CpuStruct)
    requires
        !s.fault,
        !s.memory.dma.active,
        ime_advanced(s.ime_flag) != InterruptState::Enabled,
        s.memory.iflag & 0x1F != 0,
        s.interrupts_handled(new),
    ensures
        !new.stopped,
        new.pc == s.pc,
        new.sp == s.sp,
        new.memory.iflag == s.memory.iflag,
{
    reveal(CpuStruct::interrupts_handled);
    let fl = s.memory.iflag;
    assert({
        let p = (0xE0u8 | fl) & fl;
        p & 1 != 0 || p & 2 != 0 || p & 4 != 0 || p & 8 != 0 || p & 16 != 0
    }) by (bit_vector)
        requires
            fl & 0x1F != 0,
    ;
}

/// Reading the joypad register after a write gives 0x3F when the write
/// selected neither button row (bits 4 and 5 both set) and 0 otherwise.
pub proof fn lemma_joypad_read_after_write(m: MemWrap, v: u8)
    ensures
        m.io_written(0, v).io_value(0) == if v & 0x30 == 0x30 { 0x3Fu8 } else { 0u8 },
{
    assert(((v & 0x30) | 0x0F < 0x30) == (v & 0x30 != 0x30) && (v & 0x30 == 0x30 ==> (v & 0x30) | 0x0F == 0x3F)) by (bit_vector);
}

/// A halted clock (bit 6 of the high day register) does not move.
pub proof fn lemma_rtc_halted(r: RTC)
    requires
        r.days_h & 0x40 != 0,
    ensures
        r.ticked() == r,
{
}

/// The seconds of the clock stay below 60.
pub proof fn lemma_rtc_seconds_below_60(r: RTC)
    requires
        r.seconds < 60,
    ensures
        r.ticked().seconds < 60,
{
}

/// The clock's minutes and hours read back modulo 60 and 24, its day
/// registers as written.
pub proof fn lemma_rtc_read_after_write(r: RTC, mode: u8, v: u8)
    requires
        9 <= mode <= 0xC,
    ensures
        r.written(mode, v).register(mode) == if mode == 9 {
            v % 60
        } else if mode == 0xa {
            v % 24
        } else {
            v
        },
{
}


/// The operation of the entry that `table` runs for opcode `op`.
pub open spec fn decoded(table: Seq<FunFind>, op: u8) -> CPUFn {
    table[first_match(table, op)].fun
}

/// The accumulator rotate that opcodes 0x07, 0x0F, 0x17 and 0x1F name by
/// their bits 3 and 4: RLCA, RRCA, RLA, RRA.
pub open spec fn documented_rotate(k: int) -> Alu8SelfFunction {
    if k == 0 {
        Alu8SelfFunction::Rlc
    } else if k == 1 {
        Alu8SelfFunction::Rrc
    } else if k == 2 {
        Alu8SelfFunction::Rl
    } else {
        Alu8SelfFunction::Rr
    }
}

/// The accumulator operation that bits 3..=5 of opcodes 0x80..=0xBF and of
/// 0xC6, 0xCE, ..., 0xFE name: ADD, ADC, SUB, SBC, AND, XOR, OR, CP.
pub open spec fn documented_alu(k: int) -> Alu8Function {
    if k == 0 {
        Alu8Function::Add
    } else if k == 1 {
        Alu8Function::Adc
    } else if k == 2 {
        Alu8Function::Sub
    } else if k == 3 {
        Alu8Function::Subc
    } else if k == 4 {
        Alu8Function::And
    } else if k == 5 {
        Alu8Function::Xor
    } else if k == 6 {
        Alu8Function::Or
    } else {
        Alu8Function::Cp
    }
}

/// The rotate or shift that bits 3..=5 of a 0xCB-prefixed opcode below
/// 0x40 name: RLC, RRC, RL, RR, SLA, SRA, SWAP, SRL.
pub open spec fn documented_cb_shift(k: int) -> Alu8SelfFunction {
    if k == 0 {
        Alu8SelfFunction::Rlc
    } else if k == 1 {
        Alu8SelfFunction::Rrc
    } else if k == 2 {
        Alu8SelfFunction::Rl
    } else if k == 3 {
        Alu8SelfFunction::Rr
    } else if k == 4 {
        Alu8SelfFunction::Sla
    } else if k == 5 {
        Alu8SelfFunction::Sra
    } else if k == 6 {
        Alu8SelfFunction::Swap
    } else {
        Alu8SelfFunction::Srl
    }
}

/// The index of the first row of `table` from row `i` on that `op` matches,
/// or the length of `table` when none does.
pub open spec fn first_match_from(table: Seq<FunFind>, op: u8, i: int) -> int
    decreases table.len() - i,
{
    if i >= table.len() {
        table.len() as int
    } else if op & table[i].mask == table[i].value {
        i
    } else {
        first_match_from(table, op, i + 1)
    }
}

/// Searching from row `i` finds what searching the rows from `i` on finds.
pub proof fn lemma_first_match_from(table: Seq<FunFind>, op: u8, i: int)
    requires
        0 <= i <= table.len(),
    ensures
        i + first_match(table.subrange(i, table.len() as int), op) == first_match_from(table, op, i),
    decreases table.len() - i,
{
    let rest = table.subrange(i, table.len() as int);
    if i < table.len() {
        lemma_first_match_from(table, op, i + 1);
        assert(rest.drop_first() =~= table.subrange(i + 1, table.len() as int));
    }
}

/// Opcodes 0x07, 0x0F, 0x17 and 0x1F run the accumulator rotate that their
/// bits 3 and 4 name: RLCA, RRCA, RLA (left through carry), RRA (right
/// through carry).
pub proof fn lemma_accumulator_rotates_decode(op: u8)
    requires
        op < 0x20,
        op % 8 == 7,
    ensures
        first_match(function_table(), op) < function_table().len(),
        decoded(function_table(), op) == CPUFn::ALU8Self(documented_rotate(op as int / 8)),
{
    lemma_bit_facts(op, 0, 0, 0, 0, 0);
    reveal_with_fuel(first_match, 20);
    if op == 0x07 {
        assert(first_match(function_table(), op) == 7);
    } else if op == 0x0f {
        assert(first_match(function_table(), op) == 12);
    } else if op == 0x17 {
        assert(first_match(function_table(), op) == 16);
    } else {
        assert(first_match(function_table(), op) == 13);
    }
}

/// Opcodes 0x80..=0xBF run the accumulator operation that their bits
/// 3..=5 name (ADD, ADC, SUB, SBC, AND, XOR, OR, CP) on a register.
pub proof fn lemma_register_alu_opcodes_decode(op: u8)
    requires
        0x80 <= op < 0xC0,
    ensures
        first_match(function_table(), op) < function_table().len(),
        decoded(function_table(), op) == CPUFn::ALU8(documented_alu((op as int / 8) % 8)),
{
    lemma_bit_facts(op, 0, 0, 0, 0, 0);
    lemma_first_match_from(function_table(), op, 0);
    assert(function_table().subrange(0, 63) =~= function_table());
    reveal_with_fuel(first_match_from, 34);
    let k = (op as int / 8) % 8;
    if k == 0 {
        assert(first_match_from(function_table(), op, 0) == 24);
    } else if k == 1 {
        assert(first_match_from(function_table(), op, 0) == 25);
    } else if k == 2 {
        assert(first_match_from(function_table(), op, 0) == 26);
    } else if k == 3 {
        assert(first_match_from(function_table(), op, 0) == 27);
    } else if k == 4 {
        assert(first_match_from(function_table(), op, 0) == 28);
    } else if k == 5 {
        assert(first_match_from(function_table(), op, 0) == 29);
    } else if k == 6 {
        assert(first_match_from(function_table(), op, 0) == 30);
    } else {
        assert(first_match_from(function_table(), op, 0) == 31);
    }
}

/// Opcodes 0xC6, 0xCE, ..., 0xFE run the accumulator operation that their
/// bits 3..=5 name (ADD, ADC, SUB, SBC, AND, XOR, OR, CP) on the byte
/// after the opcode.
pub proof fn lemma_immediate_alu_opcodes_decode(op: u8)
    requires
        op >= 0xC0,
        op % 8 == 6,
    ensures
        first_match(function_table(), op) < function_table().len(),
        decoded(function_table(), op) == CPUFn::ALU8(documented_alu((op as int / 8) % 8)),
{
    lemma_bit_facts(op, 0, 0, 0, 0, 0);
    lemma_first_match_from(function_table(), op, 0);
    assert(function_table().subrange(0, 63) =~= function_table());
    reveal_with_fuel(first_match_from, 42);
    let k = (op as int / 8) % 8;
    if k == 0 {
        assert(first_match_from(function_table(), op, 0) == 32);
    } else if k == 1 {
        assert(first_match_from(function_table(), op, 0) == 33);
    } else if k == 2 {
        assert(first_match_from(function_table(), op, 0) == 34);
    } else if k == 3 {
        assert(first_match_from(function_table(), op, 0) == 35);
    } else if k == 4 {
        assert(first_match_from(function_table(), op, 0) == 36);
    } else if k == 5 {
        assert(first_match_from(function_table(), op, 0) == 37);
    } else if k == 6 {
        assert(first_match_from(function_table(), op, 0) == 38);
    } else {
        assert(first_match_from(function_table(), op, 0) == 39);
    }
}

/// After the 0xCB prefix, opcodes 0x00..=0x3F run the rotate or shift that
/// their bits 3..=5 name: RLC, RRC, RL, RR, SLA, SRA, SWAP, SRL.
pub proof fn lemma_cb_shift_opcodes_decode(op: u8)
    requires
        op < 0x40,
    ensures
        first_match(cb_block_table(), op) < cb_block_table().len(),
        decoded(cb_block_table(), op) == CPUFn::ALU8Self(documented_cb_shift(op as int / 8)),
{
    lemma_bit_facts(op, 0, 0, 0, 0, 0);
    reveal_with_fuel(first_match, 10);
    let k = op as int / 8;
    if k == 0 {
        assert(first_match(cb_block_table(), op) == 0);
    } else if k == 1 {
        assert(first_match(cb_block_table(), op) == 1);
    } else if k == 2 {
        assert(first_match(cb_block_table(), op) == 2);
    } else if k == 3 {
        assert(first_match(cb_block_table(), op) == 3);
    } else if k == 4 {
        assert(first_match(cb_block_table(), op) == 4);
    } else if k == 5 {
        assert(first_match(cb_block_table(), op) == 5);
    } else if k == 6 {
        assert(first_match(cb_block_table(), op) == 6);
    } else {
        assert(first_match(cb_block_table(), op) == 7);
    }
}

/// Bit `i` of the byte `x` (bit 0 the lowest) is set.
pub open spec fn bit_of(x: u8, i: u8) -> bool {
    (x >> i) & 1 == 1
}

/// The zero flag (bit 7 of F) is set.
pub open spec fn z_flag(f: u8) -> bool {
    f / 128 == 1
}

/// The subtract flag (bit 6 of F) is set.
pub open spec fn n_flag(f: u8) -> bool {
    (f / 64) % 2 == 1
}

/// The half-carry flag (bit 5 of F) is set.
pub open spec fn h_flag(f: u8) -> bool {
    (f / 32) % 2 == 1
}

/// The carry flag (bit 4 of F) is set.
pub open spec fn c_flag(f: u8) -> bool {
    (f / 16) % 2 == 1
}

/// The carry flag as a number, 0 or 1.
pub open spec fn carry_in(f: u8) -> int {
    if c_flag(f) { 1 } else { 0 }
}

/// Facts of bytes that the laws below rest on: bit `i` of OR, AND and XOR,
/// the masks of the opcode tables as arithmetic, shifts as divisions,
/// flag bits, and bank and timer constants.
proof fn lemma_bit_facts(x: u8, y: u8, i: u8, j: u8, b: usize, w: u16)
    by (bit_vector)
    ensures
        i < 8 ==> (bit_of(x | y, i) == (bit_of(x, i) || bit_of(y, i))),
        i < 8 ==> (bit_of(x & y, i) == (bit_of(x, i) && bit_of(y, i))),
        i < 8 ==> (bit_of(x ^ y, i) == (bit_of(x, i) != bit_of(y, i))),
        i < 8 && j < 8 ==> (bit_of(x & !(1u8 << j), i) == (i != j && bit_of(x, i))),
        i < 8 && j < 8 ==> (bit_of(x | (1u8 << j), i) == (i == j || bit_of(x, i))),
        j < 8 ==> (((x >> j) % 2 == 0) == !bit_of(x, j)),
        x & y == y & x,
        x & 0xff == x,
        x & 0xcf == (x / 64) * 64 + x % 16,
        x & 0xc7 == (x / 64) * 64 + x % 8,
        x & 0xe7 == (x / 32) * 32 + x % 8,
        x & 0xc0 == (x / 64) * 64,
        x & 0xf8 == x - x % 8,
        x & 0x3F == x % 64,
        x & 0x38 == ((x / 8) % 8) * 8,
        x >> 2u8 == x / 4 && x >> 3u8 == x / 8 && x >> 4u8 == x / 16 && x >> 6u8 == x / 64,
        x & 0x1F == x % 32,
        (x & 0x04 > 0) == ((x / 4) % 2 == 1),
        (x & 0x10 == 0x10) == ((x / 16) % 2 == 1),
        (x & 0x80 == 0x80) == (x / 128 == 1),
        b < 4 ==> b << 5usize == b * 32,
        1u16 << 8u16 == 256 && 1u16 << 2u16 == 4 && 1u16 << 4u16 == 16 && 1u16 << 6u16 == 64,
        1u8 << 7u8 == 0x80 && 1u8 << 6u8 == 0x40 && 1u8 << 5u8 == 0x20 && 1u8 << 4u8 == 0x10,
        z_flag(x) == bit_of(x, 7) && n_flag(x) == bit_of(x, 6) && h_flag(x) == bit_of(x, 5) && c_flag(x) == bit_of(x, 4),
        ((w >> 8u16) as u8) as u16 * 256 + (w as u8) as u16 == w,
        x & 0x0f == x % 16,
{
}

/// Facts of machine words that the bank laws rest on: the two halves of
/// a nine-bit bank number, and address bit 4.
proof fn lemma_word_bit_facts(b: usize, v: usize)
    by (bit_vector)
    ensures
        v < 256 ==> (b & 0x100) | v == ((b / 256) % 2) * 256 + v,
        ((v & 0x01) << 8usize) | (b & 0x0ff) == (v % 2) * 256 + b % 256,
        (b & 0x10 == 0x10) == ((b / 16) % 2 == 1),
{
}

/// OR sets exactly the bits set in either operand; Z tells whether the
/// result is zero, and N, H and C are cleared.
pub proof fn lemma_or_is_bitwise_inclusive(f: u8, acc: u8, op: u8)
    ensures
        forall|i: u8| i < 8 ==> (#[trigger] bit_of(alu8_spec(Alu8Function::Or, f, acc, op).0, i) == (bit_of(acc, i) || bit_of(op, i))),
        z_flag(alu8_spec(Alu8Function::Or, f, acc, op).1) == (alu8_spec(Alu8Function::Or, f, acc, op).0 == 0),
        !n_flag(alu8_spec(Alu8Function::Or, f, acc, op).1) && !h_flag(alu8_spec(Alu8Function::Or, f, acc, op).1)
            && !c_flag(alu8_spec(Alu8Function::Or, f, acc, op).1),
{
    assert forall|i: u8| i < 8 implies #[trigger] bit_of(alu8_spec(Alu8Function::Or, f, acc, op).0, i) == (bit_of(acc, i) || bit_of(op, i)) by {
        lemma_bit_facts(acc, op, i, 0, 0, 0);
    }
}

/// AND keeps exactly the bits set in both operands; Z tells whether the
/// result is zero, H is set, and N and C are cleared.
pub proof fn lemma_and_is_bitwise(f: u8, acc: u8, op: u8)
    ensures
        forall|i: u8| i < 8 ==> (#[trigger] bit_of(alu8_spec(Alu8Function::And, f, acc, op).0, i) == (bit_of(acc, i) && bit_of(op, i))),
        z_flag(alu8_spec(Alu8Function::And, f, acc, op).1) == (alu8_spec(Alu8Function::And, f, acc, op).0 == 0),
        !n_flag(alu8_spec(Alu8Function::And, f, acc, op).1) && h_flag(alu8_spec(Alu8Function::And, f, acc, op).1)
            && !c_flag(alu8_spec(Alu8Function::And, f, acc, op).1),
{
    lemma_bit_facts(acc, op, 0, 0, 0, 0);
    assert forall|i: u8| i < 8 implies #[trigger] bit_of(alu8_spec(Alu8Function::And, f, acc, op).0, i) == (bit_of(acc, i) && bit_of(op, i)) by {
        lemma_bit_facts(acc, op, i, 0, 0, 0);
    }
}

/// XOR sets exactly the bits set in one operand and not the other; Z
/// tells whether the result is zero, and N, H and C are cleared.
pub proof fn lemma_xor_is_bitwise_exclusive(f: u8, acc: u8, op: u8)
    ensures
        forall|i: u8| i < 8 ==> (#[trigger] bit_of(alu8_spec(Alu8Function::Xor, f, acc, op).0, i) == (bit_of(acc, i) != bit_of(op, i))),
        z_flag(alu8_spec(Alu8Function::Xor, f, acc, op).1) == (alu8_spec(Alu8Function::Xor, f, acc, op).0 == 0),
        !n_flag(alu8_spec(Alu8Function::Xor, f, acc, op).1) && !h_flag(alu8_spec(Alu8Function::Xor, f, acc, op).1)
            && !c_flag(alu8_spec(Alu8Function::Xor, f, acc, op).1),
{
    assert forall|i: u8| i < 8 implies #[trigger] bit_of(alu8_spec(Alu8Function::Xor, f, acc, op).0, i) == (bit_of(acc, i) != bit_of(op, i)) by {
        lemma_bit_facts(acc, op, i, 0, 0, 0);
    }
}

/// ADD gives the sum modulo 256 and sets C exactly when the sum exceeds a
/// byte; ADC adds the carry flag too. Z tells whether the result is zero
/// and N is cleared.
pub proof fn lemma_add_is_sum_mod_256(f: u8, acc: u8, op: u8)
    ensures
        alu8_spec(Alu8Function::Add, f, acc, op).0 == (acc + op) % 256,
        c_flag(alu8_spec(Alu8Function::Add, f, acc, op).1) == (acc + op > 255),
        z_flag(alu8_spec(Alu8Function::Add, f, acc, op).1) == (alu8_spec(Alu8Function::Add, f, acc, op).0 == 0),
        !n_flag(alu8_spec(Alu8Function::Add, f, acc, op).1),
        alu8_spec(Alu8Function::Adc, f, acc, op).0 == (acc + op + carry_in(f)) % 256,
        !n_flag(alu8_spec(Alu8Function::Adc, f, acc, op).1),
{
    lemma_bit_facts(f, 0x10, 0, 0, 0, 0);
}

/// SUB gives the difference modulo 256, sets C exactly when the operand
/// exceeds the accumulator (a borrow) and Z exactly when they are equal,
/// and sets N; SBC subtracts the carry flag too.
pub proof fn lemma_sub_is_difference_mod_256(f: u8, acc: u8, op: u8)
    ensures
        alu8_spec(Alu8Function::Sub, f, acc, op).0 == (acc - op + 256) % 256,
        c_flag(alu8_spec(Alu8Function::Sub, f, acc, op).1) == (op > acc),
        z_flag(alu8_spec(Alu8Function::Sub, f, acc, op).1) == (acc == op),
        n_flag(alu8_spec(Alu8Function::Sub, f, acc, op).1),
        alu8_spec(Alu8Function::Subc, f, acc, op).0 == (acc - op - carry_in(f) + 512) % 256,
        n_flag(alu8_spec(Alu8Function::Subc, f, acc, op).1),
{
    lemma_bit_facts(f, 0x10, 0, 0, 0, 0);
}

/// RR rotates right through the carry: the old carry becomes bit 7, bits
/// 1..=7 move down one place, and bit 0 becomes the carry. N and H are
/// cleared; Z is set only after the 0xCB prefix, on a zero result.
pub proof fn lemma_rr_rotates_right_through_carry(f: u8, a: u8, ir: u8, cb: bool, op: u8)
    ensures
        alu8self_spec(Alu8SelfFunction::Rr, f, a, ir, cb, op).0 / 128 == carry_in(f),
        alu8self_spec(Alu8SelfFunction::Rr, f, a, ir, cb, op).0 % 128 == op / 2,
        c_flag(alu8self_spec(Alu8SelfFunction::Rr, f, a, ir, cb, op).1) == (op % 2 == 1),
        z_flag(alu8self_spec(Alu8SelfFunction::Rr, f, a, ir, cb, op).1) == (cb && alu8self_spec(Alu8SelfFunction::Rr, f, a, ir, cb, op).0 == 0),
        !n_flag(alu8self_spec(Alu8SelfFunction::Rr, f, a, ir, cb, op).1) && !h_flag(alu8self_spec(Alu8SelfFunction::Rr, f, a, ir, cb, op).1),
{
    lemma_bit_facts(f, 0x10, 0, 0, 0, 0);
}

/// RL rotates left through the carry: the old carry becomes bit 0, bits
/// 0..=6 move up one place, and bit 7 becomes the carry. N and H are
/// cleared; Z is set only after the 0xCB prefix, on a zero result.
pub proof fn lemma_rl_rotates_left_through_carry(f: u8, a: u8, ir: u8, cb: bool, op: u8)
    ensures
        alu8self_spec(Alu8SelfFunction::Rl, f, a, ir, cb, op).0 % 2 == carry_in(f),
        alu8self_spec(Alu8SelfFunction::Rl, f, a, ir, cb, op).0 / 2 == op % 128,
        c_flag(alu8self_spec(Alu8SelfFunction::Rl, f, a, ir, cb, op).1) == (op >= 128),
        z_flag(alu8self_spec(Alu8SelfFunction::Rl, f, a, ir, cb, op).1) == (cb && alu8self_spec(Alu8SelfFunction::Rl, f, a, ir, cb, op).0 == 0),
        !n_flag(alu8self_spec(Alu8SelfFunction::Rl, f, a, ir, cb, op).1) && !h_flag(alu8self_spec(Alu8SelfFunction::Rl, f, a, ir, cb, op).1),
{
    lemma_bit_facts(f, 0x10, 0, 0, 0, 0);
}

/// RRC rotates right: bit 0 goes round to bit 7 and into the carry.
pub proof fn lemma_rrc_rotates_right(f: u8, a: u8, ir: u8, cb: bool, op: u8)
    ensures
        alu8self_spec(Alu8SelfFunction::Rrc, f, a, ir, cb, op).0 / 128 == op % 2,
        alu8self_spec(Alu8SelfFunction::Rrc, f, a, ir, cb, op).0 % 128 == op / 2,
        c_flag(alu8self_spec(Alu8SelfFunction::Rrc, f, a, ir, cb, op).1) == (op % 2 == 1),
{
}

/// RLC rotates left: bit 7 goes round to bit 0 and into the carry.
pub proof fn lemma_rlc_rotates_left(f: u8, a: u8, ir: u8, cb: bool, op: u8)
    ensures
        alu8self_spec(Alu8SelfFunction::Rlc, f, a, ir, cb, op).0 % 2 == op / 128,
        alu8self_spec(Alu8SelfFunction::Rlc, f, a, ir, cb, op).0 / 2 == op % 128,
        c_flag(alu8self_spec(Alu8SelfFunction::Rlc, f, a, ir, cb, op).1) == (op >= 128),
{
}

/// The four shades of the screen by shade number: 0 white, 1 light grey,
/// 2 dark grey, 3 black.
pub open spec fn dmg_shade(n: int) -> GBColor {
    if n == 0 {
        GBColor::White
    } else if n == 1 {
        GBColor::LightGrey
    } else if n == 2 {
        GBColor::DarkGrey
    } else {
        GBColor::Black
    }
}

/// Four to the power `k`, for `k` in 0..=3.
pub open spec fn four_to(k: int) -> int {
    if k == 0 {
        1
    } else if k == 1 {
        4
    } else if k == 2 {
        16
    } else {
        64
    }
}

/// The background palette shades colour number `k` (0..=3) by its bits
/// `2k` and `2k + 1`: colour 0 by bits 0..=1, colour 3 by bits 6..=7.
pub proof fn lemma_palette_colour_takes_its_bit_pair(bgp: u8, k: int)
    requires
        0 <= k < 4,
    ensures
        palette_shade(bgp, color_id(k)) == dmg_shade((bgp as int / four_to(k)) % 4),
{
    lemma_bit_facts(bgp, 0, 0, 0, 0, 0);
}

/// A write of `val` to 0x2000..=0x3FFF selects ROM bank `max(1, val % 32)`
/// (all five low bits of `val`) above the RAM bank register's two bits,
/// modulo the number of banks, and changes nothing else.
pub proof fn lemma_mbc1_bank_select_takes_five_bits(m: Mbc1, n: Mbc1, addr: usize, val: u8)
    requires
        0x2000 <= addr <= 0x3FFF,
        m.ram_bank_num < 4,
        m.rom.len() > 0,
        m.rom_write_rel(&n, addr, val),
    ensures
        n.rom_bank_num == (32 * m.ram_bank_num + (if val % 32 == 0 { 1 } else { val % 32 })) % (m.rom.len() as int),
        n.rom == m.rom && n.ram == m.ram && n.ram_bank_num == m.ram_bank_num,
        n.ram_enable == m.ram_enable && n.bank_mode == m.bank_mode,
{
    lemma_bit_facts(val, 0, 0, 0, m.ram_bank_num, 0);
}

/// The number of divider counts between TIMA ticks for each clock select
/// (TAC bits 0..=1): 256, 4, 16, 64.
pub open spec fn timer_period(select: int) -> int {
    if select == 0 {
        256
    } else if select == 1 {
        4
    } else if select == 2 {
        16
    } else {
        64
    }
}

/// Each clock the divider counts up by one (wrapping); when TAC bit 2 is
/// set and the new count is a multiple of the period that TAC bits 0..=1
/// select, TIMA counts up, and from 255 is reloaded from TMA.
pub proof fn lemma_timer_ticks_at_the_selected_rate(t: Timer)
    ensures
        t.ticks() == ((t.tac / 4) % 2 == 1 && ((t.divider + 1) % 65536) % timer_period(t.tac as int % 4) == 0),
        t.clocked().divider == (t.divider + 1) % 65536,
        t.clocked().tima == if t.ticks() {
            if t.tima == 255 { t.tma as int } else { t.tima + 1 }
        } else {
            t.tima as int
        },
        t.clocked().tma == t.tma && t.clocked().tac == t.tac,
{
    lemma_bit_facts(t.tac, 0, 0, 0, 0, 0);
}

/// The timer of the register block ticks at the same rates: TAC bit 2
/// enables it, and TAC bits 0..=1 select a period of 256, 4, 16 or 64
/// counts.
pub proof fn lemma_io_timer_ticks_at_the_selected_rate(m: MappedIO)
    ensures
        m.ticks() == ((m.timer.tac / 4) % 2 == 1
            && ((m.timer.divider.internal_divider + 1) % 65536) % timer_period(m.timer.tac as int % 4) == 0),
{
    lemma_bit_facts(m.timer.tac, 0, 0, 0, 0, 0);
}

/// Opcodes 0x40..=0x7F other than 0x76 copy one register (or the byte at HL) to another: LD r, r'.
pub proof fn lemma_register_loads_decode(op: u8)
    requires
        0x40 <= op < 0x80,
        op != 0x76,
    ensures
        first_match(function_table(), op) == 23,
        decoded(function_table(), op) == CPUFn::Ld8(Src8::R8, Dest8::R8),
{
    lemma_bit_facts(op, 0, 0, 0, 0, 0);
    lemma_first_match_from(function_table(), op, 0);
    assert(function_table().subrange(0, 63) =~= function_table());
    reveal_with_fuel(first_match_from, 25);
}

/// Opcode 0x76, which sits where LD (HL), (HL) would, is HALT.
pub proof fn lemma_halt_decodes(op: u8)
    requires
        op == 0x76,
    ensures
        first_match(function_table(), op) == 22,
        decoded(function_table(), op) == CPUFn::Other(CPUFunct::Halt),
{
    lemma_bit_facts(op, 0, 0, 0, 0, 0);
    lemma_first_match_from(function_table(), op, 0);
    assert(function_table().subrange(0, 63) =~= function_table());
    reveal_with_fuel(first_match_from, 24);
}

/// Opcodes 0x04, 0x0C, ..., 0x3C increment the register that bits 3..=5 name: INC r.
pub proof fn lemma_inc_r8_opcodes_decode(op: u8)
    requires
        op < 0x40,
        op % 8 == 4,
    ensures
        first_match(function_table(), op) == 4,
        decoded(function_table(), op) == CPUFn::Other(CPUFunct::IncR8),
{
    lemma_bit_facts(op, 0, 0, 0, 0, 0);
    lemma_first_match_from(function_table(), op, 0);
    assert(function_table().subrange(0, 63) =~= function_table());
    reveal_with_fuel(first_match_from, 6);
}

/// Opcodes 0x05, 0x0D, ..., 0x3D decrement the register that bits 3..=5 name: DEC r.
pub proof fn lemma_dec_r8_opcodes_decode(op: u8)
    requires
        op < 0x40,
        op % 8 == 5,
    ensures
        first_match(function_table(), op) == 5,
        decoded(function_table(), op) == CPUFn::Other(CPUFunct::DecR8),
{
    lemma_bit_facts(op, 0, 0, 0, 0, 0);
    lemma_first_match_from(function_table(), op, 0);
    assert(function_table().subrange(0, 63) =~= function_table());
    reveal_with_fuel(first_match_from, 7);
}

/// Opcodes 0x06, 0x0E, ..., 0x3E load the byte after the opcode into the register that bits 3..=5 name: LD r, n.
pub proof fn lemma_ld_r8_imm_opcodes_decode(op: u8)
    requires
        op < 0x40,
        op % 8 == 6,
    ensures
        first_match(function_table(), op) == 6,
        decoded(function_table(), op) == CPUFn::Ld8(Src8::Imm8, Dest8::R8),
{
    lemma_bit_facts(op, 0, 0, 0, 0, 0);
    lemma_first_match_from(function_table(), op, 0);
    assert(function_table().subrange(0, 63) =~= function_table());
    reveal_with_fuel(first_match_from, 8);
}

/// Opcodes 0x01, 0x11, 0x21, 0x31 load the word after the opcode into the pair that bits 4..=5 name: LD rr, nn.
pub proof fn lemma_ld_r16_imm_opcodes_decode(op: u8)
    requires
        op < 0x40,
        op % 16 == 1,
    ensures
        first_match(function_table(), op) == 1,
        decoded(function_table(), op) == CPUFn::Ld16(Src16::Imm16, Dest16::R16),
{
    lemma_bit_facts(op, 0, 0, 0, 0, 0);
    lemma_first_match_from(function_table(), op, 0);
    assert(function_table().subrange(0, 63) =~= function_table());
    reveal_with_fuel(first_match_from, 3);
}

/// Opcodes 0x02, 0x12, 0x22, 0x32 store A at the address in the pair that bits 4..=5 name: LD (rr), A.
pub proof fn lemma_store_a_indirect_opcodes_decode(op: u8)
    requires
        op < 0x40,
        op % 16 == 2,
    ensures
        first_match(function_table(), op) == 2,
        decoded(function_table(), op) == CPUFn::Ld8(Src8::Acc, Dest8::R16Mem),
{
    lemma_bit_facts(op, 0, 0, 0, 0, 0);
    lemma_first_match_from(function_table(), op, 0);
    assert(function_table().subrange(0, 63) =~= function_table());
    reveal_with_fuel(first_match_from, 4);
}

/// Opcodes 0x03, 0x13, 0x23, 0x33 increment the pair that bits 4..=5 name: INC rr.
pub proof fn lemma_inc_r16_opcodes_decode(op: u8)
    requires
        op < 0x40,
        op % 16 == 3,
    ensures
        first_match(function_table(), op) == 3,
        decoded(function_table(), op) == CPUFn::ALU16Self(Alu16SelfFunction::IncR16),
{
    lemma_bit_facts(op, 0, 0, 0, 0, 0);
    lemma_first_match_from(function_table(), op, 0);
    assert(function_table().subrange(0, 63) =~= function_table());
    reveal_with_fuel(first_match_from, 5);
}

/// Opcodes 0x09, 0x19, 0x29, 0x39 add the pair that bits 4..=5 name to HL: ADD HL, rr.
pub proof fn lemma_add_hl_opcodes_decode(op: u8)
    requires
        op < 0x40,
        op % 16 == 9,
    ensures
        first_match(function_table(), op) == 9,
        decoded(function_table(), op) == CPUFn::Other(CPUFunct::AddHl),
{
    lemma_bit_facts(op, 0, 0, 0, 0, 0);
    lemma_first_match_from(function_table(), op, 0);
    assert(function_table().subrange(0, 63) =~= function_table());
    reveal_with_fuel(first_match_from, 11);
}

/// Opcodes 0x0A, 0x1A, 0x2A, 0x3A load A from the address in the pair that bits 4..=5 name: LD A, (rr).
pub proof fn lemma_load_a_indirect_opcodes_decode(op: u8)
    requires
        op < 0x40,
        op % 16 == 10,
    ensures
        first_match(function_table(), op) == 10,
        decoded(function_table(), op) == CPUFn::Ld8(Src8::R16Mem, Dest8::Acc),
{
    lemma_bit_facts(op, 0, 0, 0, 0, 0);
    lemma_first_match_from(function_table(), op, 0);
    assert(function_table().subrange(0, 63) =~= function_table());
    reveal_with_fuel(first_match_from, 12);
}

/// Opcodes 0x0B, 0x1B, 0x2B, 0x3B decrement the pair that bits 4..=5 name: DEC rr.
pub proof fn lemma_dec_r16_opcodes_decode(op: u8)
    requires
        op < 0x40,
        op % 16 == 11,
    ensures
        first_match(function_table(), op) == 11,
        decoded(function_table(), op) == CPUFn::ALU16Self(Alu16SelfFunction::DecR16),
{
    lemma_bit_facts(op, 0, 0, 0, 0, 0);
    lemma_first_match_from(function_table(), op, 0);
    assert(function_table().subrange(0, 63) =~= function_table());
    reveal_with_fuel(first_match_from, 13);
}

/// Opcodes 0x20, 0x28, 0x30, 0x38 jump relative when their condition holds (otherwise step over the offset): JR cc, e.
pub proof fn lemma_jr_cond_opcodes_decode(op: u8)
    requires
        0x20 <= op < 0x40,
        op % 8 == 0,
    ensures
        first_match(function_table(), op) == 18,
        decoded(function_table(), op) == CPUFn::Cond(CPUFunct::JrImm, 1),
{
    lemma_bit_facts(op, 0, 0, 0, 0, 0);
    lemma_first_match_from(function_table(), op, 0);
    assert(function_table().subrange(0, 63) =~= function_table());
    reveal_with_fuel(first_match_from, 20);
}

/// Opcodes 0xC0, 0xC8, 0xD0, 0xD8 return when their condition holds: RET cc.
pub proof fn lemma_ret_cond_opcodes_decode(op: u8)
    requires
        0xC0 <= op < 0xE0,
        op % 8 == 0,
    ensures
        first_match(function_table(), op) == 40,
        decoded(function_table(), op) == CPUFn::Cond(CPUFunct::Ret, 0),
{
    lemma_bit_facts(op, 0, 0, 0, 0, 0);
    lemma_first_match_from(function_table(), op, 0);
    assert(function_table().subrange(0, 63) =~= function_table());
    reveal_with_fuel(first_match_from, 42);
}

/// Opcodes 0xC2, 0xCA, 0xD2, 0xDA jump to the word after the opcode when their condition holds: JP cc, nn.
pub proof fn lemma_jp_cond_opcodes_decode(op: u8)
    requires
        0xC0 <= op < 0xE0,
        op % 8 == 2,
    ensures
        first_match(function_table(), op) == 43,
        decoded(function_table(), op) == CPUFn::Other(CPUFunct::JpCondImm),
{
    lemma_bit_facts(op, 0, 0, 0, 0, 0);
    lemma_first_match_from(function_table(), op, 0);
    assert(function_table().subrange(0, 63) =~= function_table());
    reveal_with_fuel(first_match_from, 45);
}

/// Opcodes 0xC4, 0xCC, 0xD4, 0xDC call the word after the opcode when their condition holds (otherwise step over it): CALL cc, nn.
pub proof fn lemma_call_cond_opcodes_decode(op: u8)
    requires
        0xC0 <= op < 0xE0,
        op % 8 == 4,
    ensures
        first_match(function_table(), op) == 46,
        decoded(function_table(), op) == CPUFn::Cond(CPUFunct::Call, 2),
{
    lemma_bit_facts(op, 0, 0, 0, 0, 0);
    lemma_first_match_from(function_table(), op, 0);
    assert(function_table().subrange(0, 63) =~= function_table());
    reveal_with_fuel(first_match_from, 48);
}

/// Opcodes 0xC7, 0xCF, ..., 0xFF call the fixed address in their bits 3..=5: RST n.
pub proof fn lemma_rst_opcodes_decode(op: u8)
    requires
        op >= 0xC0,
        op % 8 == 7,
    ensures
        first_match(function_table(), op) == 48,
        decoded(function_table(), op) == CPUFn::Other(CPUFunct::Rst),
{
    lemma_bit_facts(op, 0, 0, 0, 0, 0);
    lemma_first_match_from(function_table(), op, 0);
    assert(function_table().subrange(0, 63) =~= function_table());
    reveal_with_fuel(first_match_from, 50);
}

/// Opcodes 0xC1, 0xD1, 0xE1, 0xF1 pop the pair that bits 4..=5 name: POP rr.
pub proof fn lemma_pop_opcodes_decode(op: u8)
    requires
        op >= 0xC0,
        op % 16 == 1,
    ensures
        first_match(function_table(), op) == 49,
        decoded(function_table(), op) == CPUFn::Other(CPUFunct::Pop),
{
    lemma_bit_facts(op, 0, 0, 0, 0, 0);
    lemma_first_match_from(function_table(), op, 0);
    assert(function_table().subrange(0, 63) =~= function_table());
    reveal_with_fuel(first_match_from, 51);
}

/// Opcodes 0xC5, 0xD5, 0xE5, 0xF5 push the pair that bits 4..=5 name: PUSH rr.
pub proof fn lemma_push_opcodes_decode(op: u8)
    requires
        op >= 0xC0,
        op % 16 == 5,
    ensures
        first_match(function_table(), op) == 50,
        decoded(function_table(), op) == CPUFn::Other(CPUFunct::Push),
{
    lemma_bit_facts(op, 0, 0, 0, 0, 0);
    lemma_first_match_from(function_table(), op, 0);
    assert(function_table().subrange(0, 63) =~= function_table());
    reveal_with_fuel(first_match_from, 52);
}

/// After the 0xCB prefix, opcodes 0x40..=0x7F test the bit that bits 3..=5 name: BIT b, r.
pub proof fn lemma_cb_bit_opcodes_decode(op: u8)
    requires
        0x40 <= op < 0x80,
    ensures
        first_match(cb_block_table(), op) == 8,
        decoded(cb_block_table(), op) == CPUFn::ALU8Self(Alu8SelfFunction::Bit),
{
    lemma_bit_facts(op, 0, 0, 0, 0, 0);
    lemma_first_match_from(cb_block_table(), op, 0);
    assert(cb_block_table().subrange(0, 11) =~= cb_block_table());
    reveal_with_fuel(first_match_from, 10);
}

/// After the 0xCB prefix, opcodes 0x80..=0xBF clear the bit that bits 3..=5 name: RES b, r.
pub proof fn lemma_cb_res_opcodes_decode(op: u8)
    requires
        0x80 <= op < 0xC0,
    ensures
        first_match(cb_block_table(), op) == 9,
        decoded(cb_block_table(), op) == CPUFn::ALU8Self(Alu8SelfFunction::Res),
{
    lemma_bit_facts(op, 0, 0, 0, 0, 0);
    lemma_first_match_from(cb_block_table(), op, 0);
    assert(cb_block_table().subrange(0, 11) =~= cb_block_table());
    reveal_with_fuel(first_match_from, 11);
}

/// The register that number `k` names in an opcode: B, C, D, E, H, L,
/// (6, the byte at HL, is memory), A.
pub open spec fn documented_r8(s: CpuStruct, k: int) -> u8 {
    if k == 0 {
        s.b
    } else if k == 1 {
        s.c
    } else if k == 2 {
        s.d
    } else if k == 3 {
        s.e
    } else if k == 4 {
        s.h
    } else if k == 5 {
        s.l
    } else {
        s.a
    }
}

/// Register numbers sit in bits 3..=5 (the destination) and 0..=2 (the
/// source) of an opcode; number `k` reads B, C, D, E, H, L, the byte at
/// HL (H the high byte) or A, and a read of a register changes nothing.
pub proof fn lemma_register_numbers_read(s: CpuStruct, k: u8)
    requires
        k < 8,
    ensures
        s.mid_idx() == (s.ir() / 8) % 8,
        s.end_idx() == s.ir() % 8,
        k != 6 ==> s.r8(k) == (s, documented_r8(s, k as int)),
        k == 6 ==> s.r8(k) == s.rd8((s.h * 256 + s.l) as u16),
{
    lemma_bit_facts(s.ir(), 0, 0, 0, 0, 0);
}

/// Writing register number `k` (not 6, the byte at HL) sets that register
/// and leaves the other registers as they were.
pub proof fn lemma_register_numbers_write(s: CpuStruct, new: CpuStruct, k: u8, v: u8)
    requires
        k < 8,
        k != 6,
        s.r8_set(new, k, v),
    ensures
        documented_r8(new, k as int) == v,
        forall|j: int| 0 <= j < 8 && j != 6 && j != k ==> #[trigger] documented_r8(new, j) == documented_r8(s, j),
        new.f == s.f && new.sp == s.sp && new.pc == s.pc && new.memory == s.memory,
{
}

/// The register pairs are their two registers, the first the high byte
/// (AF: A and F; BC; DE; HL); bits 4..=5 of an opcode name BC, DE, HL, SP
/// (with AF in place of SP for PUSH and POP, and HL+ and HL- in place of
/// HL and SP for loads through memory); HL+ and HL- give HL and then step
/// it up or down by one.
pub proof fn lemma_register_pairs(s: CpuStruct)
    ensures
        s.r16(DoubleReg::AF) == (s, (s.a * 256 + s.f) as u16),
        s.r16(DoubleReg::BC) == (s, (s.b * 256 + s.c) as u16),
        s.r16(DoubleReg::DE) == (s, (s.d * 256 + s.e) as u16),
        s.r16(DoubleReg::HL) == (s, (s.h * 256 + s.l) as u16),
        s.r16(DoubleReg::SP) == (s, s.sp),
        s.r16(DoubleReg::HLP).1 == s.h * 256 + s.l,
        s.r16(DoubleReg::HLP).0.h * 256 + s.r16(DoubleReg::HLP).0.l == (s.h * 256 + s.l + 1) % 65536,
        s.r16(DoubleReg::HLM).1 == s.h * 256 + s.l,
        s.r16(DoubleReg::HLM).0.h * 256 + s.r16(DoubleReg::HLM).0.l == (s.h * 256 + s.l + 65535) % 65536,
        s.r16_tbl_spec() == [DoubleReg::BC, DoubleReg::DE, DoubleReg::HL, DoubleReg::SP][(s.ir() as int / 16) % 4],
        s.r16_stk_tbl_spec() == [DoubleReg::BC, DoubleReg::DE, DoubleReg::HL, DoubleReg::AF][(s.ir() as int / 16) % 4],
        s.r16_mem_tbl_spec() == [DoubleReg::BC, DoubleReg::DE, DoubleReg::HLP, DoubleReg::HLM][(s.ir() as int / 16) % 4],
{
    lemma_bit_facts(s.ir(), 0, 0, 0, 0, s.hl().wrapping_add(1));
    lemma_bit_facts(s.ir(), 0, 0, 0, 0, s.hl().wrapping_sub(1));
}

/// The condition in bits 3..=4 of a conditional opcode: NZ, Z, NC, C.
pub proof fn lemma_conditions(s: CpuStruct)
    ensures
        s.cond_holds() == if (s.ir() / 8) % 4 == 0 {
            !z_flag(s.f)
        } else if (s.ir() / 8) % 4 == 1 {
            z_flag(s.f)
        } else if (s.ir() / 8) % 4 == 2 {
            !c_flag(s.f)
        } else {
            c_flag(s.f)
        },
{
    lemma_bit_facts(s.ir(), 0, 0, 0, 0, 0);
    lemma_bit_facts(s.f, 0, 0, 0, 0, 0);
}

/// SLA shifts left: bit 7 goes into the carry and bit 0 becomes 0.
/// SRA shifts right keeping bit 7; SRL shifts right bringing in 0; both
/// put bit 0 into the carry. SWAP exchanges the two nibbles and clears
/// the carry. Z tells whether the result is zero; N and H are cleared.
pub proof fn lemma_shifts(f: u8, a: u8, ir: u8, cb: bool, op: u8)
    ensures
        alu8self_spec(Alu8SelfFunction::Sla, f, a, ir, cb, op).0 == (op * 2) % 256,
        c_flag(alu8self_spec(Alu8SelfFunction::Sla, f, a, ir, cb, op).1) == (op >= 128),
        z_flag(alu8self_spec(Alu8SelfFunction::Sla, f, a, ir, cb, op).1) == (alu8self_spec(Alu8SelfFunction::Sla, f, a, ir, cb, op).0 == 0),
        alu8self_spec(Alu8SelfFunction::Sra, f, a, ir, cb, op).0 / 128 == op / 128,
        alu8self_spec(Alu8SelfFunction::Sra, f, a, ir, cb, op).0 % 128 == op / 2,
        c_flag(alu8self_spec(Alu8SelfFunction::Sra, f, a, ir, cb, op).1) == (op % 2 == 1),
        z_flag(alu8self_spec(Alu8SelfFunction::Sra, f, a, ir, cb, op).1) == (alu8self_spec(Alu8SelfFunction::Sra, f, a, ir, cb, op).0 == 0),
        alu8self_spec(Alu8SelfFunction::Srl, f, a, ir, cb, op).0 == op / 2,
        c_flag(alu8self_spec(Alu8SelfFunction::Srl, f, a, ir, cb, op).1) == (op % 2 == 1),
        z_flag(alu8self_spec(Alu8SelfFunction::Srl, f, a, ir, cb, op).1) == (op / 2 == 0),
        alu8self_spec(Alu8SelfFunction::Swap, f, a, ir, cb, op).0 % 16 == op / 16,
        alu8self_spec(Alu8SelfFunction::Swap, f, a, ir, cb, op).0 / 16 == op % 16,
        !c_flag(alu8self_spec(Alu8SelfFunction::Swap, f, a, ir, cb, op).1),
        z_flag(alu8self_spec(Alu8SelfFunction::Swap, f, a, ir, cb, op).1) == (op == 0),
{
}

/// BIT sets Z exactly when the bit that opcode bits 3..=5 name is clear,
/// clears N, sets H, keeps C and leaves the operand as it was.
pub proof fn lemma_bit_tests_the_named_bit(f: u8, a: u8, ir: u8, cb: bool, op: u8)
    ensures
        z_flag(alu8self_spec(Alu8SelfFunction::Bit, f, a, ir, cb, op).1) == !bit_of(op, ((ir / 8) % 8) as u8),
        !n_flag(alu8self_spec(Alu8SelfFunction::Bit, f, a, ir, cb, op).1),
        h_flag(alu8self_spec(Alu8SelfFunction::Bit, f, a, ir, cb, op).1),
        c_flag(alu8self_spec(Alu8SelfFunction::Bit, f, a, ir, cb, op).1) == c_flag(f),
        alu8self_spec(Alu8SelfFunction::Bit, f, a, ir, cb, op).0 == op,
{
    let k = crate::cpu::step::bit_index(ir);
    lemma_bit_index(ir);
    assert(k == (ir / 8) % 8);
    lemma_bit_facts(op, 0, 0, k, 0, 0);
    let f1 = crate::cpu::cpu::with_flag(f, 0x80, (op >> k) % 2 == 0);
    let f2 = crate::cpu::cpu::with_flag(f1, 0x40, false);
    let f3 = crate::cpu::cpu::with_flag(f2, 0x20, true);
    lemma_bit_facts(f, 0, 4, 7, 0, 0);
    lemma_bit_facts(f, 0, 7, 7, 0, 0);
    lemma_bit_facts(f1, 0, 4, 6, 0, 0);
    lemma_bit_facts(f1, 0, 7, 6, 0, 0);
    lemma_bit_facts(f1, 0, 6, 6, 0, 0);
    lemma_bit_facts(f2, 0, 4, 5, 0, 0);
    lemma_bit_facts(f2, 0, 7, 5, 0, 0);
    lemma_bit_facts(f2, 0, 6, 5, 0, 0);
    lemma_bit_facts(f2, 0, 5, 5, 0, 0);
    lemma_bit_facts(f3, 0, 0, 0, 0, 0);
}

/// The bit that BIT, RES and SET address is bits 3..=5 of the opcode.
proof fn lemma_bit_index(ir: u8)
    by (bit_vector)
    ensures
        (ir & 0x3F) >> 3u8 == (ir / 8) % 8,
{
}

/// RES clears the bit that opcode bits 3..=5 name, leaving the other bits
/// and the flags as they were.
pub proof fn lemma_res_clears_the_named_bit(f: u8, a: u8, ir: u8, cb: bool, op: u8)
    ensures
        forall|i: u8| i < 8 ==> #[trigger] bit_of(alu8self_spec(Alu8SelfFunction::Res, f, a, ir, cb, op).0, i) == (i != (ir / 8) % 8 && bit_of(op, i)),
        alu8self_spec(Alu8SelfFunction::Res, f, a, ir, cb, op).1 == f,
{
    let k = crate::cpu::step::bit_index(ir);
    lemma_bit_index(ir);
    assert(k == (ir / 8) % 8);
    assert forall|i: u8| i < 8 implies #[trigger] bit_of(alu8self_spec(Alu8SelfFunction::Res, f, a, ir, cb, op).0, i) == (i != (ir / 8) % 8 && bit_of(op, i)) by {
        lemma_bit_facts(op, 0, i, k, 0, 0);
    }
}

/// SET sets the bit that opcode bits 3..=5 name, leaving the other bits
/// and the flags as they were.
pub proof fn lemma_set_sets_the_named_bit(f: u8, a: u8, ir: u8, cb: bool, op: u8)
    ensures
        forall|i: u8| i < 8 ==> #[trigger] bit_of(alu8self_spec(Alu8SelfFunction::SetBit, f, a, ir, cb, op).0, i) == (i == (ir / 8) % 8 || bit_of(op, i)),
        alu8self_spec(Alu8SelfFunction::SetBit, f, a, ir, cb, op).1 == f,
{
    let k = crate::cpu::step::bit_index(ir);
    lemma_bit_index(ir);
    assert(k == (ir / 8) % 8);
    assert forall|i: u8| i < 8 implies #[trigger] bit_of(alu8self_spec(Alu8SelfFunction::SetBit, f, a, ir, cb, op).0, i) == (i == (ir / 8) % 8 || bit_of(op, i)) by {
        lemma_bit_facts(op, 0, i, k, 0, 0);
    }
}

/// The other MBC1 registers: a write below 0x2000 enables RAM exactly
/// when the value is 0x0A, one to 0x4000..=0x5FFF selects RAM bank
/// `val % 4`, and one from 0x6000 on selects the banking mode by bit 0;
/// each changes nothing else.
pub proof fn lemma_mbc1_other_registers(m: Mbc1, n: Mbc1, addr: usize, val: u8)
    requires
        m.rom_write_rel(&n, addr, val),
        addr < 0x2000 || addr >= 0x4000,
    ensures
        n.rom == m.rom && n.ram == m.ram && n.rom_bank_num == m.rom_bank_num,
        n.ram_enable == if addr < 0x2000 { val == 0x0A } else { m.ram_enable },
        n.ram_bank_num == if 0x4000 <= addr < 0x6000 { val as int % 4 } else { m.ram_bank_num as int },
        n.bank_mode == if addr >= 0x6000 { val % 2 == 1 } else { m.bank_mode },
{
}

/// MBC5's ROM bank is nine bits: a write to 0x2000..=0x2FFF sets the low
/// eight to the value and keeps bit 8; a write to 0x3000..=0x3FFF sets bit
/// 8 from bit 0 of the value and keeps the low eight. RAM is enabled
/// exactly by 0x0A below 0x2000, and from 0x4000 on a write selects RAM
/// bank `val % 4`.
pub proof fn lemma_mbc5_bank_registers(m: Mbc5, n: Mbc5, addr: usize, val: u8)
    requires
        m.rom_write_rel(&n, addr, val),
    ensures
        n.rom == m.rom && n.ram == m.ram,
        0x2000 <= addr <= 0x2FFF ==> n.rom_bank_num % 256 == val && n.rom_bank_num / 256 == (m.rom_bank_num / 256) % 2,
        0x3000 <= addr <= 0x3FFF ==> n.rom_bank_num % 256 == m.rom_bank_num % 256 && n.rom_bank_num / 256 == val % 2,
        (addr < 0x2000 || addr >= 0x4000) ==> n.rom_bank_num == m.rom_bank_num,
        n.ram_enable == if addr < 0x2000 { val == 0x0A } else { m.ram_enable },
        n.ram_bank_num == if addr >= 0x4000 { val as int % 4 } else { m.ram_bank_num as int },
{
    lemma_bit_facts(val, 0, 0, 0, 0, 0);
    lemma_word_bit_facts(m.rom_bank_num, val as usize);
}

/// MBC3: a write to 0x2000..=0x3FFF selects ROM bank
/// `max(1, val % 32 + 32 * RAM bank)` modulo the number of RAM banks; a
/// write below 0x2000 enables RAM exactly when the value is 0x0A.
pub proof fn lemma_mbc3_bank_select(m: Mbc3, n: Mbc3, addr: usize, val: u8)
    requires
        m.rom_write_rel(&n, addr, val),
        m.ram_bank_num < 4,
        m.ram.len() > 0,
    ensures
        0x2000 <= addr <= 0x3FFF ==> n.rom_bank_num == (if val % 32 + 32 * m.ram_bank_num <= 1 { 1 } else { val % 32 + 32 * m.ram_bank_num }) % (m.ram.len() as int),
        n.ram_enable == if addr < 0x2000 { val == 0x0A } else { m.ram_enable },
        n.rom == m.rom && n.ram == m.ram && n.clock == m.clock,
{
    lemma_bit_facts(val, 0, 0, 0, m.ram_bank_num, 0);
}

/// Writing 0 and then 1 to 0x6000..=0x7FFF of an MBC3 latches the clock:
/// its registers then read the running clock as it was at the second write.
pub proof fn lemma_mbc3_latch(m: Mbc3, m1: Mbc3, m2: Mbc3, addr: usize, addr2: usize)
    requires
        0x6000 <= addr <= 0x7FFF,
        0x6000 <= addr2 <= 0x7FFF,
        m.latched == 0,
        m.rom_write_rel(&m1, addr, 0),
        m1.rom_write_rel(&m2, addr2, 1),
    ensures
        m2.tmp_clock == m.clock,
        m2.latched == 0,
        m2.clock == m.clock && m2.clock_mode == m.clock_mode && m2.ram_bank_num == m.ram_bank_num,
{
}

/// MBC2: a write below 0x2000 with address bit 4 set selects ROM bank
/// `max(1, val % 16)`; with that bit clear it enables RAM exactly when the
/// value is 0x0A.
pub proof fn lemma_mbc2_registers(m: Mbc2, n: Mbc2, addr: usize, val: u8)
    requires
        m.rom_write_rel(&n, addr, val),
        addr < 0x2000,
    ensures
        (addr / 16) % 2 == 1 ==> n.rom_bank_num == (if val % 16 == 0 { 1 } else { val % 16 }) && n.ram_enable == m.ram_enable,
        (addr / 16) % 2 == 0 ==> n.ram_enable == (val == 0x0A) && n.rom_bank_num == m.rom_bank_num,
        n.rom == m.rom && n.ram == m.ram,
{
    lemma_bit_facts(val, 0, 0, 0, 0, 0);
    lemma_word_bit_facts(addr, 0);
}

/// Where each part of the address space answers reads while no DMA
/// transfer runs: the boot ROM at 0x0000..=0x00FF until boot control is
/// written (the cartridge after), the cartridge at 0x0100..=0x7FFF and
/// 0xA000..=0xBFFF, video memory at 0x8000..=0x9FFF and object memory at
/// 0xFE00..=0xFE9F while the LCD is off, work RAM at 0xC000..=0xDFFF and
/// high RAM at 0xFF80..=0xFFFE, each byte `i` of them at its base + `i`.
pub proof fn lemma_memory_map_locations(m: MemWrap, i: int)
    requires
        !m.dma.active,
    ensures
        0 <= i < 0x100 ==> m.peek(i as usize) == if m.boot_control == 0 { m.boot_rom[i] } else { m.cart.peek(i as usize) },
        0x100 <= i < 0x8000 ==> m.peek(i as usize) == m.cart.peek(i as usize),
        0xA000 <= i < 0xC000 ==> m.peek(i as usize) == m.cart.peek(i as usize),
        0 <= i < 0x2000 && !m.ppu.lcd_on() ==> m.peek((0x8000 + i) as usize) == m.ppu.vram.byte(i),
        0 <= i < 0xA0 && !m.ppu.lcd_on() ==> m.peek((0xFE00 + i) as usize) == m.ppu.oam.byte(i),
        0 <= i < 0x2000 ==> m.peek((0xC000 + i) as usize) == m.work_ram[i],
        0 <= i < 0x7F ==> m.peek((0xFF80 + i) as usize) == m.high_ram[i],
{
}

/// The I/O registers' addresses while no DMA transfer runs: DIV (the high
/// byte of the divider) at 0xFF04, TIMA at 0xFF05, TMA at 0xFF06, TAC at
/// 0xFF07, IF at 0xFF0F (its unused top three bits read 1), and LCDC, STAT,
/// SCY, SCX, LY, LYC, DMA, BGP, OBP0, OBP1, WY, WX at 0xFF40..=0xFF4B.
pub proof fn lemma_io_register_locations(m: MemWrap)
    requires
        !m.dma.active,
    ensures
        m.peek(0xFF04) == m.timer.divider / 256,
        m.peek(0xFF05) == m.timer.tima,
        m.peek(0xFF06) == m.timer.tma,
        m.peek(0xFF07) == m.timer.tac,
        m.peek(0xFF0F) == 0xE0 | m.iflag,
        m.peek(0xFF40) == m.ppu.vc.lcdc,
        m.peek(0xFF41) == m.ppu.vc.stat,
        m.peek(0xFF42) == m.ppu.vc.scy,
        m.peek(0xFF43) == m.ppu.vc.scx,
        m.peek(0xFF44) == m.ppu.vc.ly,
        m.peek(0xFF45) == m.ppu.vc.lyc,
        m.peek(0xFF46) == m.ppu.vc.dma,
        m.peek(0xFF47) == m.ppu.vc.bgp,
        m.peek(0xFF48) == m.ppu.vc.obp0,
        m.peek(0xFF49) == m.ppu.vc.obp1,
        m.peek(0xFF4A) == m.ppu.vc.wy,
        m.peek(0xFF4B) == m.ppu.vc.wx,
{
    lemma_divider_high_byte(m.timer.divider);
}

/// The high byte of a word is the word divided by 256.
proof fn lemma_divider_high_byte(w: u16)
    by (bit_vector)
    ensures
        ((w & 0xFF00) >> 8u16) as u8 == w / 256,
{
}

/// With the LCD on, each clock is one dot of a line of 456 dots; the line
/// counter steps when a line ends and runs through 154 lines (0..=143
/// drawn, 144..=153 the vertical blank); the VBlank interrupt comes exactly
/// when line 144 begins. A line is drawn into the line buffer when it
/// begins and shown at its dot 172.
pub proof fn lemma_screen_timing(s: Screen, n: Screen)
    requires
        s.lcd_on(),
        s.dots < 456,
        s.vc.ly < 154,
        s.clocked(n),
    ensures
        n.dots == (s.dots + 1) % 456,
        n.vc.ly == if s.dots == 455 { (s.vc.ly + 1) % 154 } else { s.vc.ly as int },
        s.next_vblank() == if s.dots == 455 && s.vc.ly == 143 { Some(Interrupt::VBlank) } else { None::<Interrupt> },
        s.dots == 455 && n.vc.ly < 144 ==> forall|col: int| 0 <= col < 160 ==> #[trigger] n.virtual_unrendered_screen[n.vc.ly as int][col] == s.line_pixel(n.vc.ly, col),
        s.dots == 171 && s.vc.ly < 144 ==> forall|col: int| 0 <= col < 160 ==> #[trigger] n.virtual_rendered_screen[s.vc.ly as int][col] == s.virtual_unrendered_screen[s.vc.ly as int][col],
{
}

} // verus!
