use gameboy::audio::AudioController;
use gameboy::cartridge::cartridge::Cartridge;
use gameboy::cpu::cpu::{CpuStruct, InterruptState};
use gameboy::cpu::registers::{DoubleReg, Flag, RegStruct};
use gameboy::joypad::Joypad;

fn rom_only_cart() -> Cartridge {
    let mut rom = vec![0u8; 0x8000];
    rom[0x147] = 0x00;
    assert!(Cartridge::supported(&rom));
    Cartridge::new(rom)
}

fn machine(boot: &[u8]) -> CpuStruct {
    let mut boot_rom = [0u8; 256];
    boot_rom[..boot.len()].copy_from_slice(boot);
    CpuStruct::new(Joypad::new(), AudioController::new(), boot_rom, rom_only_cart())
}

#[test]
fn power_on_state() {
    let cpu = machine(&[]);
    assert_eq!(cpu.pc, 0);
    assert_eq!(cpu.sp, 0);
    assert_eq!(cpu.a, 0);
    assert_eq!(cpu.ime_flag, InterruptState::DisableInterrupt);
    assert!(!cpu.stopped);
    assert!(!cpu.fault);
    assert_eq!(cpu.memory.wait, 0);
}

#[test]
fn boot_program_loads_and_adds() {
    // LD A,5 ; LD B,3 ; ADD A,B
    let mut cpu = machine(&[0x3E, 0x05, 0x06, 0x03, 0x80]);
    let mut clocks = 0;
    while cpu.pc < 5 && clocks < 1000 {
        cpu.on_clock([false; 8]);
        clocks += 1;
    }
    assert!(!cpu.fault);
    assert_eq!(cpu.pc, 5);
    assert_eq!(cpu.a, 8);
    assert_eq!(cpu.b, 3);
    assert_eq!(cpu.f, 0x00);
}

#[test]
fn interpret_command_counts_down_the_wait() {
    let mut cpu = machine(&[0x00]);
    cpu.memory.wait = 3;
    cpu.interpret_command();
    assert_eq!(cpu.memory.wait, 2);
    assert_eq!(cpu.pc, 0);
}

#[test]
fn nop_costs_fetch_and_table_cycles() {
    let mut cpu = machine(&[0x00]);
    cpu.interpret_command();
    assert_eq!(cpu.pc, 1);
    // three fetched bytes and the reads of IE and IF at two cycles each,
    // and one cycle for NOP
    assert_eq!(cpu.memory.wait, 11);
}

#[test]
fn faulted_processor_does_nothing() {
    let mut cpu = machine(&[0x3C]);
    cpu.fault = true;
    cpu.interpret_command();
    assert_eq!(cpu.pc, 0);
    assert_eq!(cpu.a, 0);
}

#[test]
fn fetch_from_echo_ram_is_a_fault() {
    let mut cpu = machine(&[]);
    cpu.pc = 0xE000;
    cpu.interpret_command();
    assert!(cpu.fault);
    assert_eq!(cpu.pc, 0xE000);
}

#[test]
fn run_command_increments_a() {
    let mut cpu = machine(&[]);
    cpu.a = 0x0F;
    let clear = cpu.run_command([0x3C, 0x00, 0x00], [false; 8]);
    assert!(!clear);
    assert_eq!(cpu.a, 0x10);
    // INC sets H on a low nibble of 0xF, clears N, leaves C
    assert_eq!(cpu.f, 0x20);
}

#[test]
fn add_flags() {
    let mut cpu = machine(&[]);
    assert_eq!(cpu.add(0x3A, 0xC6), 0x00);
    assert_eq!(cpu.f, 0x90);
    assert_eq!(cpu.add(0x0F, 0x02), 0x11);
    assert_eq!(cpu.f, 0x20);
    // a half carry to exactly 0x10 does not set H
    assert_eq!(cpu.add(0x08, 0x08), 0x10);
    assert_eq!(cpu.f, 0x00);
}

#[test]
fn adc_and_subc_use_the_carry() {
    let mut cpu = machine(&[]);
    cpu.f = 0x10;
    assert_eq!(cpu.adc(0x01, 0x01), 0x03);
    cpu.f = 0x10;
    assert_eq!(cpu.subc(0x05, 0x01), 0x03);
    assert_eq!(cpu.f, 0x40);
    cpu.f = 0x10;
    // the operand 0xFF plus the carry wraps to 0
    assert_eq!(cpu.adc(0x05, 0xFF), 0x05);
}

#[test]
fn xor_self_clears() {
    let mut cpu = machine(&[]);
    assert_eq!(cpu.xor(0x5A, 0x5A), 0);
    assert_eq!(cpu.f, 0x80);
}

#[test]
fn sub_undoes_add_and_cp_keeps_a() {
    let mut cpu = machine(&[]);
    let s = cpu.add(0xF0, 0x25);
    assert_eq!(s, 0x15);
    assert_eq!(cpu.sub(s, 0x25), 0xF0);
    assert_eq!(cpu.f, 0x50);
    assert_eq!(cpu.cp(0x10, 0x20), 0x10);
    assert_eq!(cpu.f, 0x50);
    assert_eq!(cpu.cp(0x20, 0x20), 0x20);
    assert_eq!(cpu.f, 0xC0);
}

#[test]
fn and_or() {
    let mut cpu = machine(&[]);
    assert_eq!(cpu.and(0xF0, 0x0F), 0);
    assert_eq!(cpu.f, 0xA0);
    assert_eq!(cpu.or(0xF0, 0x0F), 0xFF);
    assert_eq!(cpu.f, 0x00);
}

#[test]
fn rotations_and_shifts() {
    let mut cpu = machine(&[]);
    assert_eq!(cpu.rlc(0x81), 0x03);
    assert_eq!(cpu.f, 0x10);
    assert_eq!(cpu.rrc(0x03), 0x81);
    cpu.f = 0x10;
    assert_eq!(cpu.rl(0x80), 0x01);
    assert_eq!(cpu.f, 0x10);
    cpu.f = 0x10;
    assert_eq!(cpu.rr(0x01), 0x80);
    assert_eq!(cpu.sla(0x80), 0x00);
    assert_eq!(cpu.f, 0x90);
    assert_eq!(cpu.sra(0x81), 0xC0);
    assert_eq!(cpu.srl(0x81), 0x40);
    assert_eq!(cpu.f, 0x10);
    assert_eq!(cpu.swap(0xA5), 0x5A);
    assert_eq!(cpu.swap(0x5A), 0xA5);
}

#[test]
fn rotate_zero_sets_z_only_after_the_prefix() {
    let mut cpu = machine(&[]);
    cpu.command = [0x07, 0, 0];
    assert_eq!(cpu.rlc(0x00), 0x00);
    assert_eq!(cpu.f, 0x00);
    cpu.command = [0xCB, 0x00, 0];
    assert_eq!(cpu.rlc(0x00), 0x00);
    assert_eq!(cpu.f, 0x80);
}

#[test]
fn daa_after_bcd_add() {
    let mut cpu = machine(&[]);
    cpu.a = 0x0B;
    cpu.f = 0x00;
    assert_eq!(cpu.daa(0x0B), 0x11);
    assert_eq!(cpu.f & 0x90, 0x00);
}

#[test]
fn bit_res_set() {
    let mut cpu = machine(&[]);
    // CB 0x58: bit 3
    cpu.command = [0xCB, 0x58, 0];
    assert_eq!(cpu.bit_idx(), 3);
    assert_eq!(cpu.bit(0x08), 0x08);
    assert_eq!(cpu.f & 0xE0, 0x20);
    assert_eq!(cpu.bit(0x00), 0x00);
    assert_eq!(cpu.f & 0xE0, 0xA0);
    assert_eq!(cpu.res(0xFF), 0xF7);
    assert_eq!(cpu.set(0x00), 0x08);
}

#[test]
fn push_then_pop_restores_the_pair() {
    let mut cpu = machine(&[]);
    cpu.sp = 0xFFFE;
    cpu.b = 0x12;
    cpu.c = 0x34;
    cpu.command = [0xC5, 0, 0]; // PUSH BC
    cpu.push();
    assert_eq!(cpu.sp, 0xFFFC);
    cpu.command = [0xD1, 0, 0]; // POP DE
    cpu.pop();
    assert_eq!(cpu.sp, 0xFFFE);
    assert_eq!(cpu.d, 0x12);
    assert_eq!(cpu.e, 0x34);
    assert!(!cpu.fault);
}

#[test]
fn pop_af_clears_the_low_nibble_of_f() {
    let mut cpu = machine(&[]);
    cpu.sp = 0xFFFE;
    cpu.b = 0x12;
    cpu.c = 0xFF;
    cpu.command = [0xC5, 0, 0];
    cpu.push();
    cpu.command = [0xF1, 0, 0]; // POP AF
    cpu.pop();
    assert_eq!(cpu.a, 0x12);
    assert_eq!(cpu.f, 0xF0);
}

#[test]
fn push_to_echo_ram_is_a_fault() {
    let mut cpu = machine(&[]);
    cpu.sp = 0xE002;
    cpu.command = [0xC5, 0, 0];
    cpu.push();
    assert!(cpu.fault);
}

#[test]
fn call_and_ret() {
    let mut cpu = machine(&[]);
    cpu.sp = 0xFFFE;
    cpu.pc = 0x0150;
    cpu.command = [0xCD, 0x34, 0x12];
    cpu.call();
    assert_eq!(cpu.pc, 0x1233);
    cpu.ret();
    assert_eq!(cpu.pc, 0x0152);
    assert_eq!(cpu.sp, 0xFFFE);
}

#[test]
fn rst_vector() {
    let mut cpu = machine(&[]);
    cpu.sp = 0xFFFE;
    cpu.pc = 0x0200;
    cpu.command = [0xEF, 0, 0]; // RST 28
    cpu.rst();
    assert_eq!(cpu.pc, 0x0027);
}

#[test]
fn jr_is_signed() {
    let mut cpu = machine(&[]);
    cpu.pc = 0x0100;
    cpu.command = [0x18, 0xFE, 0];
    cpu.jr_imm();
    assert_eq!(cpu.pc, 0x00FF);
}

#[test]
fn ei_is_delayed_and_di_is_not() {
    let mut cpu = machine(&[]);
    cpu.ime_flag = InterruptState::Disabled;
    cpu.ei();
    assert_eq!(cpu.ime_flag, InterruptState::EnableInterrupt);
    cpu.handle_interrupts();
    assert_eq!(cpu.ime_flag, InterruptState::AlmostEnabled);
    cpu.handle_interrupts();
    assert_eq!(cpu.ime_flag, InterruptState::Enabled);
    cpu.di();
    assert_eq!(cpu.ime_flag, InterruptState::DisableInterrupt);
    cpu.handle_interrupts();
    assert_eq!(cpu.ime_flag, InterruptState::Disabled);
}

#[test]
fn di_twice_is_a_fault() {
    let mut cpu = machine(&[]);
    cpu.ime_flag = InterruptState::Enabled;
    cpu.di();
    cpu.di();
    assert!(cpu.fault);
}

#[test]
fn vblank_is_serviced_first() {
    let mut cpu = machine(&[]);
    cpu.ime_flag = InterruptState::Enabled;
    cpu.memory.iflag = 0x05;
    cpu.sp = 0xFFFE;
    cpu.pc = 0x1234;
    cpu.stopped = true;
    cpu.handle_interrupts();
    assert_eq!(cpu.pc, 0x0040);
    assert_eq!(cpu.ime_flag, InterruptState::Disabled);
    assert!(!cpu.stopped);
    assert_eq!(cpu.sp, 0xFFFC);
    assert_eq!(cpu.memory.grab_memory_8(0xFFFD), 0x12);
    assert_eq!(cpu.memory.grab_memory_8(0xFFFC), 0x34);
    // the acknowledged request is cleared, the timer request stays
    assert_eq!(cpu.memory.iflag, 0xE4);
}

#[test]
fn pending_interrupt_ends_halt_without_dispatch() {
    let mut cpu = machine(&[]);
    cpu.ime_flag = InterruptState::Disabled;
    cpu.memory.iflag = 0x01;
    cpu.sp = 0xFFFE;
    cpu.pc = 0x1234;
    cpu.stopped = true;
    cpu.handle_interrupts();
    assert!(!cpu.stopped);
    assert_eq!(cpu.pc, 0x1234);
    assert_eq!(cpu.sp, 0xFFFE);
    assert_eq!(cpu.memory.iflag, 0x01);
}

#[test]
fn halt_continues_without_a_request() {
    let mut cpu = machine(&[]);
    cpu.ime_flag = InterruptState::Disabled;
    cpu.memory.iflag = 0x00;
    cpu.stopped = true;
    cpu.handle_interrupts();
    assert!(cpu.stopped);
}

#[test]
fn faulted_processor_takes_no_interrupt() {
    let mut cpu = machine(&[]);
    cpu.fault = true;
    cpu.ime_flag = InterruptState::Enabled;
    cpu.memory.iflag = 0x01;
    cpu.sp = 0xFFFE;
    cpu.pc = 0x1234;
    cpu.handle_interrupts();
    assert_eq!(cpu.pc, 0x1234);
    assert_eq!(cpu.sp, 0xFFFE);
}

#[test]
fn timer_interrupt_vector() {
    let mut cpu = machine(&[]);
    cpu.ime_flag = InterruptState::Enabled;
    cpu.memory.iflag = 0x04;
    cpu.sp = 0xFFFE;
    cpu.handle_interrupts();
    assert_eq!(cpu.pc, 0x0050);
}

#[test]
fn no_interrupt_without_enable() {
    let mut cpu = machine(&[]);
    cpu.ime_flag = InterruptState::Disabled;
    cpu.memory.iflag = 0x01;
    cpu.pc = 0x1234;
    cpu.handle_interrupts();
    assert_eq!(cpu.pc, 0x1234);
}

#[test]
fn ld_hl_and_add_sp() {
    let mut cpu = machine(&[]);
    cpu.sp = 0xFFF8;
    cpu.command = [0xF8, 0x02, 0];
    cpu.ld_hl_imm8();
    assert_eq!(cpu.h, 0xFE);
    assert_eq!(cpu.l, 0xFA);
    cpu.command = [0xE8, 0xFF, 0];
    cpu.add_sp_imm8();
    assert_eq!(cpu.sp, 0xFFF7);
    assert_eq!(cpu.f & 0x10, 0x00);
}

#[test]
fn add_hl_carries() {
    let mut cpu = machine(&[]);
    cpu.h = 0xFF;
    cpu.l = 0xFF;
    cpu.b = 0x00;
    cpu.c = 0x01;
    cpu.command = [0x09, 0, 0];
    cpu.add_hl();
    assert_eq!((cpu.h, cpu.l), (0x00, 0x00));
    assert_eq!(cpu.f & 0x70, 0x10);
}

#[test]
fn inc_dec_r8_through_hl() {
    let mut cpu = machine(&[]);
    cpu.h = 0xC0;
    cpu.l = 0x00;
    cpu.memory.set_memory_8(0xC000, 0xFF);
    cpu.command = [0x34, 0, 0]; // INC (HL)
    cpu.inc_r8();
    assert_eq!(cpu.memory.grab_memory_8(0xC000), 0x00);
    assert_eq!(cpu.f & 0xE0, 0xA0);
    cpu.command = [0x35, 0, 0]; // DEC (HL)
    cpu.dec_r8();
    assert_eq!(cpu.memory.grab_memory_8(0xC000), 0xFF);
}

#[test]
fn test_init_state() {
    let mut cpu = machine(&[]);
    cpu.test_init();
    assert_eq!((cpu.a, cpu.f, cpu.c, cpu.e, cpu.h, cpu.l), (0x01, 0xB0, 0x13, 0xD8, 0x01, 0x4D));
    assert_eq!((cpu.pc, cpu.sp), (0x0100, 0xFFFE));
}

#[test]
fn regstruct_pairs_round_trip() {
    let mut r = RegStruct::new();
    for reg in [DoubleReg::BC, DoubleReg::DE, DoubleReg::HL, DoubleReg::SP, DoubleReg::PC] {
        r.set_r16(reg, 0xBEEF);
        assert_eq!(r.get_r16(reg), 0xBEEF);
    }
    r.set_r16(DoubleReg::HL, 0x00FF);
    assert_eq!(r.get_r16(DoubleReg::HLP), 0x00FF);
    assert_eq!(r.get_r16(DoubleReg::HL), 0x0100);
    assert_eq!(r.get_r16(DoubleReg::HLM), 0x0100);
    assert_eq!(r.get_r16(DoubleReg::HL), 0x00FF);
}

#[test]
fn regstruct_flags() {
    let mut r = RegStruct::new();
    r.set_flags(true, false, true, true);
    assert_eq!(r.f, 0x70);
    r.set_flags(true, true, false, false);
    assert_eq!(r.f, 0x80);
    r.reset_flags();
    assert_eq!(r.f, 0);
    r.set_flag(Flag::Carry);
    r.flag_cond(Flag::Zero, true);
    assert_eq!(r.f, 0x90);
    r.unset_flag(Flag::Carry);
    assert_eq!(r.f, 0x80);
    assert_eq!(r.inc_pc(3), 3);
    assert_eq!(r.set_pc(0xFFFE), 0xFFFE);
    assert_eq!(r.inc_pc(1), 0xFFFF);
    r.change_r16(DoubleReg::DE, |x: u16| x.wrapping_add(0x10));
    assert_eq!(r.get_r16(DoubleReg::DE), 0x10);
}
