use gameboy::audio::AudioController;
use gameboy::cartridge::cartridge::Cartridge;
use gameboy::cpu::cpu_state::CpuState;
use gameboy::cpu::registers::{DoubleReg, Flag, SingleReg};
use gameboy::joypad::Joypad;
use gameboy::memory::mapped_io::{MappedIO, OnClock};
use gameboy::memory::memory_wrapper::AsMemory;
use gameboy::screen::video_controller::VideoController;

fn state(boot: &[u8]) -> CpuState {
    let mut boot_rom = [0u8; 256];
    boot_rom[..boot.len()].copy_from_slice(boot);
    CpuState::new(Joypad::new(), AudioController::new(), boot_rom, Cartridge::new(vec![0u8; 0x8000]))
}

fn io() -> MappedIO {
    let vc = VideoController { lcdc: 0, stat: 0, scy: 0, scx: 0, ly: 0, lyc: 0, dma: 0, bgp: 0, obp0: 0, obp1: 0, wy: 0, wx: 0 };
    MappedIO::new(Joypad::new(), AudioController::new(), vc)
}

#[test]
fn cpu_state_operands_come_from_memory_at_pc() {
    let mut s = state(&[0x00, 0x42, 0x34, 0x12]);
    assert_eq!(s.get_imm8(), 0x42);
    assert_eq!(s.get_pc(), 1);
    assert_eq!(s.get_imm16(), 0x1234);
    assert_eq!(s.get_pc(), 3);
    s.set_pc(0);
    assert_eq!(s.get_simm8(), 0x42);
}

#[test]
fn cpu_state_stack_round_trip() {
    let mut s = state(&[]);
    s.set_r16(DoubleReg::SP, 0xFFFE);
    s.push(0xBEEF);
    assert_eq!(s.get_r16(DoubleReg::SP), 0xFFFC);
    assert_eq!(s.get_mem_16(0xFFFC), 0xBEEF);
    assert_eq!(s.pop(), 0xBEEF);
    assert_eq!(s.get_r16(DoubleReg::SP), 0xFFFE);
}

#[test]
fn cpu_state_registers_and_memory_through_hl() {
    let mut s = state(&[]);
    s.set_r16(DoubleReg::HL, 0xC010);
    s.set_r8(SingleReg::Memptr, 0x77);
    assert_eq!(s.get_byte(0xC010), 0x77);
    assert_eq!(s.get_r8(SingleReg::Memptr), 0x77);
    assert!(s.get_bit(SingleReg::Memptr, 0));
    assert!(!s.get_bit(SingleReg::Memptr, 3));
    s.set_r16_mem_8(DoubleReg::HLP, 0x11);
    assert_eq!(s.get_r16(DoubleReg::HL), 0xC011);
    assert_eq!(s.get_byte(0xC010), 0x11);
    s.set_acc(0x5A);
    assert_eq!(s.get_acc(), 0x5A);
    assert_eq!(s.get_r8_end(0x06), SingleReg::Memptr);
    assert_eq!(s.r16_mem_tbl(0x3A), DoubleReg::HLM);
}

#[test]
fn cpu_state_flags() {
    let mut s = state(&[]);
    s.set_flags(true, false, false, true);
    assert!(s.get_flag(Flag::Zero));
    assert!(s.get_flag(Flag::Carry));
    s.flip_carry();
    assert!(!s.get_flag(Flag::Carry));
    s.flip_carry();
    assert!(s.get_flag(Flag::Carry));
    s.reset_flags();
    assert!(!s.get_flag(Flag::Zero));
    s.mark_flag(Flag::HalfCarry, true);
    assert!(s.get_flag(Flag::HalfCarry));
}

#[test]
fn mapped_io_registers() {
    let mut m = io();
    m.memory_write(0x00, 0x20);
    assert_eq!(m.joypad.joypad_state, 0xF0);
    assert_eq!(m.memory_map(0x00), 0xFF);
    m.memory_write(0x0f, 0x01);
    assert_eq!(m.memory_map(0x0f), 0xE1);
    m.memory_write(0x50, 0x07);
    assert_eq!(m.memory_map(0x50), 0x07);
    m.memory_write(0xff, 0x1F);
    assert_eq!(m.memory_map(0xff), 0x1F);
    assert_eq!(m.memory_map(0x01), 0x00);
}

#[test]
fn mapped_io_divider_reads_zero_and_timer_overflows() {
    let mut m = io();
    m.timer.divider.internal_divider = 0x12F3;
    assert_eq!(m.memory_map(0x04), 0x00);
    m.timer.tac = 0x05;
    m.timer.tima = 0xFF;
    m.timer.tma = 0x20;
    m.timer.divider.internal_divider = 3;
    m.on_clock();
    assert_eq!(m.timer.divider.internal_divider, 4);
    assert_eq!(m.timer.tima, 0x20);
    assert_eq!(m.iflag & 0x04, 0x04);
    m.memory_write(0x04, 0x99);
    assert_eq!(m.timer.divider.internal_divider, 0);
}
