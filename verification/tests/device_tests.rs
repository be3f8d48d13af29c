use gameboy::audio::AudioController;
use gameboy::cartridge::cartridge::Cartridge;
use gameboy::cartridge::mbc::Mbc;
use gameboy::cartridge::mbc3::{Mbc3, RTC};
use gameboy::interrupt::Interrupt;
use gameboy::joypad::Joypad;
use gameboy::memory::memory_wrapper::{AsMemory, MemWrap, Timer};
use gameboy::screen::oam::OamStruct;
use gameboy::screen::pixelqueue::{FIFOPixel, PixelFIFO};
use gameboy::screen::ppu::{PaletteColor, Ppu};
use gameboy::screen::screen::{ColorID, GBColor, Screen};
use gameboy::screen::video_controller::VideoController;
use gameboy::screen::vram::Vram;

fn memory() -> MemWrap {
    let mut rom = vec![0u8; 0x8000];
    rom[0x147] = 0x00;
    MemWrap::new(Joypad::new(), AudioController::new(), [0u8; 256], Cartridge::new(rom))
}

fn vc(lcdc: u8) -> VideoController {
    VideoController { lcdc, stat: 0x02, scy: 0, scx: 0, ly: 0, lyc: 0, dma: 0, bgp: 0, obp0: 0, obp1: 0, wy: 0, wx: 0 }
}

#[test]
fn cartridge_support() {
    let mut rom = vec![0u8; 0x8000];
    assert!(Cartridge::supported(&rom));
    rom[0x147] = 0x20;
    assert!(!Cartridge::supported(&rom));
    assert!(!Cartridge::supported(&vec![0u8; 0x100]));
    assert!(!Cartridge::supported(&vec![0u8; 0x4000]));
}

#[test]
fn work_and_high_ram_read_back() {
    let mut m = memory();
    m.set_memory_8(0xC123, 0xAB);
    m.set_memory_8(0xFF90, 0xCD);
    assert_eq!(m.grab_memory_8(0xC123), 0xAB);
    assert_eq!(m.grab_memory_8(0xFF90), 0xCD);
    assert_eq!(m.grab_memory_8(0xC124), 0x00);
    m.set_memory_16(0xC200, 0x1234);
    assert_eq!(m.grab_memory_16(0xC200), 0x1234);
    assert_eq!(m.grab_memory_8(0xC201), 0x12);
}

#[test]
fn reads_cost_wait() {
    let mut m = memory();
    m.grab_memory_8(0xC000);
    assert_eq!(m.wait, 2);
    m.grab_memory_16(0xC000);
    assert_eq!(m.wait, 6);
    let bytes = m.grab_memory_24(0xC000);
    assert_eq!(bytes, [0, 0, 0]);
    assert_eq!(m.wait, 12);
}

#[test]
fn boot_rom_until_disabled() {
    let mut rom = vec![0u8; 0x8000];
    rom[0x10] = 0x77;
    let mut boot = [0u8; 256];
    boot[0x10] = 0x55;
    let mut m = MemWrap::new(Joypad::new(), AudioController::new(), boot, Cartridge::new(rom));
    assert_eq!(m.grab_memory_8(0x0010), 0x55);
    m.set_memory_8(0xFF50, 0x01);
    assert_eq!(m.grab_memory_8(0x0010), 0x77);
    assert_eq!(m.grab_memory_8(0xFF50), 0x01);
}

#[test]
fn dma_blocks_work_ram_writes() {
    let mut m = memory();
    m.set_memory_8(0xFF46, 0xC0);
    assert!(m.dma.active);
    m.set_memory_8(0xC000, 0x99);
    m.set_memory_8(0xFF85, 0x42);
    // only high RAM can be read during the transfer
    assert_eq!(m.grab_memory_8(0xC000), 0xFF);
    assert_eq!(m.grab_memory_8(0xFF00), 0xFF);
    assert_eq!(m.grab_memory_8(0xFF85), 0x42);
}

#[test]
fn joypad_register_reads_after_write() {
    let mut m = memory();
    m.set_memory_8(0xFF00, 0x30);
    assert_eq!(m.grab_memory_8(0xFF00), 0x3F);
    m.set_memory_8(0xFF00, 0x20);
    assert_eq!(m.grab_memory_8(0xFF00), 0x00);
    let mut j = Joypad::new();
    j.write(0x10);
    assert_eq!(j.read(), 0x00);
}

#[test]
fn interrupt_flag_register() {
    let mut m = memory();
    m.set_memory_8(0xFF0F, 0x01);
    assert_eq!(m.iflag, 0xE1);
    assert_eq!(m.grab_memory_8(0xFF0F), 0xE1);
    m.set_memory_8(0xFFFF, 0x03);
    assert_eq!(m.grab_memory_8(0xFFFF), 0x03);
}

#[test]
fn memory_clock_counts_the_divider() {
    let mut m = memory();
    assert!(m.can_clock());
    // with the sound master control off, channel 1 is silenced each clock
    let clear = m.on_clock([false; 8]);
    assert!(clear);
    assert_eq!(m.timer.divider, 1);
}

#[test]
fn timer_registers() {
    let mut t = Timer { divider: 0x1234, tima: 0, tma: 0, tac: 0 };
    assert_eq!(t.memory_map(0), 0x12);
    t.memory_write(0, 0x99);
    assert_eq!(t.memory_map(0), 0x00);
    t.memory_write(1, 0xAB);
    t.memory_write(2, 0xCD);
    t.memory_write(3, 0x05);
    assert_eq!((t.memory_map(1), t.memory_map(2), t.memory_map(3)), (0xAB, 0xCD, 0x05));
}

#[test]
fn timer_overflow_reloads_and_interrupts() {
    // enabled, clock select 1: TIMA ticks every 4 counts of the divider
    let mut t = Timer { divider: 3, tima: 0xFF, tma: 0x10, tac: 0x05 };
    assert_eq!(t.on_clock(), Some(Interrupt::Timer));
    assert_eq!(t.tima, 0x10);
    assert_eq!(t.divider, 4);
    assert_eq!(t.on_clock(), None);
    assert_eq!(t.tima, 0x10);
}

#[test]
fn video_registers() {
    let mut v = vc(0x91);
    // STAT keeps its mode and coincidence bits
    v.memory_write(1, 0xFF);
    assert_eq!(v.memory_map(1), 0xFA);
    v.memory_write(1, 0x00);
    assert_eq!(v.memory_map(1), 0x02);
    v.memory_write(4, 0x33);
    assert_eq!(v.memory_map(4), 0x00);
    v.memory_write(0xb, 0x07);
    assert_eq!(v.memory_map(0xb), 0x07);
}

#[test]
fn vram_and_oam_read_back() {
    let mut vram = Vram::new();
    vram.memory_write(0x1234, 7);
    vram.memory_write(0x1C05, 9);
    assert_eq!(vram.memory_map(0x1234), 7);
    assert_eq!(vram.memory_map(0x1C05), 9);
    assert_eq!(vram.memory_map(0x1235), 0);
    let mut oam = OamStruct::new();
    oam.memory_write(0x9F, 0x44);
    assert_eq!(oam.memory_map(0x9F), 0x44);
    assert_eq!(oam.oam_list[39].attributes, 0x44);
}

#[test]
fn rtc_counts_and_halts() {
    let mut r = RTC::new();
    for _ in 0..61 {
        r.on_sec();
    }
    assert_eq!((r.seconds, r.minutes), (1, 1));
    r.days_h = 0x40;
    let before = r;
    r.on_sec();
    assert_eq!(r, before);
}

#[test]
fn screen_line_counter_stays_below_154() {
    let mut s = Screen::new();
    s.vc.lcdc = 0x80;
    let mut vblanks = 0;
    for _ in 0..(2 * 154 * 457) {
        assert!(s.can_clock());
        let (vblank, _) = s.on_clock();
        if vblank == Some(Interrupt::VBlank) {
            vblanks += 1;
        }
        assert!(s.vc.ly < 154);
    }
    assert!(vblanks >= 1);
}

#[test]
fn screen_off_does_not_move() {
    let mut s = Screen::new();
    s.vc.lcdc = 0x00;
    assert_eq!(s.on_clock(), (None, None));
    assert_eq!(s.dots, 0);
}

#[test]
fn ppu_draws_background_at_mode_3() {
    let mut p = Ppu::new(vc(0x91));
    // tile 0 of bank 0: row 0 has its rightmost pixel at colour 3
    p.vram.memory_write(0, 0x01);
    p.vram.memory_write(1, 0x01);
    let mut last = (None, None);
    for _ in 0..80 {
        last = p.on_ppu();
    }
    assert_eq!(last, (None, None));
    assert_eq!(p.video_controller.stat, 0x03);
    assert_eq!(p.virtual_screen_layers.background[0][0], PaletteColor::Three);
    assert_eq!(p.virtual_screen_layers.background[0][255], PaletteColor::Three);
    assert_eq!(p.virtual_screen_layers.background[1][0], PaletteColor::Zero);
    // LCDC >> 1 is not 1, so no window is drawn
    assert_eq!(p.virtual_screen_layers.window[0][0], PaletteColor::Unset);
}

#[test]
fn ppu_line_end_and_vblank() {
    let mut p = Ppu::new(vc(0x00));
    p.video_controller.ly = 143;
    p.dots = 456;
    let r = p.on_ppu();
    assert_eq!(p.video_controller.ly, 144);
    assert_eq!(p.dots, 0);
    assert_eq!(r.1, Some(Interrupt::VBlank));
    assert_eq!(p.get_screen()[0][0], GBColor::Transparent);
    p.video_controller.ly = 153;
    p.dots = 456;
    p.on_ppu();
    assert_eq!(p.video_controller.ly, 0);
}

#[test]
fn ppu_memory_locks() {
    let mut p = Ppu::new(vc(0x80));
    p.video_controller.stat = 0x03;
    p.write_vram(0x10, 5);
    assert_eq!(p.read_vram(0x10), 0xFF);
    assert_eq!(p.read_oam(0x10), 0xFF);
    p.video_controller.stat = 0x00;
    assert_eq!(p.read_vram(0x10), 0);
    p.write_oam(0x10, 6);
    assert_eq!(p.read_vram(0x10), 6);
}

#[test]
fn pixel_fifo_pops_in_order() {
    let mut q = PixelFIFO::new();
    let a = FIFOPixel { color: ColorID::One, palette: false, priority: false };
    let b = FIFOPixel { color: ColorID::Two, palette: true, priority: false };
    q.pixel_list[0] = Some(a);
    q.pixel_list[1] = Some(b);
    assert_eq!(q.pop(), Some(a));
    assert_eq!(q.pop(), Some(b));
    assert_eq!(q.pop(), None);
    assert!(q.pixel_list.iter().all(|p| p.is_none()));
}

#[test]
fn rtc_registers_read_back_through_the_latch() {
    let mut rom = vec![0u8; 0x8000];
    rom[0x147] = 0x10;
    rom[0x148] = 0x00;
    rom[0x149] = 0x02;
    let mut m = Mbc3::new(rom);
    m.rom_write(0x0000, 0x0A);
    m.rom_write(0x4000, 0x09);
    m.ram_write(0x0000, 75);
    assert_eq!(m.clock.minutes, 15);
    m.rom_write(0x4000, 0x0A);
    m.ram_write(0x0000, 30);
    assert_eq!(m.clock.hours, 6);
    m.rom_write(0x6000, 0x00);
    m.rom_write(0x6000, 0x01);
    assert_eq!(m.ram_read(0x0000), 6);
    m.rom_write(0x4000, 0x09);
    assert_eq!(m.ram_read(0x0000), 15);
}

#[test]
fn power_on_screen_registers_and_memory() {
    let mut m = memory();
    assert_eq!(m.ppu.vc, vc(0));
    assert_eq!(m.ppu.dots, 0);
    assert!(m.ppu.objs.0.iter().all(|o| o.is_none()));
    assert_eq!(m.ppu.objs.1, 0);
    assert!(m.ppu.virtual_rendered_screen.iter().all(|r| r.iter().all(|c| *c == GBColor::White)));
    assert!(m.ppu.virtual_unrendered_screen.iter().all(|r| r.iter().all(|c| *c == GBColor::Transparent)));
    for a in 0..0x2000usize {
        assert_eq!(m.ppu.vram.memory_map(a), 0);
    }
}

#[test]
fn mbc3_cartridge_starts_with_bank_zero_and_stopped_clock() {
    let mut rom = vec![0u8; 0x8000];
    rom[0x147] = 0x0F;
    rom[0x148] = 0x01;
    rom[0x149] = 0x02;
    match Cartridge::new(rom) {
        Cartridge::Mbc3(m) => {
            assert_eq!(m.rom.len(), 4);
            assert_eq!(m.ram.len(), 1);
            assert_eq!(m.rom_bank_num, 0);
            assert_eq!(m.ram_bank_num, 0);
            assert!(!m.ram_enable);
            assert_eq!(m.clock_mode, 0);
            assert_eq!(m.latched, 0);
            assert_eq!(m.clock, RTC::new());
            assert_eq!(m.tmp_clock, m.clock);
        }
        _ => panic!("header type 0x0F builds an MBC3 controller"),
    }
}

#[test]
fn mbc2_cartridge_starts_with_bank_one() {
    let mut rom = vec![0u8; 0x8000];
    rom[0x147] = 0x05;
    rom[0x148] = 0x01;
    match Cartridge::new(rom) {
        Cartridge::Mbc2(m) => {
            assert_eq!(m.rom.len(), 4);
            assert_eq!(m.rom_bank_num, 1);
            assert_eq!(m.ram_bank_num, 0);
            assert!(!m.ram_enable);
            assert!(!m.bank_mode);
            assert!(m.ram.iter().all(|b| *b == 0));
        }
        _ => panic!("header type 0x05 builds an MBC2 controller"),
    }
}
