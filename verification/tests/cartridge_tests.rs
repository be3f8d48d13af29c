use gameboy::cartridge::mbc::Mbc;
use gameboy::cartridge::mbc1::Mbc1;
use gameboy::cartridge::mbc2::Mbc2;
use gameboy::cartridge::mbc5::Mbc5;
use gameboy::interrupt::Interrupt;
use gameboy::joypad::Joypad;
use gameboy::audio::AudioController;
use gameboy::cartridge::cartridge::Cartridge;
use gameboy::memory::memory_wrapper::{AsMemory, MemWrap};
use gameboy::screen::screen::{ColorID, GBColor, Screen};
use gameboy::screen::vram::Block;

#[test]
fn mbc1_switches_rom_banks() {
    let mut rom = vec![0u8; 4 * 16384];
    rom[0x147] = 0x01;
    rom[0x148] = 0x01;
    rom[0x149] = 0x00;
    rom[2 * 16384] = 0xAB;
    rom[16384] = 0xCD;
    assert!(Cartridge::supported(&rom));
    let mut m = Mbc1::new(rom);
    assert_eq!(m.rom.len(), 4);
    assert_eq!(m.rom_read(0x0147), 0x01);
    m.rom_write(0x2000, 0x02);
    assert_eq!(m.rom_bank_num, 2);
    assert_eq!(m.rom_read(0x4000), 0xAB);
    // bank 0 selects bank 1
    m.rom_write(0x2000, 0x00);
    assert_eq!(m.rom_bank_num, 1);
    assert_eq!(m.rom_read(0x4000), 0xCD);
    // the bank number wraps at the number of banks
    m.rom_write(0x2000, 0x06);
    assert_eq!(m.rom_bank_num, 2);
    m.rom_write(0x6000, 0x01);
    assert!(m.bank_mode);
}

#[test]
fn mbc1_ram_needs_enabling() {
    let mut rom = vec![0u8; 2 * 16384];
    rom[0x147] = 0x03;
    rom[0x148] = 0x00;
    rom[0x149] = 0x02;
    let mut m = Mbc1::new(rom);
    assert_eq!(m.ram_read(0x10), 0xFF);
    m.ram_write(0x10, 0x42);
    m.rom_write(0x0000, 0x0A);
    assert_eq!(m.ram_read(0x10), 0x00);
    m.ram_write(0x10, 0x42);
    assert_eq!(m.ram_read(0x10), 0x42);
}

#[test]
fn mbc2_bank_and_half_byte_ram() {
    let mut rom = vec![0u8; 2 * 16384];
    rom[0x147] = 0x05;
    rom[0x148] = 0x00;
    let mut m = Mbc2::new(rom);
    assert_eq!(m.rom_bank_num, 1);
    m.rom_write(0x0110, 0x05);
    assert_eq!(m.rom_bank_num, 5);
    assert_eq!(m.ram_read(0x00), 0x0F);
    m.rom_write(0x0000, 0x0A);
    assert!(m.ram_enable);
    m.ram_write(0x205, 0xAB);
    assert_eq!(m.ram_read(0x005), 0x0B);
}

#[test]
fn mbc5_bank_registers() {
    let mut rom = vec![0u8; 2 * 16384];
    rom[0x147] = 0x00;
    rom[0x148] = 0x00;
    let mut m = Mbc5::new(rom);
    assert_eq!(m.rom_bank_num, 1);
    m.rom_write(0x2000, 0x05);
    assert_eq!(m.rom_bank_num, 5);
    // the low eight bits are replaced, not added to
    m.rom_write(0x2000, 0x01);
    assert_eq!(m.rom_bank_num, 1);
    m.rom_write(0x3000, 0x01);
    assert_eq!(m.rom_bank_num, 0x101);
    m.rom_write(0x2000, 0x22);
    assert_eq!(m.rom_bank_num, 0x122);
    m.rom_write(0x3000, 0x00);
    assert_eq!(m.rom_bank_num, 0x22);
    m.rom_write(0x4000, 0x07);
    assert_eq!(m.ram_bank_num, 3);
}

#[test]
fn dma_copies_a_page_to_object_memory() {
    let mut rom = vec![0u8; 0x8000];
    rom[0x147] = 0x00;
    let mut m = MemWrap::new(Joypad::new(), AudioController::new(), [0u8; 256], Cartridge::new(rom));
    for i in 0..160u16 {
        m.set_memory_8(0xC100 + i, (i as u8).wrapping_mul(3));
    }
    m.set_memory_8(0xFF46, 0xC1);
    for _ in 0..160 {
        assert!(m.can_clock());
        m.on_clock([false; 8]);
    }
    assert!(!m.dma.active);
    assert_eq!(m.ppu.oam.memory_map(0), 0);
    assert_eq!(m.ppu.oam.memory_map(1), 3);
    assert_eq!(m.ppu.oam.memory_map(159), (159u8).wrapping_mul(3));
}

#[test]
fn joypad_reports_any_difference_from_the_known_states() {
    let mut j = Joypad::new();
    assert_eq!(j.on_clock([false; 8]), None);
    assert_eq!(j.on_clock([true, false, false, false, false, false, false, false]), Some(Interrupt::Input));
    // the known states are not updated, so the same buttons report again
    assert_eq!(j.on_clock([true, false, false, false, false, false, false, false]), Some(Interrupt::Input));
}

#[test]
fn screen_line_is_shaded_by_bgp() {
    let mut s = Screen::new();
    s.vc.lcdc = 0x91;
    s.vc.bgp = 0xE4;
    s.vram.memory_write(0, 0xFF);
    let line = s.fetch_line();
    assert_eq!(line[0], GBColor::LightGrey);
    assert_eq!(line[159], GBColor::LightGrey);
    s.vc.bgp = 0x1B;
    let line = s.fetch_line();
    assert_eq!(line[7], GBColor::DarkGrey);
}

#[test]
fn tile_decoded_upside_down_with_one_and_two_swapped() {
    let mut vobj = [0u8; 16];
    vobj[14] = 0x80;
    let tile = Block::get_tile_backwards(vobj);
    assert_eq!(tile[0][0], ColorID::Two);
    assert_eq!(tile[0][1], ColorID::Zero);
    assert_eq!(tile[7][0], ColorID::Zero);
    let row = Block::color_palette_reverse(0x8000);
    assert_eq!(row[0], ColorID::One);
}

#[test]
fn exrom_bank_count_from_header() {
    let mut rom = vec![0u8; 0x8000];
    rom[0x148] = 0x01;
    let e = gameboy::cartridge::exrom::ExROM::new(rom);
    assert_eq!(e.banks.len(), 4);
    assert_eq!(e.bank_size, 3);
    assert_eq!(e.bank_num, 1);
}
