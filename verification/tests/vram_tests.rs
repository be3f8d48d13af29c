use gameboy::screen::screen::ColorID;
use gameboy::screen::vram::{Block, Vobj};

#[test]
fn test_interleave() {
    let a = 0x3C;
    let b = 0x0;
    println!("{:?}", Block::interleave(a, b));
}

#[test]
fn test_vobj() {
    let vobj: Vobj = [0xF0, 0x00, 0xF0, 0x00, 0xFC, 0x00, 0xFC, 0x00, 0xFC, 0x00, 0xFC, 0x00, 0xF3, 0x00, 0xF3, 0x00];
    let background_palette = |x| match match x {
        ColorID::Zero => 0,
        ColorID::One => 3,
        ColorID::Two => 3,
        ColorID::Three => 3,
        ColorID::Unset => unreachable!(),
    } {
        0 => "W",
        1 => "B",
        2 => "B",
        3 => "B",
        _ => unreachable!(),
    };
    for i in Block::get_tile(vobj) {
        println!("{:?}", i.map(|x| background_palette(x)).join(""));
    }
}

#[test]
fn interleave_spreads_low_plane_to_even_bits() {
    assert_eq!(Block::interleave(0x3C, 0x00), 0x0550);
    assert_eq!(Block::interleave(0x00, 0x3C), 0x0AA0);
    assert_eq!(Block::interleave(0xFF, 0xFF), 0xFFFF);
    assert_eq!(Block::interleave_with_zeros(0x81), 0x4001);
}

#[test]
fn tile_rows_decode_left_to_right() {
    let vobj: Vobj = [0xF0, 0x00, 0xF0, 0x00, 0xFC, 0x00, 0xFC, 0x00, 0xFC, 0x00, 0xFC, 0x00, 0xF3, 0x00, 0xF3, 0x00];
    let tile = Block::get_tile(vobj);
    assert_eq!(tile[0], [ColorID::One, ColorID::One, ColorID::One, ColorID::One, ColorID::Zero, ColorID::Zero, ColorID::Zero, ColorID::Zero]);
    assert_eq!(tile[6], [ColorID::One, ColorID::One, ColorID::One, ColorID::One, ColorID::Zero, ColorID::Zero, ColorID::One, ColorID::One]);
    assert_eq!(tile[7], tile[6]);
    assert_eq!(tile[2], [ColorID::One, ColorID::One, ColorID::One, ColorID::One, ColorID::One, ColorID::One, ColorID::Zero, ColorID::Zero]);
}
