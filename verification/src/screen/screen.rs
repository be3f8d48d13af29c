use vstd::prelude::*;

use crate::interrupt::Interrupt;
use crate::memory::memory_wrapper::AsMemory;
use crate::screen::oam::OamStruct;
use crate::screen::video_controller::VideoController;
use crate::screen::vram::Vram;

verus! {

/// The two-bit colour number of a pixel before a palette gives it a shade.
#[derive(Clone, Copy, PartialEq, Eq, Structural, Hash, Debug)]
pub enum ColorID {
    Unset,
    Zero,
    One,
    Two,
    Three,
}

/// The colour number `n` (0..=3) as a `ColorID`.
pub open spec fn color_id(n: int) -> ColorID {
    if n == 0 {
        ColorID::Zero
    } else if n == 1 {
        ColorID::One
    } else if n == 2 {
        ColorID::Two
    } else {
        ColorID::Three
    }
}

} // verus!

verus! {

/// `val & (1 << n) != 0`: bit `n` of `val` is set.
pub open spec fn bit_set(val: u8, n: u8) -> bool {
    (val & (1u8 << n)) != 0
}

/// Whether bit `n` (0..8) of `val` is set.
pub fn bit(val: u8, n: u8) -> (r: bool)
    requires
        n < 8,
    ensures
        r == bit_set(val, n),
{
    (val & (1u8 << n)) != 0
}

/// The shades of the screen.
#[derive(Clone, Copy, PartialEq, Eq, Structural, Hash, Debug)]
pub enum GBColor {
    White,
    LightGrey,
    DarkGrey,
    Black,
    Transparent,
    Baka,
}

/// The shade that a two-bit palette entry names.
pub open spec fn shade_of(id: u8) -> GBColor {
    if id == 0 {
        GBColor::White
    } else if id == 1 {
        GBColor::LightGrey
    } else if id == 2 {
        GBColor::DarkGrey
    } else if id == 3 {
        GBColor::Black
    } else {
        GBColor::Baka
    }
}

/// The shade that the background palette `bgp` gives colour `c`: colour
/// number `k` takes bits `2k` and `2k + 1` of `bgp`.
pub open spec fn palette_shade(bgp: u8, c: ColorID) -> GBColor {
    match c {
        ColorID::Unset => GBColor::Baka,
        ColorID::Zero => shade_of(bgp % 4),
        ColorID::One => shade_of((bgp >> 2u8) % 4),
        ColorID::Two => shade_of((bgp >> 4u8) % 4),
        ColorID::Three => shade_of((bgp >> 6u8) % 4),
    }
}

fn bg_mapping(id: u8) -> (r: GBColor)
    ensures
        r == shade_of(id),
{
    match id {
        0 => GBColor::White,
        1 => GBColor::LightGrey,
        2 => GBColor::DarkGrey,
        3 => GBColor::Black,
        _ => GBColor::Baka,
    }
}

fn palette_mapping(bgp: u8, id: ColorID) -> (r: GBColor)
    ensures
        r == palette_shade(bgp, id),
{
    match id {
        ColorID::Unset => GBColor::Baka,
        ColorID::Zero => bg_mapping(bgp % 4),
        ColorID::One => bg_mapping((bgp >> 2u8) % 4),
        ColorID::Two => bg_mapping((bgp >> 4u8) % 4),
        ColorID::Three => bg_mapping((bgp >> 6u8) % 4),
    }
}

} // verus!

verus! {

/// The picture processing unit: video memory, object memory, the LCD
/// registers and the two 160 x 144 screens (the one being drawn and the one
/// on display).
pub struct Screen {
    pub virtual_unrendered_screen: [[GBColor; 160]; 144],
    pub virtual_rendered_screen: [[GBColor; 160]; 144],
    pub vram: Vram,
    pub oam: OamStruct,
    pub dots: u16,
    pub objs: ([Option<u8>; 10], u8),
    pub vc: VideoController,
}

/// The dot after `dots` within a line of 456 dots.
pub open spec fn next_dot(dots: u16) -> u16 {
    (dots.wrapping_add(1) % 456) as u16
}

impl Screen {
    /// The LCD is switched on (bit 7 of LCDC).
    pub open spec fn lcd_on(&self) -> bool {
        bit_set(self.vc.lcdc, 7)
    }

    /// The PPU is in mode 3 (drawing): STAT mode bits equal 3.
    pub open spec fn drawing(&self) -> bool {
        self.vc.stat % 4 == 3
    }

    /// The window covers line `ly`: it is enabled (LCDC bit 5) and WY >= ly.
    pub open spec fn window_on(&self, ly: u8) -> bool {
        bit_set(self.vc.lcdc, 5) && self.vc.wy >= ly
    }

    /// Pixel `i` of line `ly` as `fetch_line` draws it: the window from
    /// column WX - 7 on where the window covers the line, the scrolled
    /// background elsewhere, each shaded by BGP.
    pub open spec fn line_pixel(&self, ly: u8, i: int) -> GBColor {
        let vc = self.vc;
        if self.window_on(ly) && i >= vc.wx - 7 {
            palette_shade(
                vc.bgp,
                self.vram.background_pixel(bit_set(vc.lcdc, 6), bit_set(vc.lcdc, 4), ly.wrapping_sub(vc.wy), (i - (vc.wx - 7)) as u8),
            )
        } else {
            palette_shade(
                vc.bgp,
                self.vram.background_pixel(bit_set(vc.lcdc, 3), bit_set(vc.lcdc, 4), ly.wrapping_add(vc.scy), ((vc.scx + i) % 256) as u8),
            )
        }
    }

    /// `fetch_line` is defined for line `ly`: where the window covers the
    /// line, WX is at least 7.
    pub open spec fn line_ok(&self, ly: u8) -> bool {
        self.window_on(ly) ==> self.vc.wx >= 7
    }

    /// The line that the next dot moves to.
    pub open spec fn next_ly(&self) -> u8 {
        if next_dot(self.dots) == 0 {
            (self.vc.ly.wrapping_add(1) % 154) as u8
        } else {
            self.vc.ly
        }
    }

    /// STAT after the line change of the next dot.
    pub open spec fn stat_line(&self) -> u8 {
        let ly = self.next_ly();
        if next_dot(self.dots) == 0 {
            let s = if ly < 144 {
                (self.vc.stat & 0xFE) | 0x02
            } else if ly == 144 {
                self.vc.stat | 0x01
            } else {
                self.vc.stat
            };
            if self.vc.lyc == ly {
                s | 0x04
            } else {
                s
            }
        } else {
            self.vc.stat
        }
    }

    /// STAT after the next dot.
    pub open spec fn next_stat(&self) -> u8 {
        let d = next_dot(self.dots);
        let s = if d == 80 {
            self.stat_line() | 0x01
        } else {
            self.stat_line()
        };
        if d == 172 && self.next_ly() < 144 {
            s & 0xFC
        } else {
            s
        }
    }

    /// The first interrupt that the next dot raises: VBlank on entering line 144.
    pub open spec fn next_vblank(&self) -> Option<Interrupt> {
        if self.lcd_on() && next_dot(self.dots) == 0 && self.next_ly() == 144 {
            Some(Interrupt::VBlank)
        } else {
            None
        }
    }

    /// The second interrupt that the next dot raises: the LCD status
    /// interrupt, on entering mode 2 (STAT bit 5), mode 1 (bit 4), LY = LYC
    /// (bit 6) or mode 0 (bit 3).
    pub open spec fn next_lcdc(&self) -> Option<Interrupt> {
        let d = next_dot(self.dots);
        let ly = self.next_ly();
        let s1 = if d == 0 && ly < 144 {
            (self.vc.stat & 0xFE) | 0x02
        } else if d == 0 && ly == 144 {
            self.vc.stat | 0x01
        } else {
            self.vc.stat
        };
        if self.lcd_on() && (
            (d == 0 && ly < 144 && s1 & 0x20 != 0)
            || (d == 0 && ly == 144 && s1 & 0x10 != 0)
            || (d == 0 && self.vc.lyc == ly && self.stat_line() & 0x40 != 0)
            || (d == 172 && ly < 144 && self.next_stat() & 0x08 != 0)
        ) {
            Some(Interrupt::LCDC)
        } else {
            None
        }
    }

    /// `on_clock` is defined: when the next dot starts a visible line, the
    /// line can be fetched.
    pub open spec fn clock_ok(&self) -> bool {
        (self.lcd_on() && next_dot(self.dots) == 0 && self.next_ly() < 144) ==> self.line_ok(self.next_ly())
    }

    /// `new` is the state after one dot of `self`.
    pub open spec fn clocked(self, new: Screen) -> bool {
        if !self.lcd_on() {
            new == self
        } else {
            let d = next_dot(self.dots);
            let ly = self.next_ly();
            let fetched = d == 0 && ly < 144;
            let shown = d == 172 && ly < 144;
            &&& new.dots == d
            &&& new.vc == (VideoController { ly: ly, stat: self.next_stat(), ..self.vc })
            &&& new.vram == self.vram
            &&& new.oam == self.oam
            &&& new.objs == self.objs
            &&& forall|row: int, col: int| 0 <= row < 144 && 0 <= col < 160 ==>
                #[trigger] new.virtual_unrendered_screen[row][col] == if fetched && row == ly {
                    self.line_pixel(ly, col)
                } else {
                    self.virtual_unrendered_screen[row][col]
                }
            &&& forall|row: int, col: int| 0 <= row < 144 && 0 <= col < 160 ==>
                #[trigger] new.virtual_rendered_screen[row][col] == if shown && row == ly {
                    self.virtual_unrendered_screen[row][col]
                } else {
                    self.virtual_rendered_screen[row][col]
                }
        }
    }
}

} // verus!

verus! {

impl Screen {
    /// The screen at power-on: no dots counted, every LCD register zero but
    /// STAT (mode 2), a transparent line buffer, a white frame, zeroed video
    /// and object memory and no objects chosen for the line.
    pub open spec fn at_power_on(&self) -> bool {
        &&& self.dots == 0
        &&& self.vc == (VideoController { bgp: 0, dma: 0, lcdc: 0, ly: 0, lyc: 0, obp0: 0, obp1: 0, scx: 0, scy: 0, wx: 0, wy: 0, stat: 0x02 })
        &&& forall|row: int, col: int| 0 <= row < 144 && 0 <= col < 160 ==> #[trigger] self.virtual_unrendered_screen[row][col] == GBColor::Transparent
        &&& forall|row: int, col: int| 0 <= row < 144 && 0 <= col < 160 ==> #[trigger] self.virtual_rendered_screen[row][col] == GBColor::White
        &&& forall|a: int| 0 <= a < 0x2000 ==> #[trigger] self.vram.byte(a) == 0
        &&& forall|i: int| 0 <= i < 40 ==> #[trigger] self.oam.oam_list[i] == (crate::screen::oam::Oam { ypos: 0, xpos: 0, tile_index: 0, attributes: 0 })
        &&& forall|i: int| 0 <= i < 10 ==> #[trigger] self.objs.0[i] is None
        &&& self.objs.1 == 0
    }

    pub fn new() -> (r: Screen)
        ensures
            r.at_power_on(),
    {
        Screen {
            virtual_unrendered_screen: [[GBColor::Transparent; 160]; 144],
            virtual_rendered_screen: [[GBColor::White; 160]; 144],
            vram: Vram::new(),
            oam: OamStruct::new(),
            dots: 0,  //0..456
            vc: VideoController {
                bgp: 0,
                dma: 0,
                lcdc: 0,
                ly: 0,
                lyc: 0,
                obp0: 0,
                obp1: 0,
                scx: 0,
                scy: 0,
                wx: 0,
                wy: 0,
                stat: 0x02,
            },
            objs: ([None; 10], 0),
        }
    }

    /// Draws line LY: the background at (SCX, LY + SCY), with the window
    /// over it from column WX - 7 where the window covers the line.
    #[verifier::rlimit(60)]
    pub fn fetch_line(&mut self) -> (r: [GBColor; 160])
        requires
            old(self).line_ok(old(self).vc.ly),
        ensures
            *final(self) == *old(self),
            forall|i: int| 0 <= i < 160 ==> #[trigger] r[i] == old(self).line_pixel(old(self).vc.ly, i),
    {
        let bgp = self.vc.bgp;
        let bg = self.vram.fetch_line(bit(self.vc.lcdc, 3), bit(self.vc.lcdc, 4), self.vc.ly.wrapping_add(self.vc.scy), self.vc.scx);
        let mut background = [GBColor::Transparent; 160];
        for i in 0..160usize
            invariant
                bgp == self.vc.bgp,
                forall|k: int| 0 <= k < 160 ==> #[trigger] bg[k] == self.vram.background_pixel(bit_set(self.vc.lcdc, 3), bit_set(self.vc.lcdc, 4), self.vc.ly.wrapping_add(self.vc.scy), ((self.vc.scx + k) % 256) as u8),
                forall|k: int| 0 <= k < i ==> #[trigger] background[k] == palette_shade(bgp, bg[k]),
        {
            background[i] = palette_mapping(bgp, bg[i]);
        }
        if bit(self.vc.lcdc, 5) && self.vc.wy >= self.vc.ly {
            let window = self.vram.fetch_line(bit(self.vc.lcdc, 6), bit(self.vc.lcdc, 4), self.vc.ly.wrapping_sub(self.vc.wy), 0);
            let start: usize = (self.vc.wx - 7) as usize;
            let ghost before = background;
            let mut i: usize = start;
            while i < 160
                invariant
                    start == self.vc.wx - 7,
                    start <= i,
                    bgp == self.vc.bgp,
                    forall|k: int| 0 <= k < 160 ==> #[trigger] window[k] == self.vram.background_pixel(bit_set(self.vc.lcdc, 6), bit_set(self.vc.lcdc, 4), self.vc.ly.wrapping_sub(self.vc.wy), ((0 + k) % 256) as u8),
                    forall|k: int| 0 <= k < 160 ==> #[trigger] background[k] == if start <= k < i {
                        palette_shade(bgp, window[k - start])
                    } else {
                        before[k]
                    },
                decreases 160 - i,
            {
                background[i] = palette_mapping(bgp, window[i - start]);
                i = i + 1;
            }
        }
        proof {
            assert forall|i: int| 0 <= i < 160 implies #[trigger] background[i] == old(self).line_pixel(old(self).vc.ly, i) by {
                if self.window_on(self.vc.ly) && i >= self.vc.wx - 7 {
                    assert(((0 + (i - (self.vc.wx - 7))) % 256) as u8 == (i - (self.vc.wx - 7)) as u8);
                } else {
                }
            }
        }
        background
    }
}

} // verus!

verus! {

impl Screen {
    /// Whether `on_clock` is defined in this state (see `clock_ok`).
    pub fn can_clock(&self) -> (r: bool)
        ensures
            r == self.clock_ok(),
    {
        let d: u16 = self.dots.wrapping_add(1) % 456;
        let ly: u8 = if d == 0 { self.vc.ly.wrapping_add(1) % 154 } else { self.vc.ly };
        !(bit(self.vc.lcdc, 7) && d == 0 && ly < 144) || !(bit(self.vc.lcdc, 5) && self.vc.wy >= ly) || self.vc.wx >= 7
    }

    /// Advances the PPU by one dot (when the LCD is on). A line has 456
    /// dots; on entering a line below 144 the line is fetched into the
    /// screen being drawn (mode 2), at dot 80 the PPU enters mode 3, at dot
    /// 172 the line is shown (mode 0); line 144 starts VBlank (mode 1), and
    /// LY runs modulo 154. Returns the VBlank and the LCD status interrupts
    /// that the dot raises.
    #[verifier::rlimit(80)]
    pub fn on_clock(&mut self) -> (r: (Option<Interrupt>, Option<Interrupt>))
        requires
            old(self).clock_ok(),
        ensures
            old(self).clocked(*final(self)),
            r == (old(self).next_vblank(), old(self).next_lcdc()),
    {
        if !bit(self.vc.lcdc, 7) {
            return (None, None);
        }
        let ghost s0 = *self;
        let mut ret: (Option<Interrupt>, Option<Interrupt>) = (None, None);
        self.dots = self.dots.wrapping_add(1) % 456;
        if self.dots == 0 {
            self.vc.ly = self.vc.ly.wrapping_add(1) % 154;
            if self.vc.ly < 144 {
                self.vc.stat = (self.vc.stat & 0xFE) | 0x02;  //Move to 2
                if (self.vc.stat & 0x20) != 0 {
                    ret.1 = Some(Interrupt::LCDC);
                }
                //Fetch Line
                let ly = self.vc.ly as usize;
                let line = self.fetch_line();
                self.virtual_unrendered_screen[ly] = line;
            } else if self.vc.ly == 144 {
                self.vc.stat = self.vc.stat | 0x01;  //Move from 0 to 1
                ret.0 = Some(Interrupt::VBlank);
                if self.vc.stat & 0x10 != 0 {
                    ret.1 = Some(Interrupt::LCDC);  //Vblank stat
                }
            }
            if self.vc.lyc == self.vc.ly {
                self.vc.stat = self.vc.stat | 0x04;
                if self.vc.stat & 0x40 != 0 {
                    ret.1 = Some(Interrupt::LCDC);  // LYC=LY coincidence
                }
            }
        }
        if self.dots == 80 {  //Move from 2 to 3
            self.vc.stat = self.vc.stat | 0x01;
        }
        if self.dots == 172 && self.vc.ly < 144 {  //Move from 3 to 0
            self.vc.stat = self.vc.stat & 0xFC;
            let ly = self.vc.ly as usize;
            let row = self.virtual_unrendered_screen[ly];
            self.virtual_rendered_screen[ly] = row;
            //TRIGGER HBLANK
            if self.vc.stat & 0x08 != 0 {
                ret.1 = Some(Interrupt::LCDC);
            }
        }
        ret
    }

    /// The screen on display.
    pub fn get_screen(&self) -> (r: [[GBColor; 160]; 144])
        ensures
            r == self.virtual_rendered_screen,
    {
        self.virtual_rendered_screen
    }

    /// Reads video memory at offset `addr`; the CPU cannot see it (0xFF)
    /// while the LCD is on in mode 3.
    pub fn read_vram(&mut self, addr: usize) -> (r: u8)
        requires
            addr < 0x2000,
        ensures
            r == if !old(self).drawing() || !old(self).lcd_on() { old(self).vram.byte(addr as int) } else { 0xff },
            *final(self) == *old(self),
    {
        if self.vc.stat % 4 != 3 || !bit(self.vc.lcdc, 7) {
            return self.vram.memory_map(addr);
        }
        0xff
    }

    /// Reads object memory at offset `addr`; the CPU cannot see it (0xFF)
    /// while the LCD is on in mode 3.
    pub fn read_oam(&mut self, addr: usize) -> (r: u8)
        requires
            addr < 160,
        ensures
            r == if old(self).vc.stat % 4 < 3 || !old(self).lcd_on() { old(self).oam.byte(addr as int) } else { 0xff },
            *final(self) == *old(self),
    {
        if self.vc.stat % 4 < 3 || !bit(self.vc.lcdc, 7) {
            return self.oam.memory_map(addr);
        }
        0xff
    }

    /// The write that the CPU makes at offset `addr` of the object memory
    /// range: it lands in video memory at the same offset, unless the LCD
    /// is on in mode 3.
    pub fn write_oam(&mut self, addr: usize, value: u8)
        requires
            addr < 0x2000,
        ensures
            *final(self) == if !old(self).drawing() || !old(self).lcd_on() {
                Screen { vram: old(self).vram.with_byte(addr as int, value), ..*old(self) }
            } else {
                *old(self)
            },
    {
        if self.vc.stat % 4 != 3 || !bit(self.vc.lcdc, 7) {
            self.vram.memory_write(addr, value)
        }
    }

    /// `write_vram(addr, _)` is defined: the write reaches object memory
    /// (outside mode 3, or with the LCD off), whose offsets end at 160.
    pub open spec fn vram_write_ok(&self, addr: usize) -> bool {
        (self.vc.stat % 4 < 3 || !self.lcd_on()) ==> addr < 160
    }

    /// The write that the CPU makes at offset `addr` of the video memory
    /// range: it lands in object memory at the same offset, in modes 0 to 2
    /// or with the LCD off.
    pub fn write_vram(&mut self, addr: usize, value: u8)
        requires
            old(self).vram_write_ok(addr),
        ensures
            *final(self) == if old(self).vc.stat % 4 < 3 || !old(self).lcd_on() {
                Screen { oam: old(self).oam.with_byte(addr as int, value), ..*old(self) }
            } else {
                *old(self)
            },
    {
        if self.vc.stat % 4 < 3 || !bit(self.vc.lcdc, 7) {
            self.oam.memory_write(addr, value)
        }
    }
}

} // verus!
