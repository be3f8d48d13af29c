use vstd::prelude::*;

use crate::interrupt::Interrupt;
use crate::memory::memory_wrapper::AsMemory;
use crate::screen::oam::{Oam, OamStruct};
use crate::screen::pixelqueue::FIFOPixel;
use crate::screen::screen::GBColor;
use crate::screen::video_controller::VideoController;
use crate::screen::vram::{bit_at, pair_at, Block, Vram};

verus! {

broadcast use vstd::array::group_array_axioms;

/// A colour number of a layer pixel before a palette gives it a shade;
/// `Unset` where nothing was drawn.
#[derive(Copy, Clone, PartialEq, Eq, Structural, Hash, Debug)]
pub enum PaletteColor {
    Unset,
    Zero,
    One,
    Two,
    Three,
}

/// The colour number `n` (0..=3) as a `PaletteColor`.
pub open spec fn palette_color(n: int) -> PaletteColor {
    if n == 0 {
        PaletteColor::Zero
    } else if n == 1 {
        PaletteColor::One
    } else if n == 2 {
        PaletteColor::Two
    } else {
        PaletteColor::Three
    }
}

/// The layers drawn before the screen is composed: the 256 x 256
/// background and window, and the objects of the visible area.
pub struct PreRenderedScreen {
    pub background: [[PaletteColor; 256]; 256],
    pub window: [[PaletteColor; 256]; 256],
    pub objects: [[PaletteColor; 160]; 144],
}

/// A picture processing unit that draws whole layers at the start of mode
/// 3 and counts dots, lines and modes in its own LCD registers.
pub struct Ppu {
    pub virtual_screen_layers: PreRenderedScreen,
    pub virtual_unrendered_screen: [[GBColor; 160]; 144],
    pub virtual_rendered_screen: [[GBColor; 160]; 144],
    pub vram: Vram,
    pub oam: OamStruct,
    pub dots: u16,
    pub mode_3_penalty: u16,
    pub background_fifo: [Option<FIFOPixel>; 16],
    pub obj_fifo: [Option<FIFOPixel>; 16],
    pub video_controller: VideoController,
}

/// The LCD registers at the end of a line: LY steps (and wraps to 0 after
/// line 153); STAT bit 2 tracks LY = LYC; the mode bits gain 2 on a visible
/// line, 1 on entering line 144 and 1 on wrapping.
pub open spec fn line_end_vc(vc: VideoController) -> VideoController {
    let ly1 = vc.ly.wrapping_add(1);
    let s1 = if ly1 == vc.lyc { vc.stat | 0x04 } else { vc.stat & 0xFB };
    let s2 = if ly1 < 144 { s1.wrapping_add(2) } else { s1 };
    let s3 = if ly1 == 144 { s2.wrapping_add(1) } else { s2 };
    if ly1 > 153 {
        VideoController { ly: 0, stat: s3.wrapping_add(1), ..vc }
    } else {
        VideoController { ly: ly1, stat: s3, ..vc }
    }
}

/// The end of a line raises the LCD status interrupt: on LY = LYC with
/// STAT bit 6, on a visible line with STAT bit 5, or on wrapping to line 0
/// with STAT bit 5.
pub open spec fn line_end_lcdc(vc: VideoController) -> bool {
    let ly1 = vc.ly.wrapping_add(1);
    let s1 = if ly1 == vc.lyc { vc.stat | 0x04 } else { vc.stat & 0xFB };
    let s2 = if ly1 < 144 { s1.wrapping_add(2) } else { s1 };
    let s3 = if ly1 == 144 { s2.wrapping_add(1) } else { s2 };
    ||| (ly1 == vc.lyc && s1 & 0x40 > 0)
    ||| (ly1 < 144 && s2 & 0x20 > 0)
    ||| (ly1 > 153 && s3.wrapping_add(1) & 0x20 > 0)
}

impl Ppu {
    /// Pixel (`py`, `px`) of a 256 x 256 layer drawn from a tile map (the
    /// second one when `high_map`), with tile data chosen by LCDC bit 4:
    /// every pixel of a tile row takes the colour number of the row's
    /// rightmost pixel.
    pub open spec fn layer_pixel(&self, lcdc: u8, high_map: bool, py: int, px: int) -> PaletteColor {
        let map = if high_map { self.vram.tmap2 } else { self.vram.tmap1 };
        let vobj = self.vram.tile_data(lcdc & 0x10 > 0, map.tiles[(py / 8) * 32 + px / 8]);
        palette_color(bit_at(vobj[2 * (py % 8)], 0) + 2 * bit_at(vobj[2 * (py % 8) + 1], 0))
    }

    /// `layer` is the layer drawn from the tile map (see `layer_pixel`).
    pub open spec fn is_layer(&self, layer: [[PaletteColor; 256]; 256], lcdc: u8, high_map: bool) -> bool {
        forall|py: int, px: int| 0 <= py < 256 && 0 <= px < 256 ==> #[trigger] layer[py][px] == self.layer_pixel(lcdc, high_map, py, px)
    }

    /// `new` is this unit after the layers of mode 3 are drawn: when LCDC
    /// bit 0 is set, the background from the map chosen by LCDC bit 4 and,
    /// when LCDC >> 1 is 1, the window from the map chosen by LCDC bit 6.
    pub open spec fn mode3_drawn(self, new: Ppu) -> bool {
        let lcdc = self.video_controller.lcdc;
        if lcdc % 2 == 1 {
            &&& self.is_layer(new.virtual_screen_layers.background, lcdc, lcdc & 0x10 > 0)
            &&& if lcdc >> (5u8 % 2) == 1 {
                self.is_layer(new.virtual_screen_layers.window, lcdc, lcdc & 0x40 > 0)
            } else {
                new.virtual_screen_layers.window == self.virtual_screen_layers.window
            }
            &&& new.virtual_screen_layers.objects == self.virtual_screen_layers.objects
            &&& new == Ppu { virtual_screen_layers: new.virtual_screen_layers, ..self }
        } else {
            new == self
        }
    }

    /// A unit with the given registers: blank screens and layers, empty
    /// video and object memory, no dots counted.
    pub fn new(vc: VideoController) -> (r: Self)
        ensures
            r.video_controller == vc,
            r.dots == 0 && r.mode_3_penalty == 0,
            forall|i: int, j: int| 0 <= i < 144 && 0 <= j < 160 ==> #[trigger] r.virtual_unrendered_screen[i][j] == GBColor::Transparent,
            forall|i: int, j: int| 0 <= i < 144 && 0 <= j < 160 ==> #[trigger] r.virtual_rendered_screen[i][j] == GBColor::Transparent,
            forall|a: int| 0 <= a < 0x2000 ==> #[trigger] r.vram.byte(a) == 0,
            forall|a: int| 0 <= a < 160 ==> #[trigger] r.oam.byte(a) == 0,
            forall|i: int| 0 <= i < 16 ==> #[trigger] r.background_fifo[i] is None && r.obj_fifo[i] is None,
            forall|py: int, px: int| 0 <= py < 256 && 0 <= px < 256 ==> #[trigger] r.virtual_screen_layers.background[py][px] == PaletteColor::Unset,
            forall|py: int, px: int| 0 <= py < 256 && 0 <= px < 256 ==> #[trigger] r.virtual_screen_layers.window[py][px] == PaletteColor::Unset,
            forall|row: int, col: int| 0 <= row < 144 && 0 <= col < 160 ==> #[trigger] r.virtual_screen_layers.objects[row][col] == PaletteColor::Unset,
    {
        return Self {
            virtual_unrendered_screen: [[GBColor::Transparent; 160]; 144],
            virtual_rendered_screen: [[GBColor::Transparent; 160]; 144],
            virtual_screen_layers: PreRenderedScreen {
                background: [[PaletteColor::Unset; 256]; 256],
                window: [[PaletteColor::Unset; 256]; 256],
                objects: [[PaletteColor::Unset; 160]; 144],
            },
            vram: Vram::new(),
            oam: OamStruct::new(),
            dots: 0,  //0..456
            video_controller: vc,
            mode_3_penalty: 0,
            background_fifo: [None; 16],
            obj_fifo: [None; 16],
        };
    }

    /// The last completed frame.
    pub fn get_screen(&self) -> (r: [[GBColor; 160]; 144])
        ensures
            r == self.virtual_rendered_screen,
    {
        return self.virtual_rendered_screen;
    }

    pub fn hblank(&mut self)
        ensures
            *final(self) == *old(self),
    {
    }

    pub fn vblank(&mut self)
        ensures
            *final(self) == *old(self),
    {
    }

    /// Draws the layers of mode 3 (see `mode3_drawn`).
    pub fn init_mode_3(&mut self)
        ensures
            old(self).mode3_drawn(*final(self)),
    {
        let vc = self.video_controller;
        let window_enabled = vc.lcdc >> (5u8 % 2) == 1;
        if vc.lcdc % 2 == 1 {
            self.generate_background();
            if window_enabled {
                self.generate_window();
            }
        }
    }

    /// Looks for the (at most ten) objects on the current line; the search
    /// changes nothing.
    pub fn oam_scan(&mut self)
        ensures
            *final(self) == *old(self),
    {
        let vc = self.video_controller;
        if (vc.lcdc >> 1u8) % 2 == 1 {
            let mut objects: [Option<Oam>; 10] = [None; 10];
            let mut count: usize = 0;
            let big = (vc.lcdc >> 2u8) % 2 == 1;
            let height: u8 = if big { 16 } else { 8 };
            let mut i: usize = 0;
            while i < 40
                invariant
                    count <= 10,
                decreases 40 - i,
            {
                let oam = self.oam.oam_list[i];
                if count == 10 {
                    break ;
                }
                if oam.ypos <= vc.ly && vc.ly < oam.ypos.wrapping_add(height) {
                    objects[count] = Some(oam);
                    count = count + 1;
                }
                i = i + 1;
            }
        }
    }

    fn draw_pixel(&mut self)
        ensures
            *final(self) == *old(self),
    {
    }

    /// One dot: the dot count steps; at dot 80 of a visible line the mode
    /// goes from 2 to 3 and the layers are drawn; past dot 456 the line
    /// ends (see `line_end_vc`), and entering line 144 publishes the frame,
    /// clears the frame being drawn and raises VBlank. Returns the LCD
    /// status interrupt and the VBlank interrupt raised.
    pub fn on_ppu(&mut self) -> (r: (Option<Interrupt>, Option<Interrupt>))
        ensures
            ({
                let d = old(self).dots.wrapping_add(1);
                let vc = old(self).video_controller;
                if d == 80 && vc.ly < 144 {
                    &&& (Ppu { video_controller: VideoController { stat: vc.stat.wrapping_add(1), ..vc }, dots: d, ..*old(self) }).mode3_drawn(
                        *final(self),
                    )
                    &&& r == (None::<Interrupt>, None::<Interrupt>)
                } else if d > 456 {
                    let vblank = vc.ly.wrapping_add(1) == 144;
                    &&& final(self).dots == 0
                    &&& final(self).video_controller == line_end_vc(vc)
                    &&& final(self).virtual_screen_layers == old(self).virtual_screen_layers
                    &&& final(self).vram == old(self).vram
                    &&& final(self).oam == old(self).oam
                    &&& final(self).mode_3_penalty == old(self).mode_3_penalty
                    &&& final(self).background_fifo == old(self).background_fifo
                    &&& final(self).obj_fifo == old(self).obj_fifo
                    &&& if vblank {
                        &&& final(self).virtual_rendered_screen == old(self).virtual_unrendered_screen
                        &&& forall|i: int, j: int| 0 <= i < 144 && 0 <= j < 160 ==> #[trigger] final(self).virtual_unrendered_screen[i][j]
                            == GBColor::Transparent
                    } else {
                        &&& final(self).virtual_rendered_screen == old(self).virtual_rendered_screen
                        &&& final(self).virtual_unrendered_screen == old(self).virtual_unrendered_screen
                    }
                    &&& r.0 == if line_end_lcdc(vc) { Some(Interrupt::LCDC) } else { None }
                    &&& r.1 == if vblank { Some(Interrupt::VBlank) } else { None }
                } else {
                    &&& *final(self) == Ppu { dots: d, ..*old(self) }
                    &&& r == (None::<Interrupt>, None::<Interrupt>)
                }
            }),
    {
        let mut interrupt: (Option<Interrupt>, Option<Interrupt>) = (None, None);
        let mut run_mode_2: bool = false;
        let mut run_mode_3: bool = false;
        let ly: u8 = self.video_controller.ly;
        self.dots = self.dots.wrapping_add(1);  //Increase the dot
        if self.dots == 79 && ly < 144 {
            run_mode_2 = true
        }
        if self.dots == 80 && ly < 144 {
            self.video_controller.stat = self.video_controller.stat.wrapping_add(1);  //2->3
            run_mode_3 = true
        }
        if run_mode_2 {
            self.oam_scan();
        }
        if run_mode_3 {
            self.init_mode_3();
        }
        if self.dots > 456 {
            //On row adjustment
            let ghost vc0 = self.video_controller;
            self.dots = 0;
            self.video_controller.ly = self.video_controller.ly.wrapping_add(1);
            if self.video_controller.ly == self.video_controller.lyc {
                //Manage LCY
                self.video_controller.stat = self.video_controller.stat | 0x04;  //Set bit 2 to true
                if self.video_controller.stat & 0x40 > 0 {
                    interrupt.0 = Some(Interrupt::LCDC)
                }
            } else {
                self.video_controller.stat = self.video_controller.stat & 0xFB
            }
            if self.video_controller.ly < 144 {
                //We go from 0->2
                self.video_controller.stat = self.video_controller.stat.wrapping_add(2);
                if self.video_controller.stat & 0x20 > 0 {
                    interrupt.0 = Some(Interrupt::LCDC)
                }
            }
            if self.video_controller.ly == 144 {
                //We're in 0->1
                self.video_controller.stat = self.video_controller.stat.wrapping_add(1);
                self.virtual_rendered_screen = self.virtual_unrendered_screen;
                self.virtual_unrendered_screen = [[GBColor::Transparent; 160]; 144];  //Reset the internal screen
                interrupt.1 = Some(Interrupt::VBlank)
            }
            if self.video_controller.ly > 153 {
                //1->2
                self.video_controller.ly = 0;
                self.video_controller.stat = self.video_controller.stat.wrapping_add(1);
                if self.video_controller.stat & 0x20 > 0 {
                    interrupt.0 = Some(Interrupt::LCDC)
                }
            }
            assert(self.video_controller == line_end_vc(vc0));
        }
        if self.mode() == 3 {
            self.draw_pixel();
        }
        return interrupt;
    }

    /// A tile row of eight colour numbers from an interleaved row word:
    /// every pixel takes the two lowest bits of the word.
    fn pre_bg_palette(color: u16) -> (r: [PaletteColor; 8])
        ensures
            forall|k: int| 0 <= k < 8 ==> #[trigger] r[k] == palette_color(pair_at(color, 0)),
    {
        let mut ret = [PaletteColor::Unset; 8];
        let mut loc_color = color;
        assert(color & 0x03 == (color >> 0u16) & 3 && color & 0x03 <= 3) by (bit_vector);
        let mut i: usize = 0;
        while i < 8
            invariant
                0 <= i <= 8,
                forall|k: int| 8 - i <= k < 8 ==> #[trigger] ret[k] == palette_color(pair_at(color, 0)),
                color & 0x03 == (color >> 0u16) & 3,
                color & 0x03 <= 3,
            decreases 8 - i,
        {
            let pixel = color & 0x03;
            ret[7 - i] = if pixel == 0 {
                PaletteColor::Zero
            } else if pixel == 1 {
                PaletteColor::One
            } else if pixel == 2 {
                PaletteColor::Two
            } else {
                PaletteColor::Three
            };
            loc_color = loc_color >> 2u16;
            i = i + 1;
        }
        ret
    }

    /// Draws a 256 x 256 layer from a tile map (see `layer_pixel`).
    fn draw_layer(&self, lcdc: u8, high_map: bool) -> (r: [[PaletteColor; 256]; 256])
        ensures
            self.is_layer(r, lcdc, high_map),
    {
        let mut layer = [[PaletteColor::Unset; 256]; 256];
        let mut py: usize = 0;
        while py < 256
            invariant
                0 <= py <= 256,
                forall|i: int, j: int| 0 <= i < py && 0 <= j < 256 ==> #[trigger] layer[i][j] == self.layer_pixel(lcdc, high_map, i, j),
            decreases 256 - py,
        {
            let mut row = [PaletteColor::Unset; 256];
            let mut px: usize = 0;
            while px < 256
                invariant
                    0 <= py < 256,
                    0 <= px <= 256,
                    forall|j: int| 0 <= j < px ==> #[trigger] row[j] == self.layer_pixel(lcdc, high_map, py as int, j),
                decreases 256 - px,
            {
                let n = if high_map {
                    self.vram.tmap2.tiles[(py / 8) * 32 + px / 8]
                } else {
                    self.vram.tmap1.tiles[(py / 8) * 32 + px / 8]
                };
                let vobj = if n <= 0x7f {
                    if lcdc & 0x10 > 0 {
                        self.vram.block0.objects[n as usize]
                    } else {
                        self.vram.block2.objects[n as usize]
                    }
                } else {
                    self.vram.block1.objects[(n - 128) as usize]
                };
                let y_p = py % 8;
                let colors = Ppu::pre_bg_palette(Block::interleave(vobj[2 * y_p], vobj[2 * y_p + 1]));
                row[px] = colors[px % 8];
                px = px + 1;
            }
            layer[py] = row;
            py = py + 1;
        }
        layer
    }

    /// Draws the window layer from the map chosen by LCDC bit 6.
    fn generate_window(&mut self)
        ensures
            old(self).is_layer(final(self).virtual_screen_layers.window, old(self).video_controller.lcdc, old(self).video_controller.lcdc & 0x40 > 0),
            final(self).virtual_screen_layers.background == old(self).virtual_screen_layers.background,
            final(self).virtual_screen_layers.objects == old(self).virtual_screen_layers.objects,
            *final(self) == (Ppu { virtual_screen_layers: final(self).virtual_screen_layers, ..*old(self) }),
    {
        let lcdc: u8 = self.video_controller.lcdc;
        if lcdc >> 7u8 == 0 {
            self.virtual_screen_layers.window = [[PaletteColor::Unset; 256]; 256];
        }
        let layer = self.draw_layer(lcdc, lcdc & 0x40 > 0);
        self.virtual_screen_layers.window = layer;
    }

    /// Draws the background layer from the map chosen by LCDC bit 4.
    fn generate_background(&mut self)
        ensures
            old(self).is_layer(final(self).virtual_screen_layers.background, old(self).video_controller.lcdc, old(self).video_controller.lcdc & 0x10 > 0),
            final(self).virtual_screen_layers.window == old(self).virtual_screen_layers.window,
            final(self).virtual_screen_layers.objects == old(self).virtual_screen_layers.objects,
            *final(self) == (Ppu { virtual_screen_layers: final(self).virtual_screen_layers, ..*old(self) }),
    {
        let lcdc: u8 = self.video_controller.lcdc;
        if lcdc >> 7u8 == 0 {
            self.virtual_screen_layers.background = [[PaletteColor::Unset; 256]; 256];
        }
        let layer = self.draw_layer(lcdc, lcdc & 0x10 > 0);
        self.virtual_screen_layers.background = layer;
    }

    /// The shade of each colour number (0..=3) under the background
    /// palette `bgp`: colour 3 takes bits 6..=7; colours 0, 1 and 2 all take
    /// bits 0..=1 (`bgp & 0x0C >> 2` is `bgp & 3`, `>>` binding first).
    /// The table is indexed by the colour number: four fixed keys need no
    /// hash map, and Verus specifies lookups in a map keyed by an enum of
    /// ours only through `Hash` and `Eq` impls that it does not read.
    fn bg_palette(bgp: u8) -> (r: [GBColor; 4])
        ensures
            r[0] == entry_shade(bgp % 4, GBColor::White),
            r[1] == entry_shade(bgp % 4, GBColor::White),
            r[2] == entry_shade(bgp % 4, GBColor::White),
            r[3] == entry_shade(bgp / 64, GBColor::White),
    {
        proof {
            low_bits(bgp);
        }
        let mut mapping = [GBColor::White; 4];
        mapping[0] = Ppu::color_mapping(bgp & 0x03, GBColor::White);
        mapping[1] = Ppu::color_mapping(bgp & 0x0Cu8 >> 2u8, GBColor::White);
        mapping[2] = Ppu::color_mapping(bgp & 0x30u8 >> 4u8, GBColor::White);
        mapping[3] = Ppu::color_mapping(bgp >> 6u8, GBColor::White);
        return mapping;
    }

    /// As `bg_palette`, with colour number 0 transparent.
    fn obj_palette(bgp: u8) -> (r: [GBColor; 4])
        ensures
            r[0] == entry_shade(bgp % 4, GBColor::Transparent),
            r[1] == entry_shade(bgp % 4, GBColor::Transparent),
            r[2] == entry_shade(bgp % 4, GBColor::Transparent),
            r[3] == entry_shade(bgp / 64, GBColor::Transparent),
    {
        proof {
            low_bits(bgp);
        }
        let mut mapping = [GBColor::Transparent; 4];
        mapping[0] = Ppu::color_mapping(bgp & 0x03, GBColor::Transparent);
        mapping[1] = Ppu::color_mapping(bgp & 0x0Cu8 >> 2u8, GBColor::Transparent);
        mapping[2] = Ppu::color_mapping(bgp & 0x30u8 >> 4u8, GBColor::Transparent);
        mapping[3] = Ppu::color_mapping(bgp >> 6u8, GBColor::Transparent);
        return mapping;
    }

    /// The shade of a two-bit palette entry, with `zero` for entry 0.
    fn color_mapping(x: u8, zero: GBColor) -> (r: GBColor)
        requires
            x <= 3,
        ensures
            r == entry_shade(x, zero),
    {
        if x == 0 {
            zero
        } else if x == 1 {
            GBColor::LightGrey
        } else if x == 2 {
            GBColor::DarkGrey
        } else {
            GBColor::Black
        }
    }

    /// The mode in STAT bits 0..=1.
    fn mode(&mut self) -> (r: u8)
        ensures
            r == old(self).video_controller.stat % 4,
            *final(self) == *old(self),
    {
        self.video_controller.stat % 4
    }

    /// Reads video memory, which is locked (0xFF) in mode 3.
    pub fn read_vram(&mut self, addr: usize) -> (r: u8)
        requires
            addr < 0x2000,
        ensures
            r == if old(self).video_controller.stat % 4 != 3 { old(self).vram.byte(addr as int) } else { 0xFF },
            *final(self) == *old(self),
    {
        if self.mode() != 3 {
            return self.vram.memory_map(addr);
        }
        0xFF
    }

    /// Writes video memory, except in mode 3.
    pub fn write_vram(&mut self, addr: usize, val: u8)
        requires
            addr < 0x2000,
        ensures
            *final(self) == if old(self).video_controller.stat % 4 != 3 {
                Ppu { vram: old(self).vram.with_byte(addr as int, val), ..*old(self) }
            } else {
                *old(self)
            },
    {
        if self.mode() != 3 {
            self.vram.memory_write(addr, val);
        }
    }

    /// Reads object memory, which is readable in modes 0 and 1 only.
    pub fn read_oam(&mut self, addr: usize) -> (r: u8)
        requires
            addr < 160,
        ensures
            r == if old(self).video_controller.stat % 4 <= 1 { old(self).oam.byte(addr as int) } else { 0xFF },
            *final(self) == *old(self),
    {
        if self.mode() <= 1 {
            return self.oam.memory_map(addr);
        }
        0xFF
    }

    /// A write to object memory in modes 0 and 1, which lands in video
    /// memory at the same offset.
    pub fn write_oam(&mut self, addr: usize, val: u8)
        requires
            addr < 160,
        ensures
            *final(self) == if old(self).video_controller.stat % 4 <= 1 {
                Ppu { vram: old(self).vram.with_byte(addr as int, val), ..*old(self) }
            } else {
                *old(self)
            },
    {
        if self.mode() <= 1 {
            self.vram.memory_write(addr, val);
        }
    }
}

/// The shade of a two-bit palette entry, with `zero` for entry 0.
pub open spec fn entry_shade(x: u8, zero: GBColor) -> GBColor {
    if x == 0 {
        zero
    } else if x == 1 {
        GBColor::LightGrey
    } else if x == 2 {
        GBColor::DarkGrey
    } else {
        GBColor::Black
    }
}

/// The palette fields of a byte as the palette code reads them.
proof fn low_bits(bgp: u8)
    ensures
        bgp & 0x03 == bgp % 4,
        bgp & (0x0Cu8 >> 2u8) == bgp % 4,
        bgp & (0x30u8 >> 4u8) == bgp % 4,
        bgp >> 6u8 == bgp / 64,
{
    assert(bgp & 0x03 == bgp % 4 && bgp & (0x0Cu8 >> 2u8) == bgp % 4 && bgp & (0x30u8 >> 4u8) == bgp % 4 && bgp >> 6u8 == bgp / 64)
        by (bit_vector);
}

} // verus!
