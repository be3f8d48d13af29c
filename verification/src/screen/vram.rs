use vstd::prelude::*;

use crate::memory::memory_wrapper::AsMemory;
use crate::screen::screen::{color_id, ColorID};

verus! {

/// Eight rows of eight decoded pixels.
pub type Tile = [[ColorID; 8]; 8];

/// The sixteen bytes of one tile in the 2bpp format: byte `2r` holds the low
/// bits of row `r`, byte `2r + 1` its high bits.
pub type Vobj = [u8; 16];

/// Bit `i` of `x`, for `0 <= i < 8`.
pub open spec fn bit_at(x: u8, i: int) -> u8 {
    (x >> (i as u8)) & 1
}

/// The colour number (0..=3) of pixel `p` (0 is the leftmost) of a tile row
/// whose low bit-plane is `lo` and whose high bit-plane is `hi`.
pub open spec fn pixel_number(lo: u8, hi: u8, p: int) -> int {
    bit_at(lo, 7 - p) + 2 * bit_at(hi, 7 - p)
}

/// The colour number with 1 and 2 exchanged.
pub open spec fn swap_one_two(n: int) -> int {
    if n == 1 {
        2
    } else if n == 2 {
        1
    } else {
        n
    }
}

/// The two bits of `color` at pair `j` (bits `2j` and `2j + 1`), for `0 <= j < 8`.
pub open spec fn pair_at(color: u16, j: int) -> int {
    ((color >> ((2 * j) as u16)) & 3) as int
}

pub fn empty_tile() -> (r: Tile)
    ensures
        forall|i: int, j: int| 0 <= i < 8 && 0 <= j < 8 ==> r[i][j] == ColorID::Unset,
{
    [[ColorID::Unset;8];8]
}

} // verus!

verus! {

/// A bank of 128 tiles (2 KiB of video memory).
#[derive(Debug)]
pub struct Block {
    pub objects: [Vobj; 128],
}

/// A 32 x 32 map of tile numbers (1 KiB of video memory).
#[derive(Debug)]
pub struct TileMap {
    pub tiles: [u8; 1024],
}

proof fn lemma_spread(a: u8, r: u16)
    requires
        r == ({
            let x = a as u16;
            let x = (x ^ (x << 4u16)) & 0x0f0fu16;
            let x = (x ^ (x << 2u16)) & 0x3333u16;
            (x ^ (x << 1u16)) & 0x5555u16
        }),
    ensures
        forall|j: u16| j < 8 ==> #[trigger] ((r >> (2 * j)) & 1) == (((a as u16) >> j) & 1),
        forall|j: u16| j < 8 ==> #[trigger] ((r >> (2 * j + 1)) & 1) == 0,
        r & 0xAAAA == 0,
{
    assert(forall|j: u16| j < 8 ==> #[trigger] ((r >> (2 * j)) & 1) == (((a as u16) >> j) & 1))
        by (bit_vector)
        requires
            r == ({
                let x = a as u16;
                let x = (x ^ (x << 4u16)) & 0x0f0fu16;
                let x = (x ^ (x << 2u16)) & 0x3333u16;
                (x ^ (x << 1u16)) & 0x5555u16
            }),
    ;
    assert(forall|j: u16| j < 8 ==> #[trigger] ((r >> (2 * j + 1)) & 1) == 0) by (bit_vector)
        requires
            r == ({
                let x = a as u16;
                let x = (x ^ (x << 4u16)) & 0x0f0fu16;
                let x = (x ^ (x << 2u16)) & 0x3333u16;
                (x ^ (x << 1u16)) & 0x5555u16
            }),
    ;
    assert(r & 0xAAAA == 0) by (bit_vector)
        requires
            r == ({
                let x = a as u16;
                let x = (x ^ (x << 4u16)) & 0x0f0fu16;
                let x = (x ^ (x << 2u16)) & 0x3333u16;
                (x ^ (x << 1u16)) & 0x5555u16
            }),
    ;
}

impl Block {
    pub fn new() -> (r: Block)
        ensures
            forall|i: int, j: int| 0 <= i < 128 && 0 <= j < 16 ==> r.objects[i][j] == 0,
    {
        Block { objects: [Self::vobj(); 128] }
    }

    /// An all-zero tile.
    pub fn vobj() -> (r: Vobj)
        ensures
            forall|j: int| 0 <= j < 16 ==> r[j] == 0,
    {
        [0; 16]
    }

    /// Spreads the bits of `a` over the even bits of the result: bit `j` of
    /// `a` becomes bit `2j`, and every odd bit is zero.
    pub fn interleave_with_zeros(a: u8) -> (r: u16)
        ensures
            forall|j: u16| j < 8 ==> #[trigger] ((r >> (2 * j)) & 1) == (((a as u16) >> j) & 1),
            forall|j: u16| j < 8 ==> #[trigger] ((r >> (2 * j + 1)) & 1) == 0,
            r & 0xAAAA == 0,
    {
        let mut ret: u16 = a as u16;
        ret = (ret ^ (ret << 4u16)) & 0x0f0f;
        ret = (ret ^ (ret << 2u16)) & 0x3333;
        let r = (ret ^ (ret << 1u16)) & 0x5555;
        proof {
            lemma_spread(a, r);
        }
        r
    }

    /// Merges two bit-planes: pair `j` of the result holds bit `j` of `a` as
    /// its low bit and bit `j` of `b` as its high bit.
    pub fn interleave(a: u8, b: u8) -> (r: u16)
        ensures
            forall|j: int| 0 <= j < 8 ==> #[trigger] pair_at(r, j) == bit_at(a, j) + 2 * bit_at(b, j),
    {
        let za = Block::interleave_with_zeros(a);
        let zb = Block::interleave_with_zeros(b);
        let r = (zb << 1u16) | za;
        proof {
            assert forall|j: int| 0 <= j < 8 implies #[trigger] pair_at(r, j) == bit_at(a, j) + 2 * bit_at(b, j) by {
                let jj = j as u16;
                let j8 = j as u8;
                assert(((za >> (2 * jj)) & 1) == (((a as u16) >> jj) & 1));
                assert(((zb >> (2 * jj)) & 1) == (((b as u16) >> jj) & 1));
                assert(((za >> (2 * jj + 1)) & 1) == 0);
                assert(((r >> (2 * jj)) & 3) == ((za >> (2 * jj)) & 1) + 2 * ((zb >> (2 * jj)) & 1))
                    by (bit_vector)
                    requires
                        r == (zb << 1u16) | za,
                        jj < 8,
                        za & 0xAAAA == 0,
                        zb & 0xAAAA == 0,
                ;
                assert((((a as u16) >> jj) & 1) == ((a >> j8) & 1) as u16) by (bit_vector)
                    requires jj < 8, j8 == jj as u8;
                assert((((b as u16) >> jj) & 1) == ((b >> j8) & 1) as u16) by (bit_vector)
                    requires jj < 8, j8 == jj as u8;
            }
        }
        r
    }

    /// Decodes a row of eight two-bit colour numbers: pixel `p` (0 is the
    /// leftmost) takes pair `7 - p` of `color`.
    pub fn color_palette(color: u16) -> (r: [ColorID; 8])
        ensures
            forall|p: int| 0 <= p < 8 ==> #[trigger] r[p] == color_id(pair_at(color, 7 - p)),
    {
        let mut ret = [ColorID::Unset; 8];
        let mut loc_color = color;
        assert(color >> 0u16 == color) by (bit_vector);
        for i in 0..8usize
            invariant
                loc_color == color >> ((2 * i) as u16),
                forall|k: int| 0 <= k < i ==> #[trigger] ret[7 - k] == color_id(pair_at(color, k)),
        {
            let v = loc_color & 0x03;
            ret[7 - i] = if v == 0 {
                ColorID::Zero
            } else if v == 1 {
                ColorID::One
            } else if v == 2 {
                ColorID::Two
            } else {
                ColorID::Three
            };
            proof {
                let ii = i as u16;
                assert((loc_color >> 2u16) == color >> (2 * ii + 2)) by (bit_vector)
                    requires loc_color == color >> (2 * ii), ii < 8;
                assert(v as int == pair_at(color, i as int));
            }
            loc_color = loc_color >> 2u16;
        }
        proof {
            assert forall|p: int| 0 <= p < 8 implies #[trigger] ret[p] == color_id(pair_at(color, 7 - p)) by {
                assert(ret[7 - (7 - p)] == color_id(pair_at(color, 7 - p)));
            }
        }
        ret
    }

    /// As `color_palette`, with the colour numbers 1 and 2 exchanged.
    pub fn color_palette_reverse(color: u16) -> (r: [ColorID; 8])
        ensures
            forall|p: int| 0 <= p < 8 ==> #[trigger] r[p] == color_id(swap_one_two(pair_at(color, 7 - p))),
    {
        let mut ret = [ColorID::Unset; 8];
        let mut loc_color = color;
        assert(color >> 0u16 == color) by (bit_vector);
        for i in 0..8usize
            invariant
                loc_color == color >> ((2 * i) as u16),
                forall|k: int| 0 <= k < i ==> #[trigger] ret[7 - k] == color_id(swap_one_two(pair_at(color, k))),
        {
            let v = loc_color & 0x03;
            ret[7 - i] = if v == 0 {
                ColorID::Zero
            } else if v == 1 {
                ColorID::Two
            } else if v == 2 {
                ColorID::One
            } else {
                ColorID::Three
            };
            proof {
                let ii = i as u16;
                assert((loc_color >> 2u16) == color >> (2 * ii + 2)) by (bit_vector)
                    requires loc_color == color >> (2 * ii), ii < 8;
                assert(v as int == pair_at(color, i as int));
            }
            loc_color = loc_color >> 2u16;
        }
        proof {
            assert forall|p: int| 0 <= p < 8 implies #[trigger] ret[p] == color_id(swap_one_two(pair_at(color, 7 - p))) by {
                assert(ret[7 - (7 - p)] == color_id(swap_one_two(pair_at(color, 7 - p))));
            }
        }
        ret
    }

    /// Decodes a tile: pixel `p` of row `r` has the colour number made of
    /// bit `7 - p` of byte `2r` (low) and of byte `2r + 1` (high).
    pub fn get_tile(vobj: Vobj) -> (t: Tile)
        ensures
            forall|r: int, p: int| 0 <= r < 8 && 0 <= p < 8 ==>
                #[trigger] t[r][p] == color_id(pixel_number(vobj[2 * r], vobj[2 * r + 1], p)),
    {
        let mut ret: Tile = [[ColorID::Unset; 8]; 8];
        for i in 0..8usize
            invariant
                forall|r: int, p: int| 0 <= r < i && 0 <= p < 8 ==>
                    #[trigger] ret[r][p] == color_id(pixel_number(vobj[2 * r], vobj[2 * r + 1], p)),
        {
            let row = Block::interleave(vobj[2 * i], vobj[(2 * i) + 1]);
            ret[i] = Block::color_palette(row);
            proof {
                assert forall|p: int| 0 <= p < 8 implies #[trigger] ret[i as int][p] == color_id(pixel_number(vobj[2 * i as int], vobj[2 * i as int + 1], p)) by {
                    assert(pair_at(row, 7 - p) == bit_at(vobj[2 * i as int], 7 - p) + 2 * bit_at(vobj[2 * i as int + 1], 7 - p));
                }
            }
        }
        ret
    }

    /// Decodes a tile upside down, with the colour numbers 1 and 2
    /// exchanged: row `r` of the result is row `7 - r` of the tile.
    pub fn get_tile_backwards(vobj: Vobj) -> (t: Tile)
        ensures
            forall|r: int, p: int| 0 <= r < 8 && 0 <= p < 8 ==>
                #[trigger] t[r][p] == color_id(swap_one_two(pixel_number(vobj[2 * (7 - r)], vobj[2 * (7 - r) + 1], p))),
    {
        let mut ret: Tile = [[ColorID::Unset; 8]; 8];
        for i in 0..8usize
            invariant
                forall|r: int, p: int| 7 - i < r < 8 && 0 <= p < 8 ==>
                    #[trigger] ret[r][p] == color_id(swap_one_two(pixel_number(vobj[2 * (7 - r)], vobj[2 * (7 - r) + 1], p))),
        {
            let row = Block::interleave(vobj[2 * i], vobj[(2 * i) + 1]);
            ret[7 - i] = Block::color_palette_reverse(row);
            proof {
                assert forall|p: int| 0 <= p < 8 implies #[trigger] ret[7 - i as int][p] == color_id(swap_one_two(pixel_number(vobj[2 * i as int], vobj[2 * i as int + 1], p))) by {
                    assert(pair_at(row, 7 - p) == bit_at(vobj[2 * i as int], 7 - p) + 2 * bit_at(vobj[2 * i as int + 1], 7 - p));
                }
            }
        }
        ret
    }
}

} // verus!

verus! {

broadcast use vstd::array::group_array_axioms;

impl Block {
    /// The byte at offset `addr` of the bank.
    pub open spec fn byte(&self, addr: int) -> u8 {
        self.objects[addr / 16][addr % 16]
    }

    /// The bank with the byte at offset `addr` replaced by `val`.
    pub open spec fn with_byte(self, addr: int, val: u8) -> Block {
        Block {
            objects: vstd::array::spec_array_update(
                self.objects,
                addr / 16,
                vstd::array::spec_array_update(self.objects[addr / 16], addr % 16, val),
            ),
        }
    }
}

impl AsMemory for Block {
    open spec fn readable(&self, addr: usize) -> bool {
        addr < 0x800
    }

    open spec fn writable(&self, addr: usize) -> bool {
        addr < 0x800
    }

    fn memory_map(&mut self, addr: usize) -> (r: u8)
        ensures
            r == old(self).byte(addr as int),
            *final(self) == *old(self),
    {
        self.objects[addr / 16][addr % 16]
    }

    fn memory_write(&mut self, addr: usize, val: u8)
        ensures
            *final(self) == old(self).with_byte(addr as int, val),
    {
        let mut o = self.objects[addr / 16];
        o[addr % 16] = val;
        self.objects[addr / 16] = o;
        proof {
            assert(self.objects =~= old(self).with_byte(addr as int, val).objects);
        }
    }
}

impl TileMap {
    pub fn new() -> (r: TileMap)
        ensures
            forall|i: int| 0 <= i < 1024 ==> r.tiles[i] == 0,
    {
        TileMap { tiles: [0; 1024] }
    }
}

impl AsMemory for TileMap {
    open spec fn readable(&self, addr: usize) -> bool {
        addr < 1024
    }

    open spec fn writable(&self, addr: usize) -> bool {
        addr < 1024
    }

    fn memory_map(&mut self, addr: usize) -> (r: u8)
        ensures
            r == old(self).tiles[addr as int],
            *final(self) == *old(self),
    {
        self.tiles[addr]
    }

    fn memory_write(&mut self, addr: usize, val: u8)
        ensures
            *final(self) == (TileMap { tiles: vstd::array::spec_array_update(old(self).tiles, addr as int, val) }),
    {
        self.tiles[addr] = val;
        proof {
            assert(self.tiles =~= vstd::array::spec_array_update(old(self).tiles, addr as int, val));
        }
    }
}

} // verus!

verus! {

/// The 8 KiB of video memory: three banks of tiles and two tile maps.
pub struct Vram {
    pub block0: Block,  //8000->87ff
    pub block1: Block,  //8800->8fff
    pub block2: Block,  //9000->97ff
    pub tmap1: TileMap,  //9800->9BFF
    pub tmap2: TileMap,  //9C00->9FFF
}

impl Vram {
    pub fn new() -> (r: Vram)
        ensures
            forall|a: int| 0 <= a < 0x2000 ==> #[trigger] r.byte(a) == 0,
    {
        Vram {
            block0: Block::new(),
            block1: Block::new(),
            block2: Block::new(),
            tmap1: TileMap::new(),
            tmap2: TileMap::new(),
        }
    }

    /// The byte at offset `addr` (0..0x2000) of video memory.
    pub open spec fn byte(&self, addr: int) -> u8 {
        if addr < 0x0800 {
            self.block0.byte(addr)
        } else if addr < 0x1000 {
            self.block1.byte(addr - 0x0800)
        } else if addr < 0x1800 {
            self.block2.byte(addr - 0x1000)
        } else if addr < 0x1c00 {
            self.tmap1.tiles[addr - 0x1800]
        } else {
            self.tmap2.tiles[addr - 0x1c00]
        }
    }

    /// Video memory with the byte at offset `addr` replaced by `val`.
    pub open spec fn with_byte(self, addr: int, val: u8) -> Vram {
        if addr < 0x0800 {
            Vram { block0: self.block0.with_byte(addr, val), ..self }
        } else if addr < 0x1000 {
            Vram { block1: self.block1.with_byte(addr - 0x0800, val), ..self }
        } else if addr < 0x1800 {
            Vram { block2: self.block2.with_byte(addr - 0x1000, val), ..self }
        } else if addr < 0x1c00 {
            Vram { tmap1: TileMap { tiles: vstd::array::spec_array_update(self.tmap1.tiles, addr - 0x1800, val) }, ..self }
        } else {
            Vram { tmap2: TileMap { tiles: vstd::array::spec_array_update(self.tmap2.tiles, addr - 0x1c00, val) }, ..self }
        }
    }

    /// The tile that tile number `n` names: with `unsigned_area`, numbers
    /// 0..128 name bank 0; otherwise they name bank 2. Numbers 128..256
    /// always name bank 1.
    pub open spec fn tile_data(&self, unsigned_area: bool, n: u8) -> Vobj {
        if n < 128 {
            if unsigned_area {
                self.block0.objects[n as int]
            } else {
                self.block2.objects[n as int]
            }
        } else {
            self.block1.objects[n - 128]
        }
    }

    /// The pixel at column `x`, line `y` of the 256 x 256 background that
    /// the chosen tile map (the second one when `high_map`) draws.
    #[verifier::opaque]
    pub open spec fn background_pixel(&self, high_map: bool, unsigned_area: bool, y: u8, x: u8) -> ColorID {
        let map = if high_map { self.tmap2 } else { self.tmap1 };
        let n = map.tiles[(y / 8) * 32 + (x / 8)];
        let v = self.tile_data(unsigned_area, n);
        color_id(pixel_number(v[2 * (y % 8)], v[2 * (y % 8) + 1], (x % 8) as int))
    }

    /// One line of 160 pixels of the background, starting at column `scx`
    /// and wrapping round at column 256.
    #[verifier::rlimit(40)]
    pub fn fetch_line(&self, high_map: bool, unsigned_area: bool, y: u8, scx: u8) -> (r: [ColorID; 160])
        ensures
            forall|i: int| 0 <= i < 160 ==> #[trigger] r[i] == self.background_pixel(high_map, unsigned_area, y, ((scx + i) % 256) as u8),
    {
        let mut ret = [ColorID::Unset; 160];
        let fine_y: usize = (y % 8) as usize;
        let row: usize = (y / 8) as usize;
        for i in 0..160usize
            invariant
                fine_y == (y % 8) as usize,
                row == (y / 8) as usize,
                forall|k: int| 0 <= k < i ==> #[trigger] ret[k] == self.background_pixel(high_map, unsigned_area, y, ((scx + k) % 256) as u8),
        {
            let px: u8 = scx.wrapping_add(i as u8);
            assert(px == ((scx + i) % 256) as u8);
            let col: usize = (px / 8) as usize;
            let n: u8 = if high_map {
                self.tmap2.tiles[row * 32 + col]
            } else {
                self.tmap1.tiles[row * 32 + col]
            };
            let v: Vobj = if n < 128 {
                if unsigned_area {
                    self.block0.objects[n as usize]
                } else {
                    self.block2.objects[n as usize]
                }
            } else {
                self.block1.objects[(n - 128) as usize]
            };
            assert(v == self.tile_data(unsigned_area, n));
            let line = Block::color_palette(Block::interleave(v[2 * fine_y], v[2 * fine_y + 1]));
            ret[i] = line[(px % 8) as usize];
            proof {
                reveal(Vram::background_pixel);
                let map = if high_map { self.tmap2 } else { self.tmap1 };
                assert(n == map.tiles[(y / 8) * 32 + (px / 8)]);
                assert(ret[i as int] == self.background_pixel(high_map, unsigned_area, y, px));
            }
        }
        ret
    }
}

impl AsMemory for Vram {
    open spec fn readable(&self, addr: usize) -> bool {
        addr < 0x2000
    }

    open spec fn writable(&self, addr: usize) -> bool {
        addr < 0x2000
    }

    fn memory_map(&mut self, addr: usize) -> (r: u8)
        ensures
            r == old(self).byte(addr as int),
            *final(self) == *old(self),
    {
        if addr <= 0x07ff {
            self.block0.memory_map(addr)
        } else if addr <= 0x0fff {
            self.block1.memory_map(addr - 0x0800)
        } else if addr <= 0x17ff {
            self.block2.memory_map(addr - 0x1000)
        } else if addr <= 0x1bff {
            self.tmap1.memory_map(addr - 0x1800)
        } else {
            self.tmap2.memory_map(addr - 0x1c00)
        }
    }

    fn memory_write(&mut self, addr: usize, val: u8)
        ensures
            *final(self) == old(self).with_byte(addr as int, val),
    {
        if addr <= 0x07ff {
            self.block0.memory_write(addr, val)
        } else if addr <= 0x0fff {
            self.block1.memory_write(addr - 0x0800, val)
        } else if addr <= 0x17ff {
            self.block2.memory_write(addr - 0x1000, val)
        } else if addr <= 0x1bff {
            self.tmap1.memory_write(addr - 0x1800, val)
        } else {
            self.tmap2.memory_write(addr - 0x1c00, val)
        }
    }
}

} // verus!
