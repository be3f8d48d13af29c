use vstd::prelude::*;

use crate::screen::screen::ColorID;
use crate::screen::vram::Tile;

verus! {

/// A pixel waiting in a pixel FIFO: its colour number, which palette it
/// takes, and whether it stays behind the background.
#[derive(Copy, Clone, PartialEq, Eq, Structural, Debug)]
pub struct FIFOPixel {
    pub color: ColorID,
    pub palette: bool,
    pub priority: bool,
}

/// The steps of the pixel fetcher.
#[derive(Copy, Clone, PartialEq, Eq, Structural, Debug)]
pub enum Stage {
    GetTile1,
    GetTile2,
    GetTileLow1,
    GetTileLow2,
    GetTileHigh1,
    GetTileHigh2,
    Sleep1,
    Sleep2,
    Push,
}

/// A decoded tile with its position.
pub struct TileWrapper {
    pub x: u8,
    pub y: u8,
    pub tile: Tile,
}

/// A queue of up to sixteen pixels; the front is slot 0.
pub struct PixelFIFO {
    pub pixel_list: [Option<FIFOPixel>; 16],
}

impl PixelFIFO {
    /// An empty queue.
    pub fn new() -> (r: Self)
        ensures
            forall|i: int| 0 <= i < 16 ==> #[trigger] r.pixel_list[i] is None,
    {
        return Self { pixel_list: [None; 16] };
    }

    /// Takes the front slot; the others move forward and the back slot
    /// becomes empty.
    pub fn pop(&mut self) -> (r: Option<FIFOPixel>)
        ensures
            r == old(self).pixel_list[0],
            final(self).pixel_list@ == old(self).pixel_list@.subrange(1, 16).push(None),
    {
        let ret = self.pixel_list[0];
        let mut i: usize = 0;
        while i < 15
            invariant
                0 <= i <= 15,
                forall|j: int| 0 <= j < i ==> #[trigger] self.pixel_list[j] == old(self).pixel_list[j + 1],
                forall|j: int| i <= j < 16 ==> #[trigger] self.pixel_list[j] == old(self).pixel_list[j],
            decreases 15 - i,
        {
            self.pixel_list[i] = self.pixel_list[i + 1];
            i = i + 1;
        }
        self.pixel_list[15] = None;
        assert(self.pixel_list@ =~= old(self).pixel_list@.subrange(1, 16).push(None));
        return ret;
    }
}

} // verus!
