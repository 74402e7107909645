//! The 160 by 144 RGBA frame buffer.

use vstd::prelude::*;

verus! {

/// A finished or in-progress frame: 160 by 144 pixels, row-major, four
/// bytes per pixel.
#[derive(Clone, Debug)]
pub struct Frame {
    pub pixels: Vec<u32>,
    pub width: usize,
    pub height: usize,
}

impl Frame {
    /// Exactly 160 by 144 pixels.
    pub open spec fn wf(&self) -> bool {
        &&& self.pixels@.len() == 160 * 144
        &&& self.width == 160
        &&& self.height == 144
    }

    /// An all-zero frame.
    pub fn new() -> (r: Frame)
        ensures
            r.wf(),
            forall|i: int| 0 <= i < 160 * 144 ==> r.pixels@[i] == 0u32,
    {
        let mut p: Vec<u32> = Vec::new();
        p.resize(160 * 144, 0u32);
        Frame { pixels: p, width: 160, height: 144 }
    }

    /// The pixel at a column and row.
    pub fn get(&self, x: usize, y: usize) -> (r: u32)
        requires
            self.wf(),
            x < 160,
            y < 144,
        ensures
            r == self.pixels@[y * 160 + x],
    {
        self.pixels[y * 160 + x]
    }

    /// Store a pixel at a column and row.
    pub fn set_pixel(&mut self, x: usize, y: usize, v: u32)
        requires
            old(self).wf(),
            x < 160,
            y < 144,
        ensures
            final(self).wf(),
            final(self).pixels@ == old(self).pixels@.update(y * 160 + x, v),
    {
        self.pixels.set(y * 160 + x, v);
    }

    /// The frame as 144 rows of 160 pixels each.
    pub fn rows(&self) -> (r: Vec<Vec<u32>>)
        requires
            self.wf(),
        ensures
            r@.len() == 144,
            forall|y: int, x: int|
                0 <= y < 144 && 0 <= x < 160 ==> (#[trigger] (r@[y])@[x]) == self.pixels@[y * 160
                    + x],
            forall|y: int| 0 <= y < 144 ==> (#[trigger] r@[y])@.len() == 160,
    {
        let mut out: Vec<Vec<u32>> = Vec::new();
        let mut y: usize = 0;
        while y < 144
            invariant
                self.wf(),
                y <= 144,
                out@.len() == y,
                forall|yy: int| 0 <= yy < y ==> (#[trigger] out@[yy])@.len() == 160,
                forall|yy: int, x: int|
                    0 <= yy < y && 0 <= x < 160 ==> (#[trigger] (out@[yy])@[x])
                        == self.pixels@[yy * 160 + x],
            decreases 144 - y,
        {
            let mut row: Vec<u32> = Vec::new();
            let mut x: usize = 0;
            while x < 160
                invariant
                    self.wf(),
                    y < 144,
                    x <= 160,
                    row@.len() == x,
                    forall|xx: int| 0 <= xx < x ==> row@[xx] == self.pixels@[y * 160 + xx],
                decreases 160 - x,
            {
                row.push(self.pixels[y * 160 + x]);
                x = x + 1;
            }
            out.push(row);
            y = y + 1;
        }
        out
    }
}

impl Default for Frame {
    /// An all-zero frame.
    fn default() -> (r: Frame)
        ensures
            r.wf(),
    {
        Frame::new()
    }
}

} // verus!
