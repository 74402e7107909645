//! The background/window fetcher and the two pixel FIFOs.
//!
//! The fetcher walks a tile map and its tile data in four two-T-state
//! steps (tile number, data low, data high, push) and pushes eight
//! pixels at a time into the background FIFO; the sprite FIFO holds the
//! pixels of sprites intersecting the current column, merged so that an
//! earlier (lower-x, then lower-OAM-index) sprite's opaque pixels win.

use vstd::prelude::*;

use crate::ppu::PpuState;
use crate::ppu::registers::OamEntry;

verus! {

/// One pixel on its way to the screen: a two-bit color, the sprite
/// palette select, and the sprite priority flags.
#[derive(Debug, Clone, Copy, PartialEq, Eq, Structural)]
pub struct Pixel {
    /// Two-bit color (palette index).
    pub color: u8,
    /// Palette select: 0 = OBP0, 1 = OBP1.  Meaningful for sprite
    /// pixels only.
    pub palette: u8,
    /// Inter-sprite priority; unused on the DMG.
    pub sprite_priority: bool,
    /// Bit 7 of the sprite flags: the background draws over this pixel
    /// except where the background is color 0.
    pub bg_priority: bool,
}

impl Pixel {
    /// A transparent pixel.
    pub fn transparent() -> (r: Pixel)
        ensures
            r == (Pixel { color: 0, palette: 0, sprite_priority: false, bg_priority: false }),
    {
        Pixel { color: 0, palette: 0, sprite_priority: false, bg_priority: false }
    }
}

impl Default for Pixel {
    /// A transparent pixel.
    fn default() -> (r: Pixel)
        ensures
            r == (Pixel { color: 0, palette: 0, sprite_priority: false, bg_priority: false }),
    {
        Pixel::transparent()
    }
}

/// A small first-in-first-out pixel queue with a fixed capacity.
pub struct ShiftRegister {
    pub data: Vec<Pixel>,
    pub cap: usize,
}

impl ShiftRegister {
    /// The queue respects its capacity and every queued color fits in
    /// two bits.
    pub open spec fn wf(&self) -> bool {
        &&& self.data@.len() <= self.cap
        &&& forall|i: int| 0 <= i < self.data@.len() ==> (#[trigger] self.data@[i]).color < 4
    }

    /// An empty queue with the given capacity.
    pub fn new(cap: usize) -> (r: ShiftRegister)
        ensures
            r.wf(),
            r.cap == cap,
            r.data@.len() == 0,
    {
        ShiftRegister { data: Vec::new(), cap }
    }

    /// The number of queued pixels.
    pub fn len(&self) -> (r: usize)
        ensures
            r == self.data@.len(),
    {
        self.data.len()
    }

    /// True when the queue is at capacity.
    pub fn is_full(&self) -> (r: bool)
        ensures
            r == (self.data@.len() == self.cap),
    {
        self.data.len() == self.cap
    }

    /// True when the queue holds nothing.
    pub fn is_empty(&self) -> (r: bool)
        ensures
            r == (self.data@.len() == 0),
    {
        self.data.len() == 0
    }

    /// Append a pixel at the back; reports whether there was room.
    pub fn push(&mut self, v: Pixel) -> (ok: bool)
        requires
            old(self).wf(),
            v.color < 4,
        ensures
            final(self).wf(),
            final(self).cap == old(self).cap,
            ok == (old(self).data@.len() < old(self).cap),
            ok ==> final(self).data@ == old(self).data@.push(v),
            !ok ==> final(self).data@ == old(self).data@,
    {
        if self.data.len() < self.cap {
            self.data.push(v);
            true
        } else {
            false
        }
    }

    /// Remove and return the front pixel, if any.
    pub fn pop(&mut self) -> (r: Option<Pixel>)
        requires
            old(self).wf(),
        ensures
            final(self).wf(),
            final(self).cap == old(self).cap,
            old(self).data@.len() == 0 ==> r is None && final(self).data@ == old(self).data@,
            old(self).data@.len() > 0 ==> r == Some(old(self).data@[0]) && final(self).data@ == old(
                self,
            ).data@.drop_first(),
    {
        if self.data.len() == 0 {
            None
        } else {
            let v = self.data.remove(0);
            proof {
                assert(final(self).data@ =~= old(self).data@.drop_first());
            }
            Some(v)
        }
    }

    /// The pixel at a queue position (0 is the front).
    pub fn get_at(&self, i: usize) -> (r: Pixel)
        requires
            self.wf(),
            i < self.data@.len(),
        ensures
            r == self.data@[i as int],
    {
        self.data[i]
    }

    /// Replace the pixel at a queue position.
    pub fn set_at(&mut self, i: usize, v: Pixel)
        requires
            old(self).wf(),
            i < old(self).data@.len(),
            v.color < 4,
        ensures
            final(self).wf(),
            final(self).cap == old(self).cap,
            final(self).data@ == old(self).data@.update(i as int, v),
    {
        self.data.set(i, v);
    }

    /// Drop every queued pixel.
    pub fn clear(&mut self)
        ensures
            final(self).wf(),
            final(self).cap == old(self).cap,
            final(self).data@.len() == 0,
    {
        self.data.clear();
    }
}

/// Which tile map cell the fetcher reads next: a background column
/// counter, or a window column counter with the window line.
#[derive(Clone, Copy, Debug, PartialEq, Eq, Structural)]
pub enum TileCounter {
    Bg { x_counter: u16 },
    Window { x_counter: u16, window_line: u16 },
}

/// The tile map cell a counter addresses: the background form follows
/// the scroll registers, the window form the window line counter.
pub open spec fn spec_tile_map_cell(c: TileCounter, state: PpuState) -> u16 {
    match c {
        TileCounter::Bg { x_counter } => {
            let fine_y = ((state.ly + state.scy) % 256) / 8;
            let coarse_x = (state.scx / 8 + (x_counter % 32)) % 32;
            ((fine_y * 32 + coarse_x) as u16)
        },
        TileCounter::Window { x_counter, window_line } => {
            let fine_y = (window_line % 256) / 8;
            let coarse_x = x_counter % 32;
            ((fine_y * 32 + coarse_x) as u16)
        },
    }
}

/// The tile number read from the selected map at the addressed cell.
pub open spec fn spec_tile_number(c: TileCounter, state: PpuState) -> u8 {
    let cell = spec_tile_map_cell(c, state) as int;
    match c {
        TileCounter::Bg { .. } => if state.lcdc.bits & 0x08 != 0 {
            state.bg_map_2@[cell]
        } else {
            state.bg_map_1@[cell]
        },
        TileCounter::Window { .. } => if state.lcdc.bits & 0x40 != 0 {
            state.bg_map_2@[cell]
        } else {
            state.bg_map_1@[cell]
        },
    }
}

/// The first byte of a tile's data under the LCDC bit 4 addressing
/// mode: plain 16-byte cells from 0x8000, or signed tile numbers
/// around 0x9000.
pub open spec fn spec_tile_index(tile_no: u8, lcdc_bits: u8) -> int {
    if lcdc_bits & 0x10 != 0 {
        tile_no * 16
    } else if tile_no < 128 {
        0x1000 + tile_no * 16
    } else {
        tile_no * 16
    }
}

/// The byte offset of the addressed line within its tile's data.
pub open spec fn spec_line_offset(c: TileCounter, state: PpuState) -> int {
    match c {
        TileCounter::Bg { .. } => 2 * (((state.ly + state.scy) % 256) % 8),
        TileCounter::Window { window_line, .. } => 2 * ((window_line % 8) as int),
    }
}

impl TileCounter {
    /// Read the tile number the counter currently addresses.  The
    /// background form follows the scroll registers; the window form
    /// follows the window line counter.
    pub fn get_tile_number(&self, state: &PpuState) -> (r: u8)
        requires
            state.wf_mem(),
        ensures
            r == spec_tile_number(*self, *state),
    {
        match self {
            TileCounter::Bg { x_counter } => {
                let fine_y: u16 = ((state.ly as u16 + state.scy as u16) % 256) / 8;
                let coarse_x: u16 = ((state.scx as u16) / 8 + (*x_counter % 32)) % 32;
                state.get_bg_tile_number(fine_y * 32 + coarse_x)
            }
            TileCounter::Window { x_counter, window_line } => {
                let fine_y: u16 = (*window_line % 256) / 8;
                let coarse_x: u16 = *x_counter % 32;
                state.get_window_tile_number(fine_y * 32 + coarse_x)
            }
        }
    }

    /// The offset of the addressed line within its tile's data, in
    /// bytes (two per line).
    pub fn line_offset(&self, state: &PpuState) -> (r: usize)
        ensures
            r <= 14,
            r == spec_line_offset(*self, *state),
    {
        match self {
            TileCounter::Bg { .. } => {
                let fine: u16 = (state.ly as u16 + state.scy as u16) % 8;
                2 * fine as usize
            }
            TileCounter::Window { window_line, .. } => 2 * ((*window_line % 8) as usize),
        }
    }

    /// Step to the next tile map cell.
    pub fn increment(&mut self)
        ensures
            match *old(self) {
                TileCounter::Bg { x_counter } => *final(self) == (TileCounter::Bg {
                    x_counter: ((x_counter + 1) % 0x10000) as u16,
                }),
                TileCounter::Window { x_counter, window_line } => *final(self) == (
                TileCounter::Window {
                    x_counter: ((x_counter + 1) % 0x10000) as u16,
                    window_line,
                }),
            },
    {
        match self {
            TileCounter::Bg { x_counter } => {
                *x_counter = ((*x_counter as u32 + 1) % 0x10000) as u16;
            }
            TileCounter::Window { x_counter, .. } => {
                *x_counter = ((*x_counter as u32 + 1) % 0x10000) as u16;
            }
        }
    }
}

/// The eight pixels a pair of tile data bytes decodes to, leftmost
/// first: bit 7 down to bit 0, the high byte supplying the upper color
/// bit.
pub open spec fn spec_tile_row_pixels(lo: u8, hi: u8) -> Seq<Pixel> {
    Seq::new(
        8,
        |i: int|
            Pixel {
                color: (((hi >> ((7 - i) as u8)) % 2) * 2 + ((lo >> ((7 - i) as u8)) % 2)) as u8,
                palette: 0,
                sprite_priority: false,
                bg_priority: false,
            },
    )
}

/// The fetcher's progress through its four steps.
#[derive(Clone, Copy, Debug, PartialEq, Eq, Structural)]
pub enum FifoState {
    FetchTile,
    FetchTileDataLow { tile_data_index: usize },
    FetchTileDataHigh { tile_data_index: usize, tile_data_low: u8 },
    ReadyToPush { tile_data_low: u8, tile_data_high: u8 },
}

/// A fetcher index always leaves room for the tile line's two bytes.
pub open spec fn spec_fifo_state_wf(s: FifoState) -> bool {
    match s {
        FifoState::FetchTileDataLow { tile_data_index } => tile_data_index + 1 < 0x1800,
        FifoState::FetchTileDataHigh { tile_data_index, .. } => tile_data_index + 1 < 0x1800,
        _ => true,
    }
}

/// The background/window pixel FIFO with its fetcher.
pub struct BgPixelFifo {
    pub pixels: ShiftRegister,
    pub tile_map_offset: TileCounter,
    pub state: FifoState,
}

impl BgPixelFifo {
    /// The queue holds at most 16 two-bit pixels and the fetcher's
    /// index is in bounds.
    pub open spec fn wf(&self) -> bool {
        &&& self.pixels.wf()
        &&& self.pixels.cap == 16
        &&& spec_fifo_state_wf(self.state)
    }

    /// An empty FIFO at background column 0.
    pub fn new() -> (r: BgPixelFifo)
        ensures
            r.wf(),
            r.pixels.data@.len() == 0,
    {
        BgPixelFifo {
            pixels: ShiftRegister::new(16),
            tile_map_offset: TileCounter::Bg { x_counter: 0 },
            state: FifoState::FetchTile,
        }
    }

    /// Point the fetcher at a tile map cell.
    pub fn set_tile_map_offset(&mut self, tile_map_offset: TileCounter)
        requires
            old(self).wf(),
        ensures
            final(self).wf(),
            final(self).tile_map_offset == tile_map_offset,
            final(self).pixels == old(self).pixels,
            final(self).state == old(self).state,
    {
        self.tile_map_offset = tile_map_offset;
    }

    /// Restart the fetcher at its first step.
    pub fn reset_fetcher(&mut self)
        requires
            old(self).wf(),
        ensures
            final(self).wf(),
            final(self).state == FifoState::FetchTile,
            final(self).pixels == old(self).pixels,
            final(self).tile_map_offset == old(self).tile_map_offset,
    {
        self.state = FifoState::FetchTile;
    }

    /// Restart the fetcher and drop every queued pixel.
    pub fn clear(&mut self)
        requires
            old(self).wf(),
        ensures
            final(self).wf(),
            final(self).state == FifoState::FetchTile,
            final(self).pixels.data@.len() == 0,
            final(self).pixels.cap == old(self).pixels.cap,
            final(self).tile_map_offset == old(self).tile_map_offset,
    {
        self.reset_fetcher();
        self.pixels.clear();
    }

    /// Run one fetcher step (the PPU calls this every second T-state):
    /// read the tile number, then the low data byte, then the high
    /// byte, then push the eight decoded pixels once the queue is down
    /// to eight or fewer.
    pub fn clock(&mut self, state: &PpuState)
        requires
            old(self).wf(),
            state.wf_mem(),
        ensures
            final(self).wf(),
            match old(self).state {
                FifoState::FetchTile => {
                    &&& final(self).state == (FifoState::FetchTileDataLow {
                        tile_data_index: (spec_tile_index(
                            spec_tile_number(old(self).tile_map_offset, *state),
                            state.lcdc.bits,
                        ) + spec_line_offset(old(self).tile_map_offset, *state)) as usize,
                    })
                    &&& final(self).pixels == old(self).pixels
                    &&& final(self).tile_map_offset == old(self).tile_map_offset
                },
                FifoState::FetchTileDataLow { tile_data_index } => {
                    &&& final(self).state == (FifoState::FetchTileDataHigh {
                        tile_data_index,
                        tile_data_low: state.tile_data@[tile_data_index as int],
                    })
                    &&& final(self).pixels == old(self).pixels
                    &&& final(self).tile_map_offset == old(self).tile_map_offset
                },
                FifoState::FetchTileDataHigh { tile_data_index, tile_data_low } => {
                    &&& final(self).state == (FifoState::ReadyToPush {
                        tile_data_low,
                        tile_data_high: state.tile_data@[tile_data_index + 1],
                    })
                    &&& final(self).pixels == old(self).pixels
                    &&& final(self).tile_map_offset == old(self).tile_map_offset
                },
                FifoState::ReadyToPush { tile_data_low, tile_data_high } => {
                    if old(self).pixels.data@.len() <= 8 {
                        &&& final(self).pixels.data@ == old(self).pixels.data@
                            + spec_tile_row_pixels(tile_data_low, tile_data_high)
                        &&& final(self).state == FifoState::FetchTile
                        &&& match old(self).tile_map_offset {
                            TileCounter::Bg { x_counter } => final(self).tile_map_offset == (
                            TileCounter::Bg { x_counter: ((x_counter + 1) % 0x10000) as u16 }),
                            TileCounter::Window { x_counter, window_line } => final(self).tile_map_offset == (TileCounter::Window {
                                x_counter: ((x_counter + 1) % 0x10000) as u16,
                                window_line,
                            }),
                        }
                    } else {
                        *final(self) == *old(self)
                    }
                },
            },
    {
        match self.state {
            FifoState::FetchTile => {
                let tile_no = self.tile_map_offset.get_tile_number(state);
                let tile_addr = state.tile_data_address(tile_no);
                let line = self.tile_map_offset.line_offset(state);
                self.state = FifoState::FetchTileDataLow { tile_data_index: tile_addr + line };
            }
            FifoState::FetchTileDataLow { tile_data_index } => {
                self.state = FifoState::FetchTileDataHigh {
                    tile_data_index,
                    tile_data_low: state.tile_data[tile_data_index],
                };
            }
            FifoState::FetchTileDataHigh { tile_data_index, tile_data_low } => {
                self.state = FifoState::ReadyToPush {
                    tile_data_low,
                    tile_data_high: state.tile_data[tile_data_index + 1],
                };
            }
            FifoState::ReadyToPush { tile_data_low, tile_data_high } => {
                if self.pixels.len() <= 8 {
                    let mut i: usize = 0;
                    while i < 8
                        invariant
                            self.pixels.wf(),
                            self.pixels.cap == 16,
                            old(self).pixels.data@.len() <= 8,
                            self.pixels.data@ == old(self).pixels.data@ + spec_tile_row_pixels(
                                tile_data_low,
                                tile_data_high,
                            ).take(i as int),
                            self.state == old(self).state,
                            self.tile_map_offset == old(self).tile_map_offset,
                            i <= 8,
                        decreases 8 - i,
                    {
                        let bit: u8 = (7 - i) as u8;
                        let pix_low: u8 = (tile_data_low >> bit) % 2;
                        let pix_high: u8 = (tile_data_high >> bit) % 2;
                        let px = Pixel {
                            color: pix_high * 2 + pix_low,
                            palette: 0,
                            sprite_priority: false,
                            bg_priority: false,
                        };
                        self.pixels.push(px);
                        proof {
                            assert(spec_tile_row_pixels(tile_data_low, tile_data_high).take(
                                i + 1,
                            ) =~= spec_tile_row_pixels(tile_data_low, tile_data_high).take(
                                i as int,
                            ).push(px));
                        }
                        i = i + 1;
                    }
                    proof {
                        assert(spec_tile_row_pixels(tile_data_low, tile_data_high).take(8)
                            =~= spec_tile_row_pixels(tile_data_low, tile_data_high));
                    }
                    self.tile_map_offset.increment();
                    self.state = FifoState::FetchTile;
                }
            }
        }
    }

    /// Pop the front pixel; the FIFO only hands out pixels while more
    /// than eight are queued, so the fetcher stays ahead of the screen.
    pub fn pop_pixel(&mut self) -> (r: Option<Pixel>)
        requires
            old(self).wf(),
        ensures
            final(self).wf(),
            r matches Some(p) ==> p.color < 4,
            if old(self).pixels.data@.len() > 8 {
                &&& r == Some(old(self).pixels.data@[0])
                &&& final(self).pixels.data@ == old(self).pixels.data@.drop_first()
                &&& final(self).state == old(self).state
                &&& final(self).tile_map_offset == old(self).tile_map_offset
            } else {
                r is None && *final(self) == *old(self)
            },
    {
        if self.pixels.len() > 8 {
            self.pixels.pop()
        } else {
            None
        }
    }
}

/// The first data byte of the tile line a sprite shows on
/// `sprite_line` (0 to 15 below its top edge), honoring Y flip and the
/// 8x16 pairing in which the line offset rolls over into the next tile.
pub open spec fn spec_sprite_tile_index(sprite: OamEntry, sprite_line: int, obj16: bool) -> int {
    if sprite.flags & 0x40 != 0 {
        if obj16 {
            if sprite_line < 8 {
                (sprite.tile + 1) * 16 + 2 * (7 - sprite_line)
            } else {
                sprite.tile * 16 + 2 * (7 - (sprite_line - 8))
            }
        } else {
            sprite.tile * 16 + 2 * (7 - (sprite_line % 8))
        }
    } else {
        sprite.tile * 16 + 2 * sprite_line
    }
}

/// Pixel `i` (0 = leftmost) of a sprite's tile line, honoring X flip
/// and carrying the sprite's palette select and background priority.
pub open spec fn spec_sprite_pixel(lo: u8, hi: u8, i: int, sprite: OamEntry) -> Pixel {
    let bit = if sprite.flags & 0x20 != 0 {
        i as u8
    } else {
        (7 - i) as u8
    };
    Pixel {
        color: (((hi >> bit) % 2) * 2 + ((lo >> bit) % 2)) as u8,
        palette: if sprite.flags & 0x10 != 0 {
            1
        } else {
            0
        },
        sprite_priority: false,
        bg_priority: sprite.flags & 0x80 != 0,
    }
}

/// The queue after merging a sprite's tile line: every already-opaque
/// queued pixel stays; transparent or missing positions take the
/// sprite's pixel.  The result always holds eight pixels.
pub open spec fn spec_sprite_merge(q: Seq<Pixel>, lo: u8, hi: u8, sprite: OamEntry) -> Seq<Pixel> {
    Seq::new(
        8,
        |i: int|
            if i < q.len() && q[i].color != 0 {
                q[i]
            } else {
                spec_sprite_pixel(lo, hi, i, sprite)
            },
    )
}

/// The sprite pixel FIFO: holds the merged pixels of the sprites that
/// cover the next eight columns.
pub struct SpritePixelFifo {
    pub pixels: ShiftRegister,
    pub sprite: Option<OamEntry>,
    pub state: FifoState,
}

impl SpritePixelFifo {
    /// The queue holds at most 8 two-bit pixels and the fetcher's index
    /// is in bounds.
    pub open spec fn wf(&self) -> bool {
        &&& self.pixels.wf()
        &&& self.pixels.cap == 8
        &&& spec_fifo_state_wf(self.state)
    }

    /// An empty sprite FIFO.
    pub fn new() -> (r: SpritePixelFifo)
        ensures
            r.wf(),
            r.pixels.data@.len() == 0,
            r.sprite is None,
    {
        SpritePixelFifo {
            pixels: ShiftRegister::new(8),
            sprite: None,
            state: FifoState::FetchTile,
        }
    }

    /// Hand the FIFO a sprite whose pixels the next fetcher steps will
    /// merge in.
    pub fn load_sprite(&mut self, sprite: OamEntry)
        requires
            old(self).wf(),
        ensures
            final(self).wf(),
            final(self).sprite == Some(sprite),
            final(self).pixels == old(self).pixels,
            final(self).state == old(self).state,
    {
        self.sprite = Some(sprite);
    }

    /// Run one fetcher step for the loaded sprite: locate its tile
    /// line (honoring Y flip and 8x16 pairing), read the two data
    /// bytes, and merge the eight pixels into the queue.  Merging never
    /// overwrites an opaque queued pixel, so the earlier sprite wins.
    pub fn clock(&mut self, state: &PpuState)
        requires
            old(self).wf(),
            state.wf_mem(),
        ensures
            final(self).wf(),
            match old(self).state {
                FifoState::FetchTile => {
                    &&& final(self).pixels == old(self).pixels
                    &&& match old(self).sprite {
                        None => *final(self) == *old(self),
                        Some(sprite) => {
                            let line = state.ly + 16 - sprite.ypos;
                            if 0 <= line < 16 {
                                &&& final(self).state == (FifoState::FetchTileDataLow {
                                    tile_data_index: spec_sprite_tile_index(
                                        sprite,
                                        line,
                                        state.lcdc.bits & 0x04 != 0,
                                    ) as usize,
                                })
                                &&& final(self).sprite == old(self).sprite
                            } else {
                                // OAM changed since the scan: drop the
                                // sprite.
                                final(self).state == old(self).state && final(self).sprite
                                    is None
                            }
                        },
                    }
                },
                FifoState::FetchTileDataLow { tile_data_index } => {
                    &&& final(self).state == (FifoState::FetchTileDataHigh {
                        tile_data_index,
                        tile_data_low: state.tile_data@[tile_data_index as int],
                    })
                    &&& final(self).pixels == old(self).pixels
                    &&& final(self).sprite == old(self).sprite
                },
                FifoState::FetchTileDataHigh { tile_data_index, tile_data_low } => {
                    &&& final(self).state == (FifoState::ReadyToPush {
                        tile_data_low,
                        tile_data_high: state.tile_data@[tile_data_index + 1],
                    })
                    &&& final(self).pixels == old(self).pixels
                    &&& final(self).sprite == old(self).sprite
                },
                FifoState::ReadyToPush { tile_data_low, tile_data_high } => {
                    &&& final(self).pixels.data@ == spec_sprite_merge(
                        old(self).pixels.data@,
                        tile_data_low,
                        tile_data_high,
                        match old(self).sprite {
                            Some(s) => s,
                            None => OamEntry { ypos: 0, xpos: 0, tile: 0, flags: 0 },
                        },
                    )
                    &&& final(self).state == FifoState::FetchTile
                    &&& final(self).sprite is None
                },
            },
    {
        match self.state {
            FifoState::FetchTile => {
                match self.sprite {
                    None => {}
                    Some(sprite) => {
                        let line16: u16 = state.ly as u16 + 16;
                        if line16 < sprite.ypos as u16 {
                            // The sprite no longer covers this line (OAM
                            // changed since the scan); drop it.
                            self.sprite = None;
                            return;
                        }
                        let sprite_line: u16 = line16 - sprite.ypos as u16;
                        if sprite_line >= 16 {
                            self.sprite = None;
                            return;
                        }
                        let tile_data_index: usize = if sprite.y_flip() {
                            if state.lcdc.obj_size() {
                                // For Y-flipped 8x16 sprites the second
                                // tile's data comes first.
                                if sprite_line < 8 {
                                    (sprite.tile as usize + 1) * 16 + 2 * ((7 - sprite_line)
                                        as usize)
                                } else {
                                    (sprite.tile as usize) * 16 + 2 * ((7 - (sprite_line - 8))
                                        as usize)
                                }
                            } else {
                                let l: u16 = sprite_line % 8;
                                (sprite.tile as usize) * 16 + 2 * ((7 - l) as usize)
                            }
                        } else {
                            // The line offset rolls over into the next
                            // tile for the lower half of 8x16 sprites.
                            (sprite.tile as usize) * 16 + 2 * (sprite_line as usize)
                        };
                        self.state = FifoState::FetchTileDataLow { tile_data_index };
                    }
                }
            }
            FifoState::FetchTileDataLow { tile_data_index } => {
                self.state = FifoState::FetchTileDataHigh {
                    tile_data_index,
                    tile_data_low: state.tile_data[tile_data_index],
                };
            }
            FifoState::FetchTileDataHigh { tile_data_index, tile_data_low } => {
                self.state = FifoState::ReadyToPush {
                    tile_data_low,
                    tile_data_high: state.tile_data[tile_data_index + 1],
                };
            }
            FifoState::ReadyToPush { tile_data_low, tile_data_high } => {
                let sprite = match self.sprite {
                    Some(s) => s,
                    None => OamEntry::zeroed(),
                };
                let ghost merged = spec_sprite_merge(
                    old(self).pixels.data@,
                    tile_data_low,
                    tile_data_high,
                    sprite,
                );
                let mut i: usize = 0;
                while i < 8
                    invariant
                        self.pixels.wf(),
                        self.pixels.cap == 8,
                        self.state == old(self).state,
                        self.sprite == old(self).sprite,
                        old(self).pixels.data@.len() <= 8,
                        merged == spec_sprite_merge(
                            old(self).pixels.data@,
                            tile_data_low,
                            tile_data_high,
                            sprite,
                        ),
                        sprite == (match old(self).sprite {
                            Some(s) => s,
                            None => OamEntry { ypos: 0, xpos: 0, tile: 0, flags: 0 },
                        }),
                        self.pixels.data@.len() == (if i >= old(self).pixels.data@.len() {
                            i as int
                        } else {
                            old(self).pixels.data@.len() as int
                        }),
                        forall|j: int| 0 <= j < i ==> self.pixels.data@[j] == merged[j],
                        forall|j: int|
                            i <= j < old(self).pixels.data@.len() ==> self.pixels.data@[j] == old(
                                self,
                            ).pixels.data@[j],
                        i <= 8,
                    decreases 8 - i,
                {
                    let bit: u8 = if sprite.x_flip() {
                        i as u8
                    } else {
                        7 - i as u8
                    };
                    let pix_low: u8 = (tile_data_low >> bit) % 2;
                    let pix_high: u8 = (tile_data_high >> bit) % 2;
                    let prepared = Pixel {
                        color: pix_high * 2 + pix_low,
                        palette: if sprite.palette_obp1() {
                            1
                        } else {
                            0
                        },
                        sprite_priority: false,
                        bg_priority: sprite.bg_priority(),
                    };
                    if i < self.pixels.len() {
                        // Only transparent queued pixels may be
                        // overwritten.
                        let existing = self.pixels.get_at(i);
                        if existing.color == 0 {
                            self.pixels.set_at(i, prepared);
                        }
                    } else {
                        self.pixels.push(prepared);
                    }
                    i = i + 1;
                }
                proof {
                    assert(self.pixels.data@ =~= merged);
                }
                self.state = FifoState::FetchTile;
                self.sprite = None;
            }
        }
    }

    /// Pop the front pixel, or a transparent pixel when the queue is
    /// empty.
    pub fn pop_pixel(&mut self) -> (r: Pixel)
        requires
            old(self).wf(),
        ensures
            final(self).wf(),
            r.color < 4,
            if old(self).pixels.data@.len() > 0 {
                &&& r == old(self).pixels.data@[0]
                &&& final(self).pixels.data@ == old(self).pixels.data@.drop_first()
                &&& final(self).state == old(self).state
                &&& final(self).sprite == old(self).sprite
            } else {
                r == (Pixel { color: 0, palette: 0, sprite_priority: false, bg_priority: false })
                    && *final(self) == *old(self)
            },
    {
        if self.pixels.len() == 0 {
            Pixel::transparent()
        } else {
            match self.pixels.pop() {
                Some(p) => p,
                None => Pixel::transparent(),
            }
        }
    }
}

} // verus!
