//! The picture processor: VRAM, OAM, the mode state machine, the pixel
//! pipeline and the double-buffered frame.
//!
//! Each scanline lasts 456 T-states: 80 of OAM scan (mode 2), a variable
//! drawing stretch (mode 3) in which the fetcher and FIFOs emit one
//! pixel per T-state, and HBlank (mode 0) up to the line's end.  Lines
//! 144 to 153 are VBlank (mode 1); the frame pair is swapped on VBlank
//! entry, so a pulled frame is always a completed one.

pub mod color;
pub mod fifo;
pub mod frame;
pub mod registers;

use vstd::prelude::*;

use crate::cpu::CpuOutputPins;
use crate::ppu::fifo::BgPixelFifo;
use crate::ppu::fifo::Pixel;
use crate::ppu::fifo::SpritePixelFifo;
use crate::ppu::fifo::TileCounter;
use crate::ppu::frame::Frame;
use crate::ppu::registers::LCDC;
use crate::ppu::registers::OamEntry;
use crate::ppu::registers::STAT;
use crate::ppu::registers::spec_stat_mode;

verus! {

/// The bus-visible state of the PPU: video memory, OAM, the registers,
/// the interrupt signal levels and the two frame buffers.
pub struct PpuState {
    /// Tile data, mapped at 0x8000 to 0x97FF.
    pub tile_data: Vec<u8>,
    /// Tile map 1, mapped at 0x9800 to 0x9BFF.
    pub bg_map_1: Vec<u8>,
    /// Tile map 2, mapped at 0x9C00 to 0x9FFF.
    pub bg_map_2: Vec<u8>,
    /// Object attribute memory, mapped at 0xFE00 to 0xFE9F.
    pub oam: Vec<u8>,
    pub lcdc: LCDC,
    pub stat: STAT,
    pub scy: u8,
    pub scx: u8,
    pub ly: u8,
    pub lyc: u8,
    pub wy: u8,
    pub wx: u8,
    pub bgp: u8,
    pub obp0: u8,
    pub obp1: u8,
    /// The VBlank interrupt signal level.
    pub vblank_irq: bool,
    /// The STAT interrupt signal level.
    pub stat_irq: bool,
    /// The VBlank level the bus saw last cycle, for edge detection.
    pub vblank_irq_prev: bool,
    /// The STAT level the bus saw last cycle, for edge detection.
    pub stat_irq_prev: bool,
    /// The completed frame, handed out by the frame pull.
    pub frame: Frame,
    /// The frame being drawn.
    pub back_frame: Frame,
}

/// True of the addresses the PPU memories serve: VRAM and OAM.
pub open spec fn spec_ppu_mem_in_range(addr: u16) -> bool {
    (0x8000 <= addr <= 0x9FFF) || (0xFE00 <= addr <= 0xFE9F)
}

/// The STAT interrupt level a STAT byte produces: the mode interrupt
/// enables while in that mode, or the LYC enable while the coincidence
/// bit is raised.
pub open spec fn spec_stat_level(bits: u8) -> bool {
    ||| (bits % 4 == 0 && (bits / 8) % 2 == 1)
    ||| (bits % 4 == 1 && (bits / 16) % 2 == 1)
    ||| (bits % 4 == 2 && (bits / 32) % 2 == 1)
    ||| ((bits / 64) % 2 == 1 && (bits / 4) % 2 == 1)
}

/// The byte a read of the PPU's memories or registers drives on the
/// data line; other addresses leave the line alone.
pub open spec fn spec_ppu_data(pre: PpuState, addr: u16, d0: u8) -> u8 {
    if 0x8000 <= addr <= 0x97FF {
        pre.tile_data@[addr - 0x8000]
    } else if 0x9800 <= addr <= 0x9BFF {
        pre.bg_map_1@[addr - 0x9800]
    } else if 0x9C00 <= addr <= 0x9FFF {
        pre.bg_map_2@[addr - 0x9C00]
    } else if 0xFE00 <= addr <= 0xFE9F {
        pre.oam@[addr - 0xFE00]
    } else if addr == 0xFF40 {
        pre.lcdc.bits
    } else if addr == 0xFF41 {
        pre.stat.bits
    } else if addr == 0xFF42 {
        pre.scy
    } else if addr == 0xFF43 {
        pre.scx
    } else if addr == 0xFF44 {
        pre.ly
    } else if addr == 0xFF45 {
        pre.lyc
    } else if addr == 0xFF46 {
        0
    } else if addr == 0xFF47 {
        pre.bgp
    } else if addr == 0xFF48 {
        pre.obp0
    } else if addr == 0xFF49 {
        pre.obp1
    } else if addr == 0xFF4A {
        pre.wy
    } else if addr == 0xFF4B {
        pre.wx
    } else {
        d0
    }
}

/// The full bus-port relation of the PPU for one M-cycle: how `post`
/// and the data line and interrupt request bytes follow from `pre` and
/// the CPU's pins.  Reads drive the data line and change nothing but
/// the edge memory; writes land in exactly the addressed cell or
/// register, with LY read-only, a STAT write storing only the four
/// interrupt enables, and a LYC write refreshing the coincidence bit.
/// The rising edges of the VBlank and STAT levels are OR-ed into the
/// request byte.
#[verifier::opaque]
pub open spec fn spec_ppu_io_rel(
    pre: PpuState,
    post: PpuState,
    input: CpuOutputPins,
    d0: u8,
    d1: u8,
    irq0: u8,
    irq1: u8,
) -> bool {
    &&& match input {
        CpuOutputPins::Read { addr } => {
            &&& post == (PpuState {
                vblank_irq_prev: post.vblank_irq_prev,
                stat_irq_prev: post.stat_irq_prev,
                ..pre
            })
            &&& d1 == spec_ppu_data(pre, addr, d0)
        },
        CpuOutputPins::Write { addr, data: v } => {
            &&& d1 == d0
            &&& if 0x8000 <= addr <= 0x97FF {
                &&& post == (PpuState {
                    tile_data: post.tile_data,
                    vblank_irq_prev: post.vblank_irq_prev,
                    stat_irq_prev: post.stat_irq_prev,
                    ..pre
                })
                &&& post.tile_data@ == pre.tile_data@.update(addr - 0x8000, v)
            } else if 0x9800 <= addr <= 0x9BFF {
                &&& post == (PpuState {
                    bg_map_1: post.bg_map_1,
                    vblank_irq_prev: post.vblank_irq_prev,
                    stat_irq_prev: post.stat_irq_prev,
                    ..pre
                })
                &&& post.bg_map_1@ == pre.bg_map_1@.update(addr - 0x9800, v)
            } else if 0x9C00 <= addr <= 0x9FFF {
                &&& post == (PpuState {
                    bg_map_2: post.bg_map_2,
                    vblank_irq_prev: post.vblank_irq_prev,
                    stat_irq_prev: post.stat_irq_prev,
                    ..pre
                })
                &&& post.bg_map_2@ == pre.bg_map_2@.update(addr - 0x9C00, v)
            } else if 0xFE00 <= addr <= 0xFE9F {
                &&& post == (PpuState {
                    oam: post.oam,
                    vblank_irq_prev: post.vblank_irq_prev,
                    stat_irq_prev: post.stat_irq_prev,
                    ..pre
                })
                &&& post.oam@ == pre.oam@.update(addr - 0xFE00, v)
            } else if addr == 0xFF40 {
                post == (PpuState {
                    lcdc: LCDC { bits: v },
                    vblank_irq_prev: post.vblank_irq_prev,
                    stat_irq_prev: post.stat_irq_prev,
                    ..pre
                })
            } else if addr == 0xFF41 {
                &&& post == (PpuState {
                    stat: post.stat,
                    stat_irq: post.stat_irq,
                    vblank_irq_prev: post.vblank_irq_prev,
                    stat_irq_prev: post.stat_irq_prev,
                    ..pre
                })
                &&& post.stat.bits == ((v / 8) % 16) * 8 + pre.stat.bits % 8
                &&& post.stat_irq == spec_stat_level(post.stat.bits)
            } else if addr == 0xFF42 {
                post == (PpuState {
                    scy: v,
                    vblank_irq_prev: post.vblank_irq_prev,
                    stat_irq_prev: post.stat_irq_prev,
                    ..pre
                })
            } else if addr == 0xFF43 {
                post == (PpuState {
                    scx: v,
                    vblank_irq_prev: post.vblank_irq_prev,
                    stat_irq_prev: post.stat_irq_prev,
                    ..pre
                })
            } else if addr == 0xFF45 {
                &&& post == (PpuState {
                    lyc: v,
                    stat: post.stat,
                    stat_irq: post.stat_irq,
                    vblank_irq_prev: post.vblank_irq_prev,
                    stat_irq_prev: post.stat_irq_prev,
                    ..pre
                })
                &&& post.stat.bits == (pre.stat.bits / 8) * 8 + (if pre.ly == v {
                    4int
                } else {
                    0int
                }) + pre.stat.bits % 4
                &&& post.stat_irq == spec_stat_level(post.stat.bits)
            } else if addr == 0xFF47 {
                post == (PpuState {
                    bgp: v,
                    vblank_irq_prev: post.vblank_irq_prev,
                    stat_irq_prev: post.stat_irq_prev,
                    ..pre
                })
            } else if addr == 0xFF48 {
                post == (PpuState {
                    obp0: v,
                    vblank_irq_prev: post.vblank_irq_prev,
                    stat_irq_prev: post.stat_irq_prev,
                    ..pre
                })
            } else if addr == 0xFF49 {
                post == (PpuState {
                    obp1: v,
                    vblank_irq_prev: post.vblank_irq_prev,
                    stat_irq_prev: post.stat_irq_prev,
                    ..pre
                })
            } else if addr == 0xFF4A {
                post == (PpuState {
                    wy: v,
                    vblank_irq_prev: post.vblank_irq_prev,
                    stat_irq_prev: post.stat_irq_prev,
                    ..pre
                })
            } else if addr == 0xFF4B {
                post == (PpuState {
                    wx: v,
                    vblank_irq_prev: post.vblank_irq_prev,
                    stat_irq_prev: post.stat_irq_prev,
                    ..pre
                })
            } else {
                // LY (0xFF44) is read-only, the OAM DMA register
                // (0xFF46) is handled by the bus top, and unmapped
                // addresses are ignored.
                post == (PpuState {
                    vblank_irq_prev: post.vblank_irq_prev,
                    stat_irq_prev: post.stat_irq_prev,
                    ..pre
                })
            }
        },
    }
    &&& irq1 == (irq0 | (((if post.vblank_irq && !pre.vblank_irq_prev {
        1u8
    } else {
        0u8
    }) + (if post.stat_irq && !pre.stat_irq_prev {
        2u8
    } else {
        0u8
    })) as u8))
    &&& post.vblank_irq_prev == post.vblank_irq
    &&& post.stat_irq_prev == post.stat_irq
}

impl PpuState {
    /// The memories have their architectural sizes and both frames are
    /// whole.
    pub open spec fn wf_mem(&self) -> bool {
        &&& self.tile_data@.len() == 0x1800
        &&& self.bg_map_1@.len() == 0x400
        &&& self.bg_map_2@.len() == 0x400
        &&& self.oam@.len() == 0xA0
        &&& self.frame.wf()
        &&& self.back_frame.wf()
    }

    /// The register invariants: LY stays within its 154 lines and the
    /// STAT coincidence bit tracks LY == LYC exactly.  The mode field
    /// is two bits wide by construction.
    pub open spec fn wf_regs(&self) -> bool {
        &&& self.ly <= 153
        &&& self.stat.spec_lyc_equals_ly() <==> self.ly == self.lyc
    }

    /// The whole PPU state invariant.
    pub open spec fn wf(&self) -> bool {
        self.wf_mem() && self.wf_regs()
    }

    /// Cleared memories, cleared registers, blank frames.
    pub fn new() -> (r: PpuState)
        ensures
            r.wf(),
            r.ly == 0,
            r.stat.bits == 4,
            r.lcdc.bits == 0,
            !r.vblank_irq,
            !r.stat_irq,
            forall|i: int| 0 <= i < 160 * 144 ==> r.frame.pixels@[i] == 0u32,
    {
        let mut tile_data: Vec<u8> = Vec::new();
        let mut bg_map_1: Vec<u8> = Vec::new();
        let mut bg_map_2: Vec<u8> = Vec::new();
        let mut oam: Vec<u8> = Vec::new();
        tile_data.resize(0x1800, 0u8);
        bg_map_1.resize(0x400, 0u8);
        bg_map_2.resize(0x400, 0u8);
        oam.resize(0xA0, 0u8);
        PpuState {
            tile_data,
            bg_map_1,
            bg_map_2,
            oam,
            lcdc: LCDC { bits: 0 },
            // LY == LYC == 0 at reset, so the coincidence bit starts
            // raised.
            stat: STAT { bits: 4 },
            scy: 0,
            scx: 0,
            ly: 0,
            lyc: 0,
            wy: 0,
            wx: 0,
            bgp: 0,
            obp0: 0,
            obp1: 0,
            vblank_irq: false,
            stat_irq: false,
            vblank_irq_prev: false,
            stat_irq_prev: false,
            frame: Frame::new(),
            back_frame: Frame::new(),
        }
    }

    /// The OAM entry at an index.
    pub fn oam(&self, index: usize) -> (r: OamEntry)
        requires
            self.wf_mem(),
            index < 40,
        ensures
            r == (OamEntry {
                ypos: self.oam@[index * 4],
                xpos: self.oam@[index * 4 + 1],
                tile: self.oam@[index * 4 + 2],
                flags: self.oam@[index * 4 + 3],
            }),
    {
        OamEntry {
            ypos: self.oam[index * 4],
            xpos: self.oam[index * 4 + 1],
            tile: self.oam[index * 4 + 2],
            flags: self.oam[index * 4 + 3],
        }
    }

    /// The sprite height selected by LCDC bit 2: 16 or 8.
    pub fn sprite_height(&self) -> (r: u8)
        ensures
            r == (if self.lcdc.bits & 0x04 != 0 {
                16u8
            } else {
                8u8
            }),
    {
        if self.lcdc.obj_size() {
            16
        } else {
            8
        }
    }

    /// The background tile number at an offset into the map that LCDC
    /// bit 3 selects.
    pub fn get_bg_tile_number(&self, offset: u16) -> (r: u8)
        requires
            self.wf_mem(),
            offset < 0x400,
        ensures
            r == (if self.lcdc.bits & 0x08 != 0 {
                self.bg_map_2@[offset as int]
            } else {
                self.bg_map_1@[offset as int]
            }),
    {
        if self.lcdc.bg_tilemap_area() {
            self.bg_map_2[offset as usize]
        } else {
            self.bg_map_1[offset as usize]
        }
    }

    /// The window tile number at an offset into the map that LCDC bit 6
    /// selects.
    pub fn get_window_tile_number(&self, offset: u16) -> (r: u8)
        requires
            self.wf_mem(),
            offset < 0x400,
        ensures
            r == (if self.lcdc.bits & 0x40 != 0 {
                self.bg_map_2@[offset as int]
            } else {
                self.bg_map_1@[offset as int]
            }),
    {
        if self.lcdc.window_tilemap_area() {
            self.bg_map_2[offset as usize]
        } else {
            self.bg_map_1[offset as usize]
        }
    }

    /// The first byte of tile `tile_no`'s data, under the addressing
    /// mode LCDC bit 4 selects: plain 16-byte cells from 0x8000, or
    /// signed tile numbers around 0x9000.
    pub fn tile_data_address(&self, tile_no: u8) -> (r: usize)
        ensures
            r + 16 <= 0x1800,
            r == (if self.lcdc.bits & 0x10 != 0 {
                tile_no * 16
            } else if tile_no < 128 {
                0x1000 + tile_no * 16
            } else {
                tile_no * 16
            }),
    {
        if self.lcdc.bg_tile_data_area() {
            tile_no as usize * 16
        } else if tile_no < 128 {
            // Signed addressing: tiles 0 to 127 live at 0x9000 and up.
            0x1000 + tile_no as usize * 16
        } else {
            // Tiles 128 to 255 coincide in both modes.
            tile_no as usize * 16
        }
    }

    /// Store a color id into the frame being drawn.
    pub fn put_color_id(&mut self, id: u8, x: usize, y: usize)
        requires
            old(self).wf_mem(),
            id < 4,
            x < 160,
            y < 144,
        ensures
            final(self).wf_mem(),
            final(self).back_frame.pixels@ == old(self).back_frame.pixels@.update(
                y * 160 + x,
                color::spec_color_rgba(id),
            ),
            *final(self) == (PpuState { back_frame: final(self).back_frame, ..*old(self) }),
    {
        let v = color::color_rgba(id);
        self.back_frame.set_pixel(x, y, v);
    }

    /// Store a background pixel into the frame being drawn, translated
    /// through the BGP palette register.
    pub fn put_pixel(&mut self, bg_pix: Pixel, x: usize, y: usize)
        requires
            old(self).wf_mem(),
            bg_pix.color < 4,
            x < 160,
            y < 144,
        ensures
            final(self).wf_mem(),
            final(self).back_frame.pixels@ == old(self).back_frame.pixels@.update(
                y * 160 + x,
                color::spec_color_rgba(color::spec_palette_lookup(old(self).bgp, bg_pix.color)),
            ),
            *final(self) == (PpuState { back_frame: final(self).back_frame, ..*old(self) }),
    {
        let id = color::calculate_monochrome_color_id(self.bgp, bg_pix.color);
        self.put_color_id(id, x, y);
    }

    /// Exchange the finished frame and the frame being drawn.
    pub fn swap_frames(&mut self)
        ensures
            final(self).frame == old(self).back_frame,
            final(self).back_frame == old(self).frame,
            *final(self) == (PpuState {
                frame: old(self).back_frame,
                back_frame: old(self).frame,
                ..*old(self)
            }),
    {
        core::mem::swap(&mut self.frame, &mut self.back_frame);
    }

    /// Move to a scanline: store LY, refresh the coincidence bit, and
    /// recompute the STAT interrupt level.
    pub fn set_ly(&mut self, ly: u8)
        requires
            old(self).wf_mem(),
            ly <= 153,
        ensures
            final(self).wf(),
            *final(self) == (PpuState {
                ly,
                stat: final(self).stat,
                stat_irq: final(self).stat_irq,
                ..*old(self)
            }),
            final(self).stat.bits == (old(self).stat.bits / 8) * 8 + (if ly == old(self).lyc {
                4int
            } else {
                0int
            }) + old(self).stat.bits % 4,
            final(self).stat_irq == spec_stat_level(final(self).stat.bits),
            spec_stat_mode(final(self).stat.bits) == spec_stat_mode(old(self).stat.bits),
    {
        self.ly = ly;
        let eq = self.ly == self.lyc;
        self.stat.set_lyc_equals_ly(eq);
        self.update_stat_interrupt();
    }

    /// Move to a mode: store the STAT mode field and recompute the STAT
    /// interrupt level.
    pub fn set_mode(&mut self, mode: u8)
        requires
            old(self).wf_mem(),
            old(self).wf_regs(),
            mode < 4,
        ensures
            final(self).wf(),
            *final(self) == (PpuState {
                stat: final(self).stat,
                stat_irq: final(self).stat_irq,
                ..*old(self)
            }),
            final(self).stat.bits == (old(self).stat.bits / 4) * 4 + mode,
            spec_stat_mode(final(self).stat.bits) == mode,
            final(self).stat_irq == spec_stat_level(final(self).stat.bits),
    {
        self.stat.set_mode(mode);
        self.update_stat_interrupt();
    }

    /// Recompute the STAT interrupt level: the mode interrupt enables
    /// while in that mode, or the LYC interrupt enable while LY equals
    /// LYC.
    pub fn update_stat_interrupt(&mut self)
        ensures
            *final(self) == (PpuState { stat_irq: final(self).stat_irq, ..*old(self) }),
            final(self).stat_irq == spec_stat_level(old(self).stat.bits),
    {
        let mode = self.stat.mode();
        let mode_int: bool = (mode == 0 && self.stat.hblank_interrupt_enable()) || (mode == 1
            && self.stat.vblank_interrupt_enable()) || (mode == 2
            && self.stat.oam_interrupt_enable());
        let lyc_int: bool = self.stat.lyc_interrupt_enable() && self.stat.lyc_equals_ly();
        self.stat_irq = mode_int || lyc_int;
    }

    /// Serve one M-cycle of bus traffic: VRAM, OAM and the registers at
    /// 0xFF40 to 0xFF4B, then contribute the rising edges of the VBlank
    /// and STAT levels to the interrupt request byte.
    ///
    /// LY is read-only; a write to it is dropped.  A STAT write stores
    /// only the four interrupt enables, leaving the mode field and the
    /// coincidence bit alone.  The OAM DMA register 0xFF46 is accepted
    /// and ignored: this core models DMA as host-visible OAM writes.
    pub fn perform_io(&mut self, input: CpuOutputPins, data: &mut u8, interrupt_request: &mut u8)
        requires
            old(self).wf(),
        ensures
            final(self).wf(),
            spec_ppu_io_rel(
                *old(self),
                *final(self),
                input,
                *old(data),
                *final(data),
                *old(interrupt_request),
                *final(interrupt_request),
            ),
    {
        proof {
            reveal(spec_ppu_io_rel);
        }
        match input {
            CpuOutputPins::Write { addr, data: v } => {
                if 0x8000 <= addr && addr <= 0x97FF {
                    self.tile_data.set((addr - 0x8000) as usize, v);
                } else if 0x9800 <= addr && addr <= 0x9BFF {
                    self.bg_map_1.set((addr - 0x9800) as usize, v);
                } else if 0x9C00 <= addr && addr <= 0x9FFF {
                    self.bg_map_2.set((addr - 0x9C00) as usize, v);
                } else if 0xFE00 <= addr && addr <= 0xFE9F {
                    self.oam.set((addr - 0xFE00) as usize, v);
                } else if addr == 0xFF40 {
                    self.lcdc = LCDC::from_bits_truncate(v);
                } else if addr == 0xFF41 {
                    // Only the interrupt enables (bits 3 to 6) are
                    // writable.
                    let writable: u8 = ((v / 8) % 16) * 8;
                    let kept: u8 = self.stat.bits % 8;
                    self.stat = STAT::from_bits_truncate(writable + kept);
                    self.update_stat_interrupt();
                } else if addr == 0xFF42 {
                    self.scy = v;
                } else if addr == 0xFF43 {
                    self.scx = v;
                } else if addr == 0xFF44 {
                    // LY is read-only.
                } else if addr == 0xFF45 {
                    self.lyc = v;
                    let eq = self.ly == self.lyc;
                    self.stat.set_lyc_equals_ly(eq);
                    self.update_stat_interrupt();
                } else if addr == 0xFF47 {
                    self.bgp = v;
                } else if addr == 0xFF48 {
                    self.obp0 = v;
                } else if addr == 0xFF49 {
                    self.obp1 = v;
                } else if addr == 0xFF4A {
                    self.wy = v;
                } else if addr == 0xFF4B {
                    self.wx = v;
                }
            }
            CpuOutputPins::Read { addr } => {
                if 0x8000 <= addr && addr <= 0x97FF {
                    *data = self.tile_data[(addr - 0x8000) as usize];
                } else if 0x9800 <= addr && addr <= 0x9BFF {
                    *data = self.bg_map_1[(addr - 0x9800) as usize];
                } else if 0x9C00 <= addr && addr <= 0x9FFF {
                    *data = self.bg_map_2[(addr - 0x9C00) as usize];
                } else if 0xFE00 <= addr && addr <= 0xFE9F {
                    *data = self.oam[(addr - 0xFE00) as usize];
                } else if addr == 0xFF40 {
                    *data = self.lcdc.bits();
                } else if addr == 0xFF41 {
                    *data = self.stat.bits();
                } else if addr == 0xFF42 {
                    *data = self.scy;
                } else if addr == 0xFF43 {
                    *data = self.scx;
                } else if addr == 0xFF44 {
                    *data = self.ly;
                } else if addr == 0xFF45 {
                    *data = self.lyc;
                } else if addr == 0xFF46 {
                    *data = 0;
                } else if addr == 0xFF47 {
                    *data = self.bgp;
                } else if addr == 0xFF48 {
                    *data = self.obp0;
                } else if addr == 0xFF49 {
                    *data = self.obp1;
                } else if addr == 0xFF4A {
                    *data = self.wy;
                } else if addr == 0xFF4B {
                    *data = self.wx;
                }
            }
        }

        // Contribute the rising edges of the two interrupt levels.
        let mut edge_bits: u8 = 0;
        if self.vblank_irq && !self.vblank_irq_prev {
            edge_bits = edge_bits + 1;
        }
        if self.stat_irq && !self.stat_irq_prev {
            edge_bits = edge_bits + 2;
        }
        *interrupt_request = *interrupt_request | edge_bits;
        self.vblank_irq_prev = self.vblank_irq;
        self.stat_irq_prev = self.stat_irq;
    }
}

/// The PPU register invariant, spelled out: LY stays within the 154
/// scanlines, the STAT mode field is one of the four modes, and the
/// STAT coincidence bit is raised exactly when LY equals LYC.  Every
/// constructor establishes [`PpuState::wf`] and every clocking and bus
/// operation preserves it.
pub proof fn lemma_ppu_register_invariant(s: PpuState)
    requires
        s.wf(),
    ensures
        s.ly <= 153,
        spec_stat_mode(s.stat.bits) < 4,
        s.stat.spec_lyc_equals_ly() <==> s.ly == s.lyc,
{
}

/// Round trip: storing a byte at any VRAM or OAM address through the
/// PPU's bus port and reading the same address back returns that byte.
/// The hypotheses are exactly what [`PpuState::perform_io`] ensures of
/// a write in range.
pub proof fn lemma_ppu_mem_round_trip(s0: PpuState, s1: PpuState, addr: u16, v: u8)
    requires
        s0.wf(),
        spec_ppu_mem_in_range(addr),
        0x8000 <= addr <= 0x97FF ==> s1.tile_data@ == s0.tile_data@.update(addr - 0x8000, v),
        0x9800 <= addr <= 0x9BFF ==> s1.bg_map_1@ == s0.bg_map_1@.update(addr - 0x9800, v),
        0x9C00 <= addr <= 0x9FFF ==> s1.bg_map_2@ == s0.bg_map_2@.update(addr - 0x9C00, v),
        0xFE00 <= addr <= 0xFE9F ==> s1.oam@ == s0.oam@.update(addr - 0xFE00, v),
    ensures
        0x8000 <= addr <= 0x97FF ==> s1.tile_data@[addr - 0x8000] == v,
        0x9800 <= addr <= 0x9BFF ==> s1.bg_map_1@[addr - 0x9800] == v,
        0x9C00 <= addr <= 0x9FFF ==> s1.bg_map_2@[addr - 0x9C00] == v,
        0xFE00 <= addr <= 0xFE9F ==> s1.oam@[addr - 0xFE00] == v,
{
}


/// The PPU as a whole: its bus-visible state plus the per-line drawing
/// machinery (dot counter, fetcher, FIFOs, sprite buffer and window
/// tracking).
pub struct Ppu {
    pub state: PpuState,
    /// T-state position within the current line, 0 to 455.
    pub dot: u16,
    /// The background/window FIFO and fetcher.
    pub fifo: BgPixelFifo,
    /// The sprite FIFO.
    pub sprite_fifo: SpritePixelFifo,
    /// The up-to-ten sprites the OAM scan buffered for this line.
    pub sprite_buffer: Vec<OamEntry>,
    /// Pixels still to drop at the line start (SCX modulo 8).
    pub discard: u8,
    /// The output column, 0 to 160.
    pub x: u8,
    /// LY has matched WY somewhere in this frame.
    pub wy_passed: bool,
    /// Completed lines that showed window pixels this frame.
    pub window_lines: u16,
    /// The fetcher is in window mode on this line.
    pub inside_window: bool,
}

/// The OAM entry at an index of a PPU state.
pub open spec fn spec_oam_entry(s: PpuState, i: int) -> OamEntry {
    OamEntry {
        ypos: s.oam@[i * 4],
        xpos: s.oam@[i * 4 + 1],
        tile: s.oam@[i * 4 + 2],
        flags: s.oam@[i * 4 + 3],
    }
}

/// The sprite height LCDC bit 2 selects.
pub open spec fn spec_sprite_height(s: PpuState) -> int {
    if s.lcdc.bits & 0x04 != 0 {
        16
    } else {
        8
    }
}

/// The sprites the OAM scan buffers for the current line: entries 0 to
/// `n`, taken in index order while fewer than ten are buffered, whose
/// x position is nonzero and whose vertical span contains LY + 16.
pub open spec fn spec_oam_scan(s: PpuState, n: int) -> Seq<OamEntry>
    decreases n,
{
    if n <= 0 {
        Seq::empty()
    } else {
        let prev = spec_oam_scan(s, n - 1);
        let e = spec_oam_entry(s, n - 1);
        if prev.len() < 10 && e.xpos > 0 && s.ly + 16 >= e.ypos && s.ly + 16 < e.ypos
            + spec_sprite_height(s) {
            prev.push(e)
        } else {
            prev
        }
    }
}

/// The color id of a mixed pixel: the sprite pixel wins when sprites
/// are enabled, it is opaque, and it either has priority over the
/// background or covers background color 0; the background color reads
/// as 0 when the background is disabled.  The winner's palette
/// register translates its two-bit color.
pub open spec fn spec_mix_color(s: PpuState, bg: Pixel, sp: Pixel) -> u8 {
    let bg_color = if s.lcdc.bits & 0x01 != 0 {
        bg.color
    } else {
        0u8
    };
    if s.lcdc.bits & 0x02 != 0 && sp.color != 0 && (!sp.bg_priority || bg_color == 0) {
        color::spec_palette_lookup(
            if sp.palette == 1 {
                s.obp1
            } else {
                s.obp0
            },
            sp.color,
        )
    } else {
        color::spec_palette_lookup(s.bgp, bg_color)
    }
}

/// The one-T-state relation of the PPU: how the dot counter, LY, the
/// mode, the frame pair and the VBlank level of `post` follow from
/// `pre`.
pub open spec fn spec_ppu_t_rel(pre: Ppu, post: Ppu) -> bool {
    // The dot counter walks the 456-dot line.
    &&& post.dot == (if pre.dot == 455 {
        0u16
    } else {
        ((pre.dot + 1) as u16)
    })
    // LY holds within a line, advances at its end, and wraps to a new
    // frame after line 153.
    &&& (pre.dot < 455 ==> post.state.ly == pre.state.ly)
    &&& (pre.dot == 455 ==> post.state.ly == (if pre.state.ly >= 153 {
        0u8
    } else {
        ((pre.state.ly + 1) as u8)
    }))
    // Mode 2 opens every visible line; mode 3 begins at dot 80; mode 1
    // begins as line 143 completes.
    &&& (pre.state.ly < 144 && pre.dot == 0 ==> spec_stat_mode(post.state.stat.bits) == 2)
    &&& (pre.state.ly < 144 && pre.dot == 80 ==> spec_stat_mode(post.state.stat.bits) == 3)
    &&& (pre.dot == 455 && pre.state.ly == 143 ==> spec_stat_mode(post.state.stat.bits) == 1)
    // The frame pair swaps exactly on VBlank entry; the front buffer
    // never changes otherwise, and the buffer that was in front becomes
    // the new drawing target.
    &&& (pre.dot == 455 && pre.state.ly == 143 ==> post.state.back_frame == pre.state.frame)
    &&& (pre.dot == 455 && pre.state.ly == 143 && pre.x == 160 ==> post.state.frame
        == pre.state.back_frame)
    &&& (!(pre.dot == 455 && pre.state.ly == 143) ==> post.state.frame == pre.state.frame)
    // The VBlank level rises on entry, holds through lines 144 to 153,
    // and falls on the wrap to line 0.
    &&& post.state.vblank_irq == (if pre.dot == 455 && pre.state.ly == 143 {
        true
    } else if pre.dot == 455 && pre.state.ly >= 153 {
        false
    } else {
        pre.state.vblank_irq
    })
    // VBlank lines are idle: nothing but the line counter moves.
    &&& (pre.state.ly >= 144 && pre.dot < 455 ==> post.state == pre.state)
}

/// `n` successive applications of the one-T-state relation.
pub open spec fn spec_ppu_t_steps(pre: Ppu, post: Ppu, n: nat) -> bool
    decreases n,
{
    if n == 0 {
        post == pre
    } else {
        exists|mid: Ppu| #[trigger] spec_ppu_t_rel(pre, mid) && spec_ppu_t_steps(mid, post, (n - 1) as nat)
    }
}

impl Ppu {
    /// The machine invariant: the state invariant, whole FIFOs, the dot
    /// within its line, at most ten buffered sprites, and the column
    /// within the screen.
    pub open spec fn wf(&self) -> bool {
        &&& self.state.wf()
        &&& self.fifo.wf()
        &&& self.sprite_fifo.wf()
        &&& self.dot < 456
        &&& self.sprite_buffer@.len() <= 10
        &&& self.x <= 160
    }

    /// A PPU at the top of its first line.
    pub fn new() -> (r: Ppu)
        ensures
            r.wf(),
            r.state.ly == 0,
            r.dot == 0,
            forall|i: int| 0 <= i < 160 * 144 ==> r.state.frame.pixels@[i] == 0u32,
    {
        Ppu {
            state: PpuState::new(),
            dot: 0,
            fifo: BgPixelFifo::new(),
            sprite_fifo: SpritePixelFifo::new(),
            sprite_buffer: Vec::new(),
            discard: 0,
            x: 0,
            wy_passed: false,
            window_lines: 0,
            inside_window: false,
        }
    }

    /// A copy of the most recently completed frame.  Pulling a frame
    /// reads the stable front buffer, so two pulls with no clocking in
    /// between return identical pixels.
    pub fn get_frame(&self) -> (r: Frame)
        requires
            self.wf(),
        ensures
            r.wf(),
            r.pixels@ == self.state.frame.pixels@,
    {
        let mut p: Vec<u32> = Vec::new();
        let mut i: usize = 0;
        while i < 160 * 144
            invariant
                self.wf(),
                i <= 160 * 144,
                p@.len() == i,
                forall|j: int| 0 <= j < i ==> p@[j] == self.state.frame.pixels@[j],
            decreases 160 * 144 - i,
        {
            p.push(self.state.frame.pixels[i]);
            i = i + 1;
        }
        proof {
            assert(p@ =~= self.state.frame.pixels@);
        }
        Frame { pixels: p, width: 160, height: 144 }
    }

    /// Scan OAM for the sprites covering this line: up to ten entries
    /// whose x position is nonzero and whose vertical span contains
    /// LY + 16.
    fn scan_oam(&mut self)
        requires
            old(self).wf(),
        ensures
            final(self).wf(),
            *final(self) == (Ppu { sprite_buffer: final(self).sprite_buffer, ..*old(self) }),
            final(self).sprite_buffer@ == spec_oam_scan(old(self).state, 40),
    {
        self.sprite_buffer = Vec::new();
        let height = self.state.sprite_height();
        let line16: u16 = self.state.ly as u16 + 16;
        let mut entry: usize = 0;
        while entry < 40
            invariant
                self.wf(),
                entry <= 40,
                *self == (Ppu { sprite_buffer: self.sprite_buffer, ..*old(self) }),
                self.sprite_buffer@.len() <= 10,
                height == spec_sprite_height(old(self).state),
                line16 == old(self).state.ly + 16,
                self.sprite_buffer@ == spec_oam_scan(old(self).state, entry as int),
            decreases 40 - entry,
        {
            if self.sprite_buffer.len() < 10 {
                let e = self.state.oam(entry);
                if e.xpos > 0 && line16 >= e.ypos as u16 && line16 < e.ypos as u16
                    + height as u16 {
                    self.sprite_buffer.push(e);
                }
            }
            entry = entry + 1;
        }
    }

    /// Begin a visible line: enter OAM scan, latch the window trigger,
    /// and run the scan.
    fn begin_line(&mut self)
        requires
            old(self).wf(),
            old(self).state.ly < 144,
        ensures
            final(self).wf(),
            final(self).state.ly == old(self).state.ly,
            final(self).dot == old(self).dot,
            final(self).x == old(self).x,
            spec_stat_mode(final(self).state.stat.bits) == 2,
            final(self).state.frame == old(self).state.frame,
            final(self).state.back_frame == old(self).state.back_frame,
            final(self).state.vblank_irq == old(self).state.vblank_irq,
    {
        if self.state.ly == self.state.wy {
            self.wy_passed = true;
        }
        self.state.set_mode(2);
        self.inside_window = false;
        self.scan_oam();
    }

    /// Finish a line: advance LY, entering VBlank after line 143 and
    /// wrapping to a new frame after line 153.  The frame pair is
    /// swapped exactly on VBlank entry.
    fn advance_line(&mut self)
        requires
            old(self).wf(),
        ensures
            final(self).wf(),
            final(self).dot == old(self).dot,
            final(self).state.ly == (if old(self).state.ly >= 153 {
                0u8
            } else {
                ((old(self).state.ly + 1) as u8)
            }),
            old(self).state.ly == 143 ==> spec_stat_mode(final(self).state.stat.bits) == 1 && final(self).state.frame == old(self).state.back_frame && final(self).state.back_frame == old(self).state.frame,
            old(self).state.ly != 143 ==> final(self).state.frame == old(self).state.frame && final(self).state.back_frame == old(self).state.back_frame,
            final(self).state.vblank_irq == (if old(self).state.ly == 143 {
                true
            } else if old(self).state.ly >= 153 {
                false
            } else {
                old(self).state.vblank_irq
            }),
    {
        let ly = self.state.ly;
        if ly < 143 {
            self.state.set_ly(ly + 1);
        } else if ly == 143 {
            self.state.set_ly(144);
            self.state.set_mode(1);
            self.state.swap_frames();
            self.state.vblank_irq = true;
        } else if ly < 153 {
            self.state.set_ly(ly + 1);
        } else {
            self.state.set_ly(0);
            self.state.vblank_irq = false;
            self.wy_passed = false;
            self.window_lines = 0;
        }
    }

    /// Run one T-state of the drawing stretch (mode 3): clock the
    /// fetcher every second dot, then try to emit one pixel, mixing in
    /// the sprite FIFO and watching for the window trigger.
    fn mode3_dot(&mut self)
        requires
            old(self).wf(),
            old(self).state.ly < 144,
            old(self).x < 160,
        ensures
            final(self).wf(),
            final(self).state.ly == old(self).state.ly,
            final(self).dot == old(self).dot,
            final(self).state.frame == old(self).state.frame,
            final(self).state.vblank_irq == old(self).state.vblank_irq,
            // A freshly cleared fetcher cannot emit a pixel yet, so the
            // mode holds.
            (old(self).fifo.state == fifo::FifoState::FetchTile && old(self).fifo.pixels.data@.len() == 0) ==> final(self).state.stat == old(self).state.stat,
    {
        if self.dot % 2 == 0 {
            self.fifo.clock(&self.state);
        }
        let popped = self.fifo.pop_pixel();
        match popped {
            None => {}
            Some(pix) => {
                if self.discard > 0 {
                    // The first SCX % 8 pixels of the line fall off the
                    // left edge.
                    self.discard = self.discard - 1;
                } else {
                    self.emit_pixel(pix);
                }
            }
        }
    }

    /// Output one pixel at the current column: load any sprite starting
    /// here, mix the sprite and background pixels, store the color, and
    /// handle the window trigger and end of line.
    fn emit_pixel(&mut self, pix: Pixel)
        requires
            old(self).wf(),
            old(self).state.ly < 144,
            old(self).x < 160,
            pix.color < 4,
        ensures
            final(self).wf(),
            final(self).state.ly == old(self).state.ly,
            final(self).dot == old(self).dot,
            final(self).state.frame == old(self).state.frame,
            final(self).state.vblank_irq == old(self).state.vblank_irq,
            // Exactly the pixel at (x, LY) of the frame being drawn is
            // painted, with the mixed color of the background pixel and
            // some sprite pixel.
            exists|sp: Pixel|
                #![trigger sp.color]
                {
                    &&& sp.color < 4
                    &&& final(self).state.back_frame.pixels@ == old(self).state.back_frame.pixels@.update(
                        old(self).state.ly * 160 + old(self).x,
                        color::spec_color_rgba(spec_mix_color(old(self).state, pix, sp)),
                    )
                },
            // With sprites disabled or none starting at this column,
            // the sprite pixel is the front of the sprite FIFO
            // (transparent when it is empty), so the painted color is
            // fully determined.
            (old(self).state.lcdc.bits & 0x02 == 0 || (forall|i: int|
                0 <= i < old(self).sprite_buffer@.len() ==> (#[trigger] old(self).sprite_buffer@[i]).xpos != old(self).x + 8)) ==> final(self).state.back_frame.pixels@ == old(self).state.back_frame.pixels@.update(
                old(self).state.ly * 160 + old(self).x,
                color::spec_color_rgba(
                    spec_mix_color(
                        old(self).state,
                        pix,
                        (if old(self).sprite_fifo.pixels.data@.len() > 0 {
                            old(self).sprite_fifo.pixels.data@[0]
                        } else {
                            Pixel { color: 0, palette: 0, sprite_priority: false, bg_priority: false }
                        }),
                    ),
                ),
            ),
            // Column bookkeeping: x advances, and the line enters
            // HBlank exactly when its 160th pixel is out.
            final(self).x == old(self).x + 1,
            old(self).x + 1 < 160 ==> final(self).state.stat == old(self).state.stat,
            old(self).x + 1 == 160 ==> spec_stat_mode(final(self).state.stat.bits) == 0,
    {
        // Load the sprites whose left edge is this column.  The fetch
        // runs to completion within the column, so the sprite's pixels
        // are ready for this pop; hardware would instead stall the
        // background FIFO for the same number of dots.
        if self.state.lcdc.obj_enable() {
            let mut i: usize = 0;
            while i < self.sprite_buffer.len()
                invariant
                    self.wf(),
                    self.state == old(self).state,
                    i <= self.sprite_buffer@.len(),
                    self.x == old(self).x,
                    self.dot == old(self).dot,
                    self.sprite_buffer == old(self).sprite_buffer,
                    self.fifo == old(self).fifo,
                    self.state.back_frame == old(self).state.back_frame,
                    (forall|j: int|
                        0 <= j < old(self).sprite_buffer@.len() ==> (#[trigger] old(self).sprite_buffer@[j]).xpos != old(self).x + 8) ==> self.sprite_fifo == old(self).sprite_fifo,
                decreases self.sprite_buffer@.len() - i,
            {
                let s = self.sprite_buffer[i];
                if s.xpos == self.x + 8 {
                    self.sprite_fifo.load_sprite(s);
                    self.sprite_fifo.clock(&self.state);
                    self.sprite_fifo.clock(&self.state);
                    self.sprite_fifo.clock(&self.state);
                    self.sprite_fifo.clock(&self.state);
                }
                i = i + 1;
            }
        }
        let sp = self.sprite_fifo.pop_pixel();

        // Mix: the sprite pixel wins when it is opaque and either has
        // priority or covers background color 0.
        let bg_color: u8 = if self.state.lcdc.bg_enable() {
            pix.color
        } else {
            0
        };
        let id: u8 = if self.state.lcdc.obj_enable() && sp.color != 0 && (!sp.bg_priority
            || bg_color == 0) {
            let pal: u8 = if sp.palette == 1 {
                self.state.obp1
            } else {
                self.state.obp0
            };
            color::calculate_monochrome_color_id(pal, sp.color)
        } else {
            color::calculate_monochrome_color_id(self.state.bgp, bg_color)
        };
        let x = self.x;
        let ly = self.state.ly;
        self.state.put_color_id(id, x as usize, ly as usize);

        // Window trigger: once LY has met WY, entering column WX - 7
        // restarts the fetcher on the window map.
        if self.state.lcdc.window_enable() && self.wy_passed && self.x as u16 + 7
            >= self.state.wx as u16 && !self.inside_window {
            self.fifo.clear();
            self.fifo.set_tile_map_offset(
                TileCounter::Window { x_counter: 0, window_line: self.window_lines },
            );
            self.inside_window = true;
        }

        self.x = self.x + 1;
        if self.x == 160 {
            // The line's pixels are out: enter HBlank.
            self.state.set_mode(0);
            self.fifo.clear();
            self.sprite_fifo = SpritePixelFifo::new();
            if self.inside_window {
                self.window_lines = ((self.window_lines as u32 + 1) % 0x10000) as u16;
            }
        }
    }

    /// Advance the PPU by one T-state of its 456-dot line and
    /// 154-line frame, as [`spec_ppu_t_rel`] states.
    pub fn clock_t_state(&mut self)
        requires
            old(self).wf(),
        ensures
            final(self).wf(),
            spec_ppu_t_rel(*old(self), *final(self)),
    {
        if self.state.ly < 144 {
            if self.dot == 0 {
                self.begin_line();
            }
            if self.dot == 80 {
                // OAM scan is over: start drawing.
                self.state.set_mode(3);
                self.fifo.clear();
                self.fifo.set_tile_map_offset(TileCounter::Bg { x_counter: 0 });
                self.sprite_fifo = SpritePixelFifo::new();
                self.discard = self.state.scx % 8;
                self.x = 0;
            }
            if self.dot >= 80 && self.x < 160 {
                self.mode3_dot();
            }
        }
        if self.dot == 455 {
            self.dot = 0;
            self.advance_line();
        } else {
            self.dot = self.dot + 1;
        }
    }

    /// Serve one M-cycle of bus traffic through the PPU state; the
    /// drawing machinery is untouched.
    pub fn perform_io(&mut self, input: CpuOutputPins, data: &mut u8, interrupt_request: &mut u8)
        requires
            old(self).wf(),
        ensures
            final(self).wf(),
            spec_ppu_io_rel(
                old(self).state,
                final(self).state,
                input,
                *old(data),
                *final(data),
                *old(interrupt_request),
                *final(interrupt_request),
            ),
            *final(self) == (Ppu { state: final(self).state, ..*old(self) }),
    {
        self.state.perform_io(input, data, interrupt_request);
    }

    /// Observe one M-cycle on the bus, then advance by the four
    /// T-states that make up the M-cycle: the bus-port relation
    /// followed by four steps of the T-state relation.
    pub fn clock(&mut self, input: CpuOutputPins, data: &mut u8, interrupt_request: &mut u8)
        requires
            old(self).wf(),
        ensures
            final(self).wf(),
            // The data line is driven exactly as the bus-port relation
            // says, regardless of the four T-states that follow.
            *final(data) == (match input {
                CpuOutputPins::Read { addr } => spec_ppu_data(old(self).state, addr, *old(data)),
                CpuOutputPins::Write { .. } => *old(data),
            }),
            exists|s0: Ppu|
                {
                    &&& #[trigger] spec_ppu_t_steps(s0, *final(self), 4)
                    &&& spec_ppu_io_rel(
                        old(self).state,
                        s0.state,
                        input,
                        *old(data),
                        *final(data),
                        *old(interrupt_request),
                        *final(interrupt_request),
                    )
                    &&& s0 == (Ppu { state: s0.state, ..*old(self) })
                },
    {
        proof {
            reveal(spec_ppu_io_rel);
        }
        self.perform_io(input, data, interrupt_request);
        let ghost s0 = *self;
        self.clock_t_state();
        let ghost s1 = *self;
        self.clock_t_state();
        let ghost s2 = *self;
        self.clock_t_state();
        let ghost s3 = *self;
        self.clock_t_state();
        proof {
            assert(spec_ppu_t_steps(*self, *self, 0));
            assert(spec_ppu_t_steps(s3, *self, 1));
            assert(spec_ppu_t_steps(s2, *self, 2));
            assert(spec_ppu_t_steps(s1, *self, 3));
            assert(spec_ppu_t_steps(s0, *self, 4));
        }
    }

    /// Render the whole tile data as an image for inspection: 16 tiles
    /// per row, 24 rows, scaled up by `scale`.  Returns the pixels with
    /// the image width and height.  The scale bound keeps the pixel
    /// count within a 32-bit address space.
    pub fn display_tile_data(&self, scale: usize) -> (r: (Vec<u32>, usize, usize))
        requires
            self.wf(),
            1 <= scale <= 256,
        ensures
            r.1 == 128 * scale,
            r.2 == 192 * scale,
            r.0@.len() == r.1 * r.2,
    {
        let width: usize = 128 * scale;
        let height: usize = 192 * scale;
        proof {
            assert(width * height <= 1610612736) by (nonlinear_arith)
                requires
                    width == 128 * scale,
                    height == 192 * scale,
                    1 <= scale <= 256,
            ;
        }
        let mut image: Vec<u32> = Vec::new();
        image.resize(width * height, 0u32);
        let bgp = self.state.bgp;
        let mut row: usize = 0;
        while row < 24
            invariant
                self.wf(),
                1 <= scale <= 256,
                width == 128 * scale,
                height == 192 * scale,
                image@.len() == width * height,
                row <= 24,
            decreases 24 - row,
        {
            let mut col: usize = 0;
            while col < 16
                invariant
                    self.wf(),
                    1 <= scale <= 256,
                    width == 128 * scale,
                    height == 192 * scale,
                    image@.len() == width * height,
                    row < 24,
                    col <= 16,
                decreases 16 - col,
            {
                let tile_id: usize = row * 16 + col;
                let mut offy: usize = 0;
                while offy < 8
                    invariant
                        self.wf(),
                        1 <= scale <= 256,
                        width == 128 * scale,
                        height == 192 * scale,
                        image@.len() == width * height,
                        row < 24,
                        col < 16,
                        tile_id == row * 16 + col,
                        offy <= 8,
                    decreases 8 - offy,
                {
                    let row_lo: u8 = self.state.tile_data[tile_id * 16 + 2 * offy];
                    let row_hi: u8 = self.state.tile_data[tile_id * 16 + 2 * offy + 1];
                    let mut offx: usize = 0;
                    while offx < 8
                        invariant
                            self.wf(),
                            1 <= scale <= 256,
                            width == 128 * scale,
                            height == 192 * scale,
                            image@.len() == width * height,
                            row < 24,
                            col < 16,
                            offy < 8,
                            offx <= 8,
                        decreases 8 - offx,
                    {
                        let colorbit_lo: u8 = (row_lo >> ((7 - offx) as u8)) % 2;
                        let colorbit_hi: u8 = (row_hi >> ((7 - offx) as u8)) % 2;
                        let color_id = color::calculate_monochrome_color_id(
                            bgp,
                            colorbit_hi * 2 + colorbit_lo,
                        );
                        let rgba = color::color_rgba(color_id);
                        let mut ypix: usize = 0;
                        while ypix < scale
                            invariant
                                1 <= scale <= 256,
                                width == 128 * scale,
                                height == 192 * scale,
                                image@.len() == width * height,
                                row < 24,
                                col < 16,
                                offy < 8,
                                offx < 8,
                                ypix <= scale,
                            decreases scale - ypix,
                        {
                            proof {
                                assert((8 * row + offy) * scale + ypix < 192 * scale) by (nonlinear_arith)
                                    requires
                                        row < 24,
                                        offy < 8,
                                        ypix < scale,
                                        1 <= scale <= 256,
                                ;
                            }
                            let imgy: usize = (8 * row + offy) * scale + ypix;
                            let mut xpix: usize = 0;
                            while xpix < scale
                                invariant
                                    1 <= scale <= 256,
                                    width == 128 * scale,
                                    height == 192 * scale,
                                    image@.len() == width * height,
                                    row < 24,
                                    col < 16,
                                    offy < 8,
                                    offx < 8,
                                    ypix < scale,
                                    imgy < 192 * scale,
                                    xpix <= scale,
                                decreases scale - xpix,
                            {
                                proof {
                                    assert((8 * col + offx) * scale + xpix < 128 * scale) by (nonlinear_arith)
                                        requires
                                            col < 16,
                                            offx < 8,
                                            xpix < scale,
                                            1 <= scale <= 256,
                                    ;
                                }
                                let imgx: usize = (8 * col + offx) * scale + xpix;
                                proof {
                                    assert(imgy * width + imgx < width * height) by (nonlinear_arith)
                                        requires
                                            imgy < 192 * scale,
                                            imgx < 128 * scale,
                                            width == 128 * scale,
                                            height == 192 * scale,
                                            1 <= scale <= 256,
                                    ;
                                    assert(width * height <= 1610612736) by (nonlinear_arith)
                                        requires
                                            width == 128 * scale,
                                            height == 192 * scale,
                                            1 <= scale <= 256,
                                    ;
                                }
                                let offset: usize = imgy * width + imgx;
                                image.set(offset, rgba);
                                xpix = xpix + 1;
                            }
                            ypix = ypix + 1;
                        }
                        offx = offx + 1;
                    }
                    offy = offy + 1;
                }
                col = col + 1;
            }
            row = row + 1;
        }
        (image, width, height)
    }
}

} // verus!
