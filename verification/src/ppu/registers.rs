//! The PPU's control and status registers, and the OAM entry layout.

use vstd::prelude::*;

verus! {

/// The LCD control register at 0xFF40, one flag per bit.
#[derive(Clone, Copy, Debug, PartialEq, Eq, Structural)]
pub struct LCDC {
    pub bits: u8,
}

impl LCDC {
    /// Wrap a raw byte; every bit pattern is meaningful.
    pub fn from_bits_truncate(v: u8) -> (r: LCDC)
        ensures
            r.bits == v,
    {
        LCDC { bits: v }
    }

    /// The raw byte.
    pub fn bits(&self) -> (r: u8)
        ensures
            r == self.bits,
    {
        self.bits
    }

    /// Bit 7: the LCD and PPU are enabled.
    pub fn lcd_enable(&self) -> (r: bool)
        ensures
            r == (self.bits & 0x80 != 0),
    {
        self.bits & 0x80 != 0
    }

    /// Bit 6: the window reads tile map 2.
    pub fn window_tilemap_area(&self) -> (r: bool)
        ensures
            r == (self.bits & 0x40 != 0),
    {
        self.bits & 0x40 != 0
    }

    /// Bit 5: the window is displayed.
    pub fn window_enable(&self) -> (r: bool)
        ensures
            r == (self.bits & 0x20 != 0),
    {
        self.bits & 0x20 != 0
    }

    /// Bit 4: background tile numbers index tile data from 0x8000
    /// unsigned rather than from 0x9000 signed.
    pub fn bg_tile_data_area(&self) -> (r: bool)
        ensures
            r == (self.bits & 0x10 != 0),
    {
        self.bits & 0x10 != 0
    }

    /// Bit 3: the background reads tile map 2.
    pub fn bg_tilemap_area(&self) -> (r: bool)
        ensures
            r == (self.bits & 0x08 != 0),
    {
        self.bits & 0x08 != 0
    }

    /// Bit 2: sprites are 8x16 rather than 8x8.
    pub fn obj_size(&self) -> (r: bool)
        ensures
            r == (self.bits & 0x04 != 0),
    {
        self.bits & 0x04 != 0
    }

    /// Bit 1: sprites are displayed.
    pub fn obj_enable(&self) -> (r: bool)
        ensures
            r == (self.bits & 0x02 != 0),
    {
        self.bits & 0x02 != 0
    }

    /// Bit 0: the background is displayed.
    pub fn bg_enable(&self) -> (r: bool)
        ensures
            r == (self.bits & 0x01 != 0),
    {
        self.bits & 0x01 != 0
    }
}

impl Default for LCDC {
    /// All bits clear.
    fn default() -> (r: LCDC)
        ensures
            r.bits == 0,
    {
        LCDC { bits: 0 }
    }
}

/// The PPU status register at 0xFF41: interrupt-source enables in bits
/// 3 to 6, the LYC coincidence flag in bit 2, and the mode in bits 0
/// and 1.
#[derive(Clone, Copy, Debug, PartialEq, Eq, Structural)]
pub struct STAT {
    pub bits: u8,
}

/// The mode field of a STAT byte.
pub open spec fn spec_stat_mode(bits: u8) -> u8 {
    (bits % 4) as u8
}

impl STAT {
    /// Wrap a raw byte.
    pub fn from_bits_truncate(v: u8) -> (r: STAT)
        ensures
            r.bits == v,
    {
        STAT { bits: v }
    }

    /// The raw byte.
    pub fn bits(&self) -> (r: u8)
        ensures
            r == self.bits,
    {
        self.bits
    }

    /// The mode field (0 HBlank, 1 VBlank, 2 OAM scan, 3 drawing).
    pub fn mode(&self) -> (r: u8)
        ensures
            r == spec_stat_mode(self.bits),
            r < 4,
    {
        self.bits % 4
    }

    /// Replace the mode field, leaving every other bit alone.
    pub fn set_mode(&mut self, mode: u8)
        requires
            mode < 4,
        ensures
            final(self).bits == (old(self).bits / 4) * 4 + mode,
            spec_stat_mode(final(self).bits) == mode,
            final(self).bits / 4 == old(self).bits / 4,
    {
        self.bits = (self.bits / 4) * 4 + mode;
    }

    /// Replace the LYC coincidence flag (bit 2), leaving every other
    /// bit alone.
    pub fn set_lyc_equals_ly(&mut self, v: bool)
        ensures
            final(self).spec_lyc_equals_ly() == v,
            spec_stat_mode(final(self).bits) == spec_stat_mode(old(self).bits),
            final(self).bits / 8 == old(self).bits / 8,
    {
        let low: u8 = self.bits % 4;
        let high: u8 = (self.bits / 8) * 8;
        self.bits = high + (if v {
            4
        } else {
            0
        }) + low;
    }

    /// Bit 2: LY currently equals LYC.
    pub open spec fn spec_lyc_equals_ly(&self) -> bool {
        (self.bits / 4) % 2 == 1
    }

    /// Bit 2: LY currently equals LYC.
    pub fn lyc_equals_ly(&self) -> (r: bool)
        ensures
            r == self.spec_lyc_equals_ly(),
    {
        (self.bits / 4) % 2 == 1
    }

    /// Bit 6: the LYC coincidence raises the STAT interrupt.
    pub fn lyc_interrupt_enable(&self) -> (r: bool)
        ensures
            r == ((self.bits / 64) % 2 == 1),
    {
        (self.bits / 64) % 2 == 1
    }

    /// Bit 5: entering OAM scan raises the STAT interrupt.
    pub fn oam_interrupt_enable(&self) -> (r: bool)
        ensures
            r == ((self.bits / 32) % 2 == 1),
    {
        (self.bits / 32) % 2 == 1
    }

    /// Bit 4: entering VBlank raises the STAT interrupt.
    pub fn vblank_interrupt_enable(&self) -> (r: bool)
        ensures
            r == ((self.bits / 16) % 2 == 1),
    {
        (self.bits / 16) % 2 == 1
    }

    /// Bit 3: entering HBlank raises the STAT interrupt.
    pub fn hblank_interrupt_enable(&self) -> (r: bool)
        ensures
            r == ((self.bits / 8) % 2 == 1),
    {
        (self.bits / 8) % 2 == 1
    }
}

impl Default for STAT {
    /// All bits clear.
    fn default() -> (r: STAT)
        ensures
            r.bits == 0,
    {
        STAT { bits: 0 }
    }
}

/// One of the forty sprite descriptors in OAM.
#[derive(Clone, Copy, Debug, PartialEq, Eq, Structural)]
pub struct OamEntry {
    /// Sprite top edge plus 16.
    pub ypos: u8,
    /// Sprite left edge plus 8.
    pub xpos: u8,
    /// Tile number.
    pub tile: u8,
    /// Flag byte: bit 7 background priority, bit 6 Y flip, bit 5 X
    /// flip, bit 4 palette select.
    pub flags: u8,
}

impl OamEntry {
    /// An all-zero entry.
    pub fn zeroed() -> (r: OamEntry)
        ensures
            r == (OamEntry { ypos: 0, xpos: 0, tile: 0, flags: 0 }),
    {
        OamEntry { ypos: 0, xpos: 0, tile: 0, flags: 0 }
    }

    /// Bit 7: the background draws over this sprite except where the
    /// background pixel is color 0.
    pub fn bg_priority(&self) -> (r: bool)
        ensures
            r == (self.flags & 0x80 != 0),
    {
        self.flags & 0x80 != 0
    }

    /// Bit 6: the sprite is flipped vertically.
    pub fn y_flip(&self) -> (r: bool)
        ensures
            r == (self.flags & 0x40 != 0),
    {
        self.flags & 0x40 != 0
    }

    /// Bit 5: the sprite is flipped horizontally.
    pub fn x_flip(&self) -> (r: bool)
        ensures
            r == (self.flags & 0x20 != 0),
    {
        self.flags & 0x20 != 0
    }

    /// Bit 4: the sprite uses palette OBP1 rather than OBP0.
    pub fn palette_obp1(&self) -> (r: bool)
        ensures
            r == (self.flags & 0x10 != 0),
    {
        self.flags & 0x10 != 0
    }
}

impl Default for OamEntry {
    /// An all-zero entry.
    fn default() -> (r: OamEntry)
        ensures
            r == (OamEntry { ypos: 0, xpos: 0, tile: 0, flags: 0 }),
    {
        OamEntry::zeroed()
    }
}

} // verus!
