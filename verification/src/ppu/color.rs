//! The four-tone DMG palette and palette-register lookups.

use vstd::prelude::*;

verus! {

/// White, as RGBA little-endian.
pub const COLOR_WHITE: u32 = 0xFFFFFFFF;

/// Light gray.
pub const COLOR_LIGHTGRAY: u32 = 0xFFAAAAAA;

/// Dark gray.
pub const COLOR_DARKGRAY: u32 = 0xFF777777;

/// Black.
pub const COLOR_BLACK: u32 = 0xFF000000;

/// The RGBA value of a color id: 0 white, 1 light gray, 2 dark gray,
/// 3 black.
pub open spec fn spec_color_rgba(id: u8) -> u32 {
    if id == 0 {
        COLOR_WHITE
    } else if id == 1 {
        COLOR_LIGHTGRAY
    } else if id == 2 {
        COLOR_DARKGRAY
    } else {
        COLOR_BLACK
    }
}

/// The RGBA value of a color id.
pub fn color_rgba(id: u8) -> (r: u32)
    ensures
        r == spec_color_rgba(id),
{
    if id == 0 {
        COLOR_WHITE
    } else if id == 1 {
        COLOR_LIGHTGRAY
    } else if id == 2 {
        COLOR_DARKGRAY
    } else {
        COLOR_BLACK
    }
}

/// The color id a palette register maps a two-bit pixel value to: the
/// pair of palette bits at position 2 * pix.
pub open spec fn spec_palette_lookup(palette: u8, pix: u8) -> u8 {
    (((palette as int) / (if pix == 0 {
        1int
    } else if pix == 1 {
        4int
    } else if pix == 2 {
        16int
    } else {
        64int
    })) % 4) as u8
}

/// Translate a two-bit pixel value through a palette register (BGP,
/// OBP0 or OBP1), yielding a color id.
pub fn calculate_monochrome_color_id(palette: u8, pix: u8) -> (r: u8)
    requires
        pix < 4,
    ensures
        r == spec_palette_lookup(palette, pix),
        r < 4,
{
    let div: u8 = if pix == 0 {
        1
    } else if pix == 1 {
        4
    } else if pix == 2 {
        16
    } else {
        64
    };
    (palette / div) % 4
}

/// Translate a two-bit pixel value through a palette register straight
/// to its RGBA color.
pub fn calculate_monochrome_color(palette: u8, pix: u8) -> (r: u32)
    requires
        pix < 4,
    ensures
        r == spec_color_rgba(spec_palette_lookup(palette, pix)),
{
    let id = calculate_monochrome_color_id(palette, pix);
    color_rgba(id)
}

} // verus!
