//! Frame-level PPU tests: fill the tile data with known colors, run
//! whole frames, and check the palette translation of every pixel.

use gb_core::ppu::color;
use gb_core::ppu::registers::LCDC;
use gb_core::ppu::Ppu;

/// One whole frame: 154 lines of 456 T-states.
const FRAME_T_CYCLES: usize = 70224;

/// LCDC::LCD_ENABLE | LCDC::BG_ENABLE | LCDC::BG_TILE_DATA_AREA.
const LCDC_BITS: u8 = 0x80 | 0x01 | 0x10;

fn set_tile_singlecolor(ppu: &mut Ppu, tile_idx: usize, color: u8) {
    assert!(color <= 3);

    let offset = tile_idx * 16;
    let color_high = color >> 1;
    let color_low = color & 1;
    for i in 0..16 {
        if i % 2 == 0 {
            ppu.state.tile_data[offset + i] = 0xff * color_low;
        } else {
            ppu.state.tile_data[offset + i] = 0xff * color_high;
        }
    }
}

fn advance_frame(ppu: &mut Ppu) {
    for _ in 0..FRAME_T_CYCLES {
        ppu.clock_t_state();
    }
}

#[test]
fn ppu_singlecolor() {
    let mut ppu = Ppu::new();

    for i in 0..0x400 {
        ppu.state.bg_map_1[i] = 0;
    }
    ppu.state.lcdc = LCDC::from_bits_truncate(LCDC_BITS);
    ppu.state.bgp = 0b11100100;

    for color in [0b00, 0b01, 0b10, 0b11] {
        println!("color: {:b}", color);
        set_tile_singlecolor(&mut ppu, 0, color);
        advance_frame(&mut ppu);
        let frame = ppu.get_frame();
        let expected = color::calculate_monochrome_color(ppu.state.bgp, color);
        for pix in frame.pixels.iter() {
            assert_eq!(*pix, expected);
        }
    }
}

#[test]
fn ppu_bgp() {
    let mut ppu = Ppu::new();

    ppu.state.lcdc = LCDC::from_bits_truncate(LCDC_BITS);
    set_tile_singlecolor(&mut ppu, 0, 0b00);
    set_tile_singlecolor(&mut ppu, 1, 0b01);
    set_tile_singlecolor(&mut ppu, 2, 0b10);
    set_tile_singlecolor(&mut ppu, 3, 0b11);
    for i in 0..0x400 {
        ppu.state.bg_map_1[i] = (i % 4) as u8;
    }

    for bgp in 0..=0xFF {
        ppu.state.bgp = bgp;
        advance_frame(&mut ppu);

        let frame = ppu.get_frame();

        for color in 0..=3u8 {
            // Tiles are eight pixels wide.
            let i = color as usize * 8;
            assert_eq!(frame.pixels[i], color::calculate_monochrome_color(bgp, color));
        }
    }
}

#[test]
fn calculate_monochrome_color() {
    let tests: Vec<(u8, Vec<(u8, u8)>)> = vec![
        (
            0b11100100,
            vec![(0b00, 0b00), (0b01, 0b01), (0b10, 0b10), (0b11, 0b11)],
        ),
        (
            0b00011011,
            vec![(0b00, 0b11), (0b01, 0b10), (0b10, 0b01), (0b11, 0b00)],
        ),
    ];

    for (bgp, cases) in tests {
        for (color, expected) in cases {
            let actual = color::calculate_monochrome_color_id(bgp, color);
            assert_eq!(
                expected, actual,
                "bgp: {:b}, color: {:b}, expected: {:X}, actual: {:X}",
                bgp, color, expected, actual
            );
        }
    }
}

/// As `ppu_singlecolor`, exercising the RGBA-returning palette lookup.
#[test]
fn ppu_monochrome_ppu_singlecolor() {
    let mut ppu = Ppu::new();

    for i in 0..0x400 {
        ppu.state.bg_map_1[i] = 0;
    }
    ppu.state.lcdc = LCDC::from_bits_truncate(LCDC_BITS);
    ppu.state.bgp = 0b11100100;

    for color in [0b00, 0b01, 0b10, 0b11] {
        println!("color: {:b}", color);
        set_tile_singlecolor(&mut ppu, 0, color);
        advance_frame(&mut ppu);
        let frame = ppu.get_frame();
        let expected = color::calculate_monochrome_color(ppu.state.bgp, color);
        for pix in frame.pixels.iter() {
            assert_eq!(*pix, expected);
        }
    }
}

/// As `ppu_bgp`, exercising the RGBA-returning palette lookup.
#[test]
fn ppu_monochrome_ppu_bgp() {
    let mut ppu = Ppu::new();

    ppu.state.lcdc = LCDC::from_bits_truncate(LCDC_BITS);
    set_tile_singlecolor(&mut ppu, 0, 0b00);
    set_tile_singlecolor(&mut ppu, 1, 0b01);
    set_tile_singlecolor(&mut ppu, 2, 0b10);
    set_tile_singlecolor(&mut ppu, 3, 0b11);
    for i in 0..0x400 {
        ppu.state.bg_map_1[i] = (i % 4) as u8;
    }

    for bgp in 0..=0xFF {
        ppu.state.bgp = bgp;
        advance_frame(&mut ppu);

        let frame = ppu.get_frame();

        for color in 0..=3u8 {
            let i = color as usize * 8;
            assert_eq!(frame.pixels[i], color::calculate_monochrome_color(bgp, color));
        }
    }
}
