//! End-to-end scenarios: pin-level CPU traces, interrupt dispatch,
//! timer overflow, joypad edges, frame pulls, and construction errors.

use gb_core::cpu::{Cpu, CpuInputPins, CpuOutputPins};
use gb_core::gameboy::Gameboy;
use gb_core::joypad::{Button, Joypad};
use gb_core::memory::Memory;
use gb_core::ppu::registers::LCDC;
use gb_core::ppu::{color, Ppu};
use gb_core::timer::Timer;

fn quiet(data: u8) -> CpuInputPins {
    CpuInputPins {
        data,
        interrupt_40h: false,
        interrupt_48h: false,
        interrupt_50h: false,
        interrupt_58h: false,
        interrupt_60h: false,
    }
}

/// A minimal valid ROM-only image.
fn rom_image(mapper: u8) -> Vec<u8> {
    let mut rom = vec![0u8; 0x8000];
    rom[0x147] = mapper;
    rom
}

/// CPU fed NOPs: the pin output walks the address bus one byte per
/// cycle thanks to the fetch/execute overlap.
#[test]
fn nop_overlap() {
    let mut cpu = Cpu::default().runner();
    let out = cpu.clock(quiet(0x00)).pins;
    assert_eq!(out, CpuOutputPins::Read { addr: 0 });
    let out = cpu.clock(quiet(0x00)).pins;
    assert_eq!(out, CpuOutputPins::Read { addr: 1 });
    let out = cpu.clock(quiet(0x00)).pins;
    assert_eq!(out, CpuOutputPins::Read { addr: 2 });
}

/// LD A,imm / LD HL,imm / LD (HL),A produces exactly the expected bus
/// write.
#[test]
fn ld_then_store() {
    let code: [u8; 6] = [0x3E, 0xA5, 0x21, 0x55, 0xAA, 0x77];
    let mut cpu = Cpu::default().runner();
    let mut last: u16 = 0;
    let mut seen_write: Option<(u16, u8)> = None;
    for _ in 0..16 {
        let data = if (last as usize) < code.len() { code[last as usize] } else { 0 };
        let out = cpu.clock(quiet(data)).pins;
        match out {
            CpuOutputPins::Read { addr } => last = addr,
            CpuOutputPins::Write { addr, data } => {
                seen_write = Some((addr, data));
                break;
            }
        }
    }
    assert_eq!(seen_write, Some((0xAA55, 0xA5)));
}

/// ADD A,B with A=0x0F and B=0x01: result 0x10, H set, Z/N/C clear.
#[test]
fn add_flags() {
    let mut cpu = Cpu::default();
    cpu.registers.a = 0x0F;
    cpu.registers.b = 0x01;
    let mut cpu = cpu.runner();
    cpu.clock(quiet(0x00));
    // Deliver the ADD A,B opcode; the work happens on the overlap cycle.
    cpu.clock(quiet(0x80));
    assert_eq!(cpu.cpu.registers.a, 0x10);
    assert_eq!(cpu.cpu.registers.f.bits(), 0x20);
}

/// ADD HL,BC with HL=0x00FF, BC=0x0001: HL=0x0100, H set, N clear,
/// Z unchanged, C clear.
#[test]
fn add_hl_flags() {
    let mut cpu = Cpu::default();
    cpu.registers.set_hl(0x00FF);
    cpu.registers.set_bc(0x0001);
    let mut cpu = cpu.runner();
    cpu.clock(quiet(0x00));
    cpu.clock(quiet(0x09));
    // The 16-bit add spends one internal cycle.
    cpu.clock(quiet(0x00));
    assert_eq!(cpu.cpu.registers.get_hl(), 0x0100);
    assert_eq!(cpu.cpu.registers.f.bits(), 0x20);
}

/// Interrupt dispatch: with IME set and line 0 raised, the CPU idles
/// twice, pushes PC high then low, and fetches from vector 0x40 on the
/// fifth cycle, with IME cleared and the acknowledge naming bit 0.
#[test]
fn interrupt_dispatch() {
    let mut cpu = Cpu::default();
    cpu.registers.pc = 0x0200;
    cpu.registers.sp = 0xFFFE;
    cpu.ime = true;
    let mut cpu = cpu.runner();
    let line = CpuInputPins {
        data: 0,
        interrupt_40h: true,
        interrupt_48h: false,
        interrupt_50h: false,
        interrupt_58h: false,
        interrupt_60h: false,
    };

    // Cycle 1: dispatch begins with an idle cycle and the acknowledge.
    let y1 = cpu.clock(line);
    assert_eq!(y1.interrupt_ack, Some(0));
    assert!(!y1.is_fetch_cycle);
    // Cycle 2: idle.
    let y2 = cpu.clock(line);
    assert!(matches!(y2.pins, CpuOutputPins::Read { .. }));
    // Cycle 3: push PC high at 0xFFFD.
    let y3 = cpu.clock(line);
    assert_eq!(y3.pins, CpuOutputPins::Write { addr: 0xFFFD, data: 0x02 });
    // Cycle 4: push PC low at 0xFFFC.
    let y4 = cpu.clock(line);
    assert_eq!(y4.pins, CpuOutputPins::Write { addr: 0xFFFC, data: 0x00 });
    assert_eq!(cpu.cpu.registers.sp, 0xFFFC);
    // Cycle 5: fetch the first handler byte from 0x0040.
    let y5 = cpu.clock(quiet(0));
    assert_eq!(y5.pins, CpuOutputPins::Read { addr: 0x0040 });
    assert!(y5.is_fetch_cycle);
    assert!(!cpu.cpu.ime);
}

/// Through the whole machine: a pending, enabled interrupt's IF bit is
/// cleared by the dispatch, and the lowest-index bit is the one served.
#[test]
fn interrupt_priority_full_machine() {
    let mut gb = Gameboy::new(rom_image(0)).unwrap();
    gb.reset();
    gb.cpu.cpu.ime = true;
    gb.interrupt_enable = 0x1F;
    // Bits 1 and 3 pending: bit 1 must be served.
    gb.interrupt_request = 0x0A;
    gb.cpu_input = CpuInputPins {
        data: 0,
        interrupt_40h: false,
        interrupt_48h: true,
        interrupt_50h: false,
        interrupt_58h: true,
        interrupt_60h: false,
    };
    gb.clock();
    assert_eq!(gb.interrupt_request, 0x08);
    assert!(!gb.cpu.cpu.ime);
}

/// A uniform color-3 background yields an all-black frame with the
/// identity palette.
#[test]
fn ppu_single_color_frame_black() {
    let mut ppu = Ppu::new();
    ppu.state.lcdc = LCDC::from_bits_truncate(0x91);
    ppu.state.bgp = 0b11100100;
    for i in 0..16 {
        ppu.state.tile_data[i] = 0xFF;
    }
    for i in 0..0x400 {
        ppu.state.bg_map_1[i] = 0;
    }
    for _ in 0..70224 {
        ppu.clock_t_state();
    }
    let frame = ppu.get_frame();
    for pix in frame.pixels.iter() {
        assert_eq!(*pix, 0xFF000000);
    }
}

/// Two frame pulls with no clocking in between are identical.
#[test]
fn frame_pull_idempotent() {
    let mut ppu = Ppu::new();
    ppu.state.lcdc = LCDC::from_bits_truncate(0x91);
    for i in 0..16 {
        ppu.state.tile_data[i] = 0xFF;
    }
    for _ in 0..70224 {
        ppu.clock_t_state();
    }
    let f1 = ppu.get_frame();
    let f2 = ppu.get_frame();
    assert_eq!(f1.pixels, f2.pixels);
}

/// Timer overflow: TAC = 0b101 (enabled, every 16 T-states), TIMA
/// preloaded to 0xFF and TMA to 0x12: sixteen T-states later TIMA has
/// reloaded from TMA and interrupt bit 2 is requested.
#[test]
fn timer_overflow() {
    let mut t = Timer::new();
    let mut data: u8 = 0xFF;
    let mut ir: u8 = 0;
    t.clock(CpuOutputPins::Write { addr: 0xFF07, data: 0b101 }, &mut data, &mut ir);
    t.clock(CpuOutputPins::Write { addr: 0xFF06, data: 0x12 }, &mut data, &mut ir);
    t.clock(CpuOutputPins::Write { addr: 0xFF05, data: 0xFF }, &mut data, &mut ir);
    assert_eq!(ir, 0);
    // The fourth M-cycle brings DIV to 16: TIMA overflows and reloads.
    t.clock(CpuOutputPins::Read { addr: 0x0000 }, &mut data, &mut ir);
    assert_eq!(ir, 0b100);
    t.clock(CpuOutputPins::Read { addr: 0xFF05 }, &mut data, &mut ir);
    assert_eq!(data, 0x12);
}

/// Joypad edge: direction row selected, no button down; pressing Up
/// raises interrupt bit 4 exactly once.
#[test]
fn joypad_edge() {
    let mut j = Joypad::new();
    let mut data: u8 = 0xFF;
    let mut ir: u8 = 0;
    // Select the direction row (bit 4 low, bit 5 high).
    j.clock(CpuOutputPins::Write { addr: 0xFF00, data: 0x20 }, &mut data, &mut ir);
    j.clock(CpuOutputPins::Read { addr: 0x0000 }, &mut data, &mut ir);
    assert_eq!(ir, 0);
    j.press(Button::Up);
    j.clock(CpuOutputPins::Read { addr: 0x0000 }, &mut data, &mut ir);
    assert_eq!(ir, 0x10);
    // Holding the button raises no further edge.
    ir = 0;
    j.clock(CpuOutputPins::Read { addr: 0x0000 }, &mut data, &mut ir);
    assert_eq!(ir, 0);
}

/// The joypad register reads back the selected row's buttons, active
/// low.
#[test]
fn joypad_rows_read_back() {
    let mut j = Joypad::new();
    let mut data: u8 = 0xFF;
    let mut ir: u8 = 0;
    j.press(Button::Start);
    // Select the action row (bit 5 low).
    j.clock(CpuOutputPins::Write { addr: 0xFF00, data: 0x10 }, &mut data, &mut ir);
    j.clock(CpuOutputPins::Read { addr: 0xFF00 }, &mut data, &mut ir);
    // Start is bit 3 of the action row, active low.
    assert_eq!(data & 0x0F, 0b0111);
}

/// Work RAM and its echo alias each other, and high RAM round-trips.
#[test]
fn memory_echo_and_round_trip() {
    let mut m = Memory::new();
    let mut data: u8 = 0xFF;
    let mut ir: u8 = 0;
    m.clock(CpuOutputPins::Write { addr: 0xC123, data: 0x5A }, &mut data, &mut ir);
    m.clock(CpuOutputPins::Read { addr: 0xE123 }, &mut data, &mut ir);
    assert_eq!(data, 0x5A);
    m.clock(CpuOutputPins::Write { addr: 0xFDFF, data: 0xA7 }, &mut data, &mut ir);
    m.clock(CpuOutputPins::Read { addr: 0xDDFF }, &mut data, &mut ir);
    assert_eq!(data, 0xA7);
    m.clock(CpuOutputPins::Write { addr: 0xFF80, data: 0x33 }, &mut data, &mut ir);
    m.clock(CpuOutputPins::Read { addr: 0xFF80 }, &mut data, &mut ir);
    assert_eq!(data, 0x33);
}

/// VRAM and OAM round-trip through the PPU's bus port.
#[test]
fn ppu_vram_oam_round_trip() {
    let mut ppu = Ppu::new();
    let mut data: u8 = 0xFF;
    let mut ir: u8 = 0;
    ppu.perform_io(CpuOutputPins::Write { addr: 0x8000, data: 0x11 }, &mut data, &mut ir);
    ppu.perform_io(CpuOutputPins::Read { addr: 0x8000 }, &mut data, &mut ir);
    assert_eq!(data, 0x11);
    ppu.perform_io(CpuOutputPins::Write { addr: 0x9BFF, data: 0x22 }, &mut data, &mut ir);
    ppu.perform_io(CpuOutputPins::Read { addr: 0x9BFF }, &mut data, &mut ir);
    assert_eq!(data, 0x22);
    ppu.perform_io(CpuOutputPins::Write { addr: 0x9C00, data: 0x33 }, &mut data, &mut ir);
    ppu.perform_io(CpuOutputPins::Read { addr: 0x9C00 }, &mut data, &mut ir);
    assert_eq!(data, 0x33);
    ppu.perform_io(CpuOutputPins::Write { addr: 0xFE9F, data: 0x44 }, &mut data, &mut ir);
    ppu.perform_io(CpuOutputPins::Read { addr: 0xFE9F }, &mut data, &mut ir);
    assert_eq!(data, 0x44);
}

/// Construction rejects a short image and an unknown mapper id, and
/// accepts the four supported ids.
#[test]
fn rom_loader_errors() {
    assert_eq!(Gameboy::new(vec![0u8; 0x100]).err(), Some("Invalid ROM file"));
    assert_eq!(Gameboy::new(rom_image(5)).err(), Some("Invalid ROM file"));
    assert!(Gameboy::new(rom_image(0)).is_ok());
    assert!(Gameboy::new(rom_image(1)).is_ok());
    assert!(Gameboy::new(rom_image(2)).is_ok());
    assert!(Gameboy::new(rom_image(3)).is_ok());
}

/// MBC1 bank switching: the low bank register selects what appears in
/// the switchable window, and a zero register reads as bank 1.
#[test]
fn mbc1_bank_switching() {
    let mut rom = vec![0u8; 0x4000 * 4];
    rom[0x147] = 1;
    rom[0x4000] = 0xB1;
    rom[0x8000] = 0xB2;
    rom[0xC000] = 0xB3;
    let mut gb = Gameboy::new(rom).unwrap();
    let mut data: u8 = 0xFF;
    let mut ir: u8 = 0;
    // Bank register 0 aliases bank 1.
    gb.cart.clock(CpuOutputPins::Read { addr: 0x4000 }, &mut data, &mut ir);
    assert_eq!(data, 0xB1);
    gb.cart.clock(CpuOutputPins::Write { addr: 0x2000, data: 2 }, &mut data, &mut ir);
    gb.cart.clock(CpuOutputPins::Read { addr: 0x4000 }, &mut data, &mut ir);
    assert_eq!(data, 0xB2);
    gb.cart.clock(CpuOutputPins::Write { addr: 0x2000, data: 3 }, &mut data, &mut ir);
    gb.cart.clock(CpuOutputPins::Read { addr: 0x4000 }, &mut data, &mut ir);
    assert_eq!(data, 0xB3);
}

/// MBC1 external RAM: disabled reads return 0xFF; once enabled, the
/// window round-trips.
#[test]
fn mbc1_ram_enable() {
    let mut rom = vec![0u8; 0x8000];
    rom[0x147] = 2;
    let mut gb = Gameboy::new(rom).unwrap();
    let mut data: u8 = 0xFF;
    let mut ir: u8 = 0;
    gb.cart.clock(CpuOutputPins::Write { addr: 0xA000, data: 0x77 }, &mut data, &mut ir);
    gb.cart.clock(CpuOutputPins::Read { addr: 0xA000 }, &mut data, &mut ir);
    assert_eq!(data, 0xFF);
    // The low nybble 0xA enables the RAM window.
    gb.cart.clock(CpuOutputPins::Write { addr: 0x0000, data: 0x0A }, &mut data, &mut ir);
    gb.cart.clock(CpuOutputPins::Write { addr: 0xA000, data: 0x77 }, &mut data, &mut ir);
    gb.cart.clock(CpuOutputPins::Read { addr: 0xA000 }, &mut data, &mut ir);
    assert_eq!(data, 0x77);
}

/// Whole-machine smoke run: NOPs from a ROM, stepping by instruction;
/// IF reads have the upper three bits set.
#[test]
fn machine_step_and_if_read() {
    let mut gb = Gameboy::new(rom_image(0)).unwrap();
    gb.reset();
    for _ in 0..8 {
        gb.step_instruction();
    }
    // The CPU has been fetching NOPs from 0x100 onward.
    assert!(gb.cpu.cpu.registers.pc > 0x100);
    assert!(gb.cpu.cpu.registers.pc < 0x200);

    // An IF read drives the undefined upper three bits high: run
    // LDH A,(0x0F) from the ROM and inspect the accumulator.
    let mut rom = rom_image(0);
    rom[0x100] = 0xF0;
    rom[0x101] = 0x0F;
    let mut gb2 = Gameboy::new(rom).unwrap();
    gb2.reset();
    gb2.interrupt_request = 0x05;
    gb2.step_instruction();
    gb2.step_instruction();
    assert_eq!(gb2.cpu.cpu.registers.a, 0xE5);
}

/// The flag register's byte encoding always has a zero low nybble.
#[test]
fn flag_register_low_nybble() {
    let mut cpu = Cpu::default();
    cpu.registers.set_af(0xABCD);
    // The low nybble of the stored flag byte is discarded.
    assert_eq!(cpu.registers.get_af(), 0xABC0);
    assert_eq!(cpu.registers.f.bits() & 0x0F, 0);
}

/// DAA corrects a BCD addition: 0x19 + 0x28 = 0x41 decimal 47.
#[test]
fn daa_bcd_addition() {
    let code = vec![
        0x21, 0x55, 0xAA, // LD HL, $AA55
        0x3E, 0x19, // LD A, $19
        0x06, 0x28, // LD B, $28
        0x80, // ADD A,B
        0x27, // DAA
        0x77, // LD (HL), A
    ];
    let mut cpu = Cpu::default().runner();
    let mut last: u16 = 0;
    let mut seen: Option<u8> = None;
    for _ in 0..40 {
        let data = if (last as usize) < code.len() { code[last as usize] } else { 0 };
        let out = cpu.clock(quiet(data)).pins;
        match out {
            CpuOutputPins::Read { addr } => last = addr,
            CpuOutputPins::Write { addr, data } => {
                if addr == 0xAA55 {
                    seen = Some(data);
                    break;
                }
                last = addr;
            }
        }
    }
    assert_eq!(seen, Some(0x47));
}

/// HALT idles the bus until an interrupt line rises, then execution
/// resumes with the next fetch.
#[test]
fn halt_wakes_on_interrupt() {
    let mut cpu = Cpu::default().runner();
    cpu.clock(quiet(0x00));
    // Deliver HALT: the CPU stops fetching.
    let y = cpu.clock(quiet(0x76));
    assert!(!y.is_fetch_cycle);
    for _ in 0..8 {
        let y = cpu.clock(quiet(0x00));
        assert!(!y.is_fetch_cycle);
    }
    // A pending (enabled) interrupt with IME clear resumes execution
    // without dispatching.
    let line = CpuInputPins {
        data: 0,
        interrupt_40h: true,
        interrupt_48h: false,
        interrupt_50h: false,
        interrupt_58h: false,
        interrupt_60h: false,
    };
    let y = cpu.clock(line);
    assert!(y.is_fetch_cycle);
    assert_eq!(y.interrupt_ack, None);
}

/// EI takes effect one instruction later: a pending interrupt is not
/// dispatched at EI's own overlap cycle, only after the following
/// instruction.
#[test]
fn ei_takes_effect_one_instruction_later() {
    let line = CpuInputPins {
        data: 0,
        interrupt_40h: true,
        interrupt_48h: false,
        interrupt_50h: false,
        interrupt_58h: false,
        interrupt_60h: false,
    };
    let mut cpu = Cpu::default().runner();
    cpu.clock(line);
    // EI: still no dispatch on its overlap cycle.
    let y = cpu.clock(CpuInputPins { data: 0xFB, ..line });
    assert_eq!(y.interrupt_ack, None);
    assert!(y.is_fetch_cycle);
    // The following instruction (a NOP) completes; the dispatch begins
    // in place of the fetch after it.
    let y = cpu.clock(CpuInputPins { data: 0x00, ..line });
    assert_eq!(y.interrupt_ack, Some(0));
}

/// An undefined opcode traps the CPU: it holds its state and emits no
/// further bus activity.
#[test]
fn undefined_opcode_traps() {
    let mut cpu = Cpu::default().runner();
    cpu.clock(quiet(0x00));
    let y = cpu.clock(quiet(0xD3));
    assert!(!y.is_fetch_cycle);
    assert!(cpu.is_trapped());
    let pc = cpu.cpu.registers.pc;
    for _ in 0..4 {
        let y = cpu.clock(quiet(0x00));
        assert!(!y.is_fetch_cycle);
        assert_eq!(y.pins, CpuOutputPins::Read { addr: 0 });
    }
    assert_eq!(cpu.cpu.registers.pc, pc);
}

/// A sprite's opaque pixels draw over the background, translated
/// through its object palette.
#[test]
fn sprite_over_background() {
    let mut ppu = Ppu::new();
    // LCD on, background and sprites enabled, unsigned tile data.
    ppu.state.lcdc = LCDC::from_bits_truncate(0x93);
    ppu.state.bgp = 0b11100100;
    ppu.state.obp0 = 0b11100100;
    // Tile 0 stays color 0 (the background); tile 1 is solid color 3.
    for i in 16..32 {
        ppu.state.tile_data[i] = 0xFF;
    }
    // One sprite at the screen origin showing tile 1.
    ppu.state.oam[0] = 16; // ypos: top edge at line 0
    ppu.state.oam[1] = 8; // xpos: left edge at column 0
    ppu.state.oam[2] = 1; // tile
    ppu.state.oam[3] = 0; // flags
    for _ in 0..70224 {
        ppu.clock_t_state();
    }
    let frame = ppu.get_frame();
    // The sprite covers the first eight columns of the first eight
    // lines; everything else shows background color 0.
    assert_eq!(frame.pixels[0], color::COLOR_BLACK);
    assert_eq!(frame.pixels[7], color::COLOR_BLACK);
    assert_eq!(frame.pixels[8], color::COLOR_WHITE);
    assert_eq!(frame.pixels[7 * 160], color::COLOR_BLACK);
    assert_eq!(frame.pixels[8 * 160], color::COLOR_WHITE);
}

/// The tile-data view has the advertised dimensions and scales.
#[test]
fn tile_data_view_dimensions() {
    let mut ppu = Ppu::new();
    ppu.state.bgp = 0b11100100;
    for i in 0..16 {
        ppu.state.tile_data[i] = 0xFF;
    }
    let (img, w, h) = ppu.display_tile_data(1);
    assert_eq!((w, h), (128, 192));
    assert_eq!(img.len(), 128 * 192);
    // Tile 0 renders color 3 at the top-left corner.
    assert_eq!(img[0], color::COLOR_BLACK);
    assert_eq!(img[8], color::COLOR_WHITE);
    let (img2, w2, h2) = ppu.display_tile_data(2);
    assert_eq!((w2, h2), (256, 384));
    assert_eq!(img2.len(), 256 * 384);
    assert_eq!(img2[0], color::COLOR_BLACK);
}

/// A frame decomposes into 144 rows of 160 pixels.
#[test]
fn frame_rows() {
    let ppu = Ppu::new();
    let frame = ppu.get_frame();
    let rows = frame.rows();
    assert_eq!(rows.len(), 144);
    assert_eq!(rows[0].len(), 160);
    assert_eq!(rows[143][159], frame.pixels[143 * 160 + 159]);
}

/// CB operations on the (HL) operand: SET writes the bit back to
/// memory, RL shifts through carry, and BIT reports the tested bit in
/// the Z flag with H raised and C preserved.
#[test]
fn cb_ops_on_memory() {
    let code = vec![
        0x21, 0x20, 0x00, // LD HL, $0020
        0xCB, 0xC6, // SET 0, (HL)
        0xCB, 0x16, // RL (HL)
        0xCB, 0x46, // BIT 0, (HL)
        0x7E, // LD A, (HL)
        0x21, 0x55, 0xAA, // LD HL, $AA55
        0x77, // LD (HL), A
        0x00, 0x00, 0x00, 0x00, 0x00, 0x00, 0x00, 0x00, 0x00, 0x00, 0x00, 0x00, 0x00, 0x00, 0x00,
        0x00, 0x00, 0x00, // padding up to $0020
        0x80, // the byte the CB operations work on
    ];
    let mut cpu = Cpu::default().runner();
    let mut memory = code;
    let mut last: u16 = 0;
    let mut to_write: Option<u8> = None;
    let mut seen: Option<(u8, u8)> = None;
    for _ in 0..120 {
        let data: u8 = if last == 0xAA55 {
            0
        } else {
            let idx = last as usize;
            if idx >= memory.len() {
                break;
            }
            if let Some(d) = to_write {
                memory[idx] = d;
                0
            } else {
                memory[idx]
            }
        };
        let out = cpu.clock(quiet(data)).pins;
        match out {
            CpuOutputPins::Read { addr } => {
                last = addr;
                to_write = None;
            }
            CpuOutputPins::Write { addr, data } => {
                last = addr;
                to_write = Some(data);
                if addr == 0xAA55 {
                    seen = Some((cpu.cpu.registers.f.bits(), data));
                    break;
                }
            }
        }
    }
    // SET 0 turns 0x80 into 0x81; RL shifts in the clear carry and
    // ejects bit 7, leaving 0x02 with C set; BIT 0 finds the bit clear
    // (Z follows the masked byte), raises H and keeps C.
    assert_eq!(seen, Some((0x30, 0x02)));
    assert_eq!(memory[0x20], 0x02);
}

/// PUSH AF stores the flag byte with its zero low nybble, and POP into
/// another pair reads it back exactly.
#[test]
fn push_pop_af_masks_low_nybble() {
    let code = vec![
        0x21, 0x55, 0xAA, // LD HL, $AA55
        0x31, 0x80, 0x00, // LD SP, $0080
        0x3E, 0xAB, // LD A, $AB
        0x37, // SCF
        0xF5, // PUSH AF
        0xC1, // POP BC
        0x71, // LD (HL), C
        0x70, // LD (HL), B
    ];
    let mut memory = code;
    memory.resize(0x80, 0);
    let mut cpu = Cpu::default().runner();
    let mut last: u16 = 0;
    let mut to_write: Option<u8> = None;
    let mut outputs: Vec<(u8, u8)> = Vec::new();
    for _ in 0..200 {
        let data: u8 = if last == 0xAA55 {
            0
        } else {
            let idx = last as usize;
            if idx >= memory.len() {
                break;
            }
            if let Some(d) = to_write {
                memory[idx] = d;
                0
            } else {
                memory[idx]
            }
        };
        let out = cpu.clock(quiet(data)).pins;
        match out {
            CpuOutputPins::Read { addr } => {
                last = addr;
                to_write = None;
            }
            CpuOutputPins::Write { addr, data } => {
                last = addr;
                to_write = Some(data);
                if addr == 0xAA55 {
                    outputs.push((cpu.cpu.registers.f.bits(), data));
                }
            }
        }
    }
    assert_eq!(outputs, vec![(0x10, 0x10), (0x10, 0xAB)]);
}

/// PPU register semantics over the bus: LY is read-only, a LYC write
/// refreshes the coincidence bit, a STAT write stores only the
/// interrupt enables, and the LYC coincidence edge requests the STAT
/// interrupt.
#[test]
fn ppu_register_semantics() {
    let mut ppu = Ppu::new();
    let mut data: u8 = 0xFF;
    let mut ir: u8 = 0;

    // LY starts at 0 and ignores writes.
    ppu.perform_io(CpuOutputPins::Write { addr: 0xFF44, data: 77 }, &mut data, &mut ir);
    ppu.perform_io(CpuOutputPins::Read { addr: 0xFF44 }, &mut data, &mut ir);
    assert_eq!(data, 0);

    // LY == LYC == 0, so the coincidence bit reads back raised.
    ppu.perform_io(CpuOutputPins::Read { addr: 0xFF41 }, &mut data, &mut ir);
    assert_eq!(data & 0x04, 0x04);

    // Moving LYC away clears it; moving it back raises it again.
    ppu.perform_io(CpuOutputPins::Write { addr: 0xFF45, data: 5 }, &mut data, &mut ir);
    ppu.perform_io(CpuOutputPins::Read { addr: 0xFF41 }, &mut data, &mut ir);
    assert_eq!(data & 0x04, 0);

    // A STAT write stores bits 3 to 6 only; the coincidence bit and the
    // mode are untouched.
    ppu.perform_io(CpuOutputPins::Write { addr: 0xFF41, data: 0xFF }, &mut data, &mut ir);
    ppu.perform_io(CpuOutputPins::Read { addr: 0xFF41 }, &mut data, &mut ir);
    assert_eq!(data & 0x78, 0x78);
    assert_eq!(data & 0x04, 0);

    // With only the LYC interrupt enabled, restoring the coincidence
    // raises the STAT request (IF bit 1) on its rising edge.
    ppu.perform_io(CpuOutputPins::Write { addr: 0xFF41, data: 0x40 }, &mut data, &mut ir);
    ir = 0;
    ppu.perform_io(CpuOutputPins::Write { addr: 0xFF45, data: 0 }, &mut data, &mut ir);
    assert_eq!(ir & 0x02, 0x02);
}

/// A write to the OAM DMA register copies the named page into OAM at
/// once; here a work-RAM page carries a recognizable pattern.
#[test]
fn oam_dma_copies_page() {
    let mut rom = rom_image(0);
    // LD A,0xC2 / LDH (0x46),A at the entry point.
    rom[0x100] = 0x3E;
    rom[0x101] = 0xC2;
    rom[0x102] = 0xE0;
    rom[0x103] = 0x46;
    let mut gb = Gameboy::new(rom).unwrap();
    gb.reset();
    let mut scratch: u8 = 0xFF;
    let mut ir: u8 = 0;
    for i in 0..0xA0u16 {
        gb.memory.clock(
            CpuOutputPins::Write { addr: 0xC200 + i, data: (i as u8) ^ 0x5A },
            &mut scratch,
            &mut ir,
        );
    }
    gb.step_instruction();
    gb.step_instruction();
    gb.step_instruction();
    for i in 0..0xA0usize {
        assert_eq!(gb.ppu.state.oam[i], (i as u8) ^ 0x5A);
    }
}

/// The OAM copy also reads ROM pages: tile indices laid out in ROM
/// land in OAM.
#[test]
fn oam_dma_from_rom_page() {
    let mut rom = rom_image(0);
    // LD A,0x02 / LDH (0x46),A: copy page 0x0200 of ROM into OAM.
    rom[0x100] = 0x3E;
    rom[0x101] = 0x02;
    rom[0x102] = 0xE0;
    rom[0x103] = 0x46;
    for i in 0..0xA0usize {
        rom[0x200 + i] = (i as u8).wrapping_mul(3);
    }
    let mut gb = Gameboy::new(rom).unwrap();
    gb.reset();
    gb.step_instruction();
    gb.step_instruction();
    gb.step_instruction();
    for i in 0..0xA0usize {
        assert_eq!(gb.ppu.state.oam[i], (i as u8).wrapping_mul(3));
    }
}

/// Stepping across a HALT waits until an enabled interrupt request
/// breaks it; with IME clear the CPU resumes without dispatching.
#[test]
fn step_instruction_crosses_halt() {
    let mut rom = rom_image(0);
    rom[0x100] = 0x76; // HALT
    let mut gb = Gameboy::new(rom).unwrap();
    gb.reset();
    // Enable the timer interrupt and the fastest prescaler via the
    // bus-visible registers, then halt.
    gb.interrupt_enable = 0x04;
    let mut data: u8 = 0xFF;
    let mut ir: u8 = 0;
    gb.timer.clock(
        CpuOutputPins::Write { addr: 0xFF07, data: 0b101 },
        &mut data,
        &mut ir,
    );
    // Fetch and decode the HALT.
    assert!(gb.step_instruction());
    // The next step spans the whole wait until the timer overflow
    // raises IF bit 2 and the fetch resumes.
    assert!(gb.step_instruction());
    assert!(gb.cpu.cpu.registers.pc > 0x100);
}
