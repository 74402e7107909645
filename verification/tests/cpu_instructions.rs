//! Instruction-level tests: each runs a small machine-code program on a
//! bare CPU runner and records every byte the program stores to the
//! result address 0xAA55, together with the flag register at that
//! moment.

use gb_core::cpu::{Cpu, CpuInputPins, CpuOutputPins};

pub const RESULT_ADDR: u16 = 0xAA55;

/// Why a program run stopped.
#[derive(Debug, PartialEq, Eq)]
pub enum TestEnd {
    /// The CPU accessed an address outside the loaded code.
    OutOfRangeAccess(u16, u16),
    /// The cycle budget ran out.
    MaxCyclesReached,
}

pub struct InstructionTest {
    pub cpu: Cpu,
    pub code: Vec<u8>,
    pub code_offset: u16,
}

impl InstructionTest {
    pub fn new(init_cpu: Cpu, code: Vec<u8>, code_offset: u16) -> Self {
        InstructionTest { cpu: init_cpu, code, code_offset }
    }

    /// Run the CPU against the loaded code and collect every write to
    /// the result address as (flag bits, byte).  The run ends when the
    /// CPU leaves the loaded code or the cycle budget is exhausted.
    pub fn run(self, max_cycles: Option<u64>) -> (Vec<(u8, u8)>, TestEnd) {
        let mut outputs: Vec<(u8, u8)> = Vec::new();
        let mut memory = self.code;
        let code_offset = self.code_offset;
        let mut cpu = self.cpu.runner();
        let mut last_access: u16 = code_offset;
        let mut to_write: Option<u8> = None;
        let mut cycles: u64 = 0;
        loop {
            let addr = last_access;
            let data: u8 = if addr == RESULT_ADDR {
                // Reads and writes of the result address touch no memory.
                0
            } else if let Some(d) = to_write {
                let idx = addr.wrapping_sub(code_offset) as usize;
                if idx >= memory.len() {
                    return (outputs, TestEnd::OutOfRangeAccess(cpu.cpu.registers.pc, addr));
                }
                memory[idx] = d;
                0
            } else {
                let idx = addr.wrapping_sub(code_offset) as usize;
                if idx >= memory.len() {
                    return (outputs, TestEnd::OutOfRangeAccess(cpu.cpu.registers.pc, addr));
                }
                memory[idx]
            };

            let out = cpu.clock(CpuInputPins {
                data,
                interrupt_40h: false,
                interrupt_48h: false,
                interrupt_50h: false,
                interrupt_58h: false,
                interrupt_60h: false,
            }).pins;
            cycles += 1;
            if cycles >= max_cycles.unwrap_or(u64::MAX) {
                return (outputs, TestEnd::MaxCyclesReached);
            }

            match out {
                CpuOutputPins::Read { addr } => {
                    last_access = addr;
                    to_write = None;
                }
                CpuOutputPins::Write { addr, data } => {
                    last_access = addr;
                    to_write = Some(data);
                }
            }

            if last_access == RESULT_ADDR {
                if let Some(d) = to_write {
                    outputs.push((cpu.cpu.registers.f.bits(), d));
                }
            }
        }
    }
}

const F_EMPTY: u8 = 0x00;
const F_Z: u8 = 0x80;
const F_N: u8 = 0x40;
const F_H: u8 = 0x20;
const F_C: u8 = 0x10;

fn run_flags(code: Vec<u8>) -> Vec<(u8, u8)> {
    let tester = InstructionTest::new(Cpu::default(), code, 0);
    let (outputs, _end) = tester.run(None);
    outputs
}

#[test]
fn nop() {
    let cpu = Cpu::default();

    let mut cpu = cpu.runner();

    // Should fetch the first instruction.
    assert!(matches!(
        cpu.clock(CpuInputPins { data: 0, ..Default::default() }).pins,
        CpuOutputPins::Read { addr: 0 }
    ));

    // Received NOP; the fetch/execute overlap fetches the next opcode
    // immediately.
    assert!(matches!(
        cpu.clock(CpuInputPins { data: 0x00, ..Default::default() }).pins,
        CpuOutputPins::Read { addr: 1 }
    ));
}

#[test]
fn load() {
    let code = vec![
        0x3E, 0xA5, // LD A, $A5
        0x21, 0x55, 0xAA, // LD HL, $AA55
        0x77, // LD (HL), A
    ];

    let tester = InstructionTest::new(Cpu::default(), code, 0);
    let (outputs, _end) = tester.run(None);
    let values: Vec<u8> = outputs.iter().map(|t| t.1).collect();
    assert_eq!(values, vec![0xA5]);
}

#[test]
fn add() {
    let code = vec![
        0x21, 0x55, 0xAA, // LD HL, $AA55
        0x3E, 12, // LD A, 12
        0x06, 17, // LD B, 17
        0x80, // ADD A,B
        0x77, // LD (HL), A
        0x3E, 0xFF, // LD A, $FF
        0x06, 1, // LD B, 1
        0x80, // ADD A,B
        0x77, // LD (HL), A
        0x3E, 0x0F, // LD A, $F
        0x06, 1, // LD B, 1
        0x80, // ADD A,B
        0x77, // LD (HL), A
    ];

    assert_eq!(
        run_flags(code),
        vec![(F_EMPTY, 29), (F_Z | F_C | F_H, 0), (F_H, 16)]
    );
}

#[test]
fn adc() {
    let code = vec![
        0x21, 0x55, 0xAA, // LD HL, $AA55
        0x3E, 12, // LD A, 12
        0x06, 17, // LD B, 17
        0x88, // ADC A,B
        0x77, // LD (HL), A
        0x3E, 0xFF, // LD A, $FF
        0x06, 1, // LD B, 1
        0x88, // ADC A,B
        0x77, // LD (HL), A
        0x3E, 0x0F, // LD A, $F
        0x06, 1, // LD B, 1
        0x88, // ADC A,B
        0x77, // LD (HL), A
        0x3E, 0xFF, // LD A, $FF
        0x06, 1, // LD B, 1
        0x88, // ADC A,B
        0x77, // LD (HL), A
        0x3E, 1, // LD A, 1
        0x06, 0xFF, // LD B, $FF
        0x88, // ADC A,B
        0x77, // LD (HL), A
    ];

    assert_eq!(
        run_flags(code),
        vec![
            (F_EMPTY, 29),
            (F_Z | F_C | F_H, 0),
            (F_H, 17),
            (F_Z | F_C | F_H, 0),
            (F_C | F_H, 1),
        ]
    );
}

// The borrow flags follow the architectural rule: H is the borrow from
// bit 4 and C the borrow from bit 7, raised when the subtrahend's
// nybble or byte exceeds the minuend's.
#[test]
fn sub() {
    let code = vec![
        0x21, 0x55, 0xAA, // LD HL, $AA55
        0x3E, 17, // LD A, 17
        0x06, 12, // LD B, 12
        0x90, // SUB B
        0x77, // LD (HL), A
        0x3E, 0, // LD A, 0
        0x06, 1, // LD B, 1
        0x90, // SUB B
        0x77, // LD (HL), A
        0x3E, 0x10, // LD A, $10
        0x06, 1, // LD B, 1
        0x90, // SUB B
        0x77, // LD (HL), A
        0x3E, 5, // LD A, 5
        0x06, 5, // LD B, 5
        0x90, // SUB B
        0x77, // LD (HL), A
    ];

    assert_eq!(
        run_flags(code),
        vec![
            (F_N | F_H, 5),
            (F_N | F_H | F_C, 0xFF),
            (F_N | F_H, 15),
            (F_N | F_Z, 0),
        ]
    );
}

// For each pair, load the operands, add them into HL, and store the
// result bytes little-endian at the result address.
fn perform_add(a: u16, b: u16) -> Vec<u8> {
        let a_lo = (a & 0xff) as u8;
        let b_lo = (b & 0xff) as u8;
        let a_hi = (a >> 8) as u8;
        let b_hi = (b >> 8) as u8;

    vec![
        0x21, a_lo, a_hi, // LD HL, a
        0x01, b_lo, b_hi, // LD BC, b
        0x09, // ADD HL, BC
        0x54, // LD D, H
        0x5D, // LD E, L
        0x21, 0x55, 0xAA, // LD HL, $AA55
        0x73, // LD (HL), E
        0x72, // LD (HL), D
    ]
}

#[test]
fn add_hl() {
    let additions: [(u16, u16, u16, u8); 5] = [
        (0x0105, 0x010B, 0x0210, F_EMPTY),
        (0x00FF, 0x0001, 0x0100, F_H),
        (0xFFFF, 0x0001, 0x0000, F_H | F_C),
        (0xFF00, 0x0100, 0x0000, F_C),
        (0xFFFF, 0xFFFF, 0xFFFE, F_H | F_C),
    ];

    let mut code: Vec<u8> = Vec::new();
    let mut compare_against: Vec<(u8, u8)> = Vec::new();
    for (a, b, r, f) in additions.iter() {
        code.extend_from_slice(&perform_add(*a, *b));
        compare_against.push((*f, (r & 0xff) as u8));
        compare_against.push((*f, (r >> 8) as u8));
    }

    assert_eq!(run_flags(code), compare_against);
}

#[test]
fn inc() {
    let code = vec![
        0x21, 0x55, 0xAA, // LD HL, $AA55
        0x3E, 0x1E, // LD A, $1E
        0x3C, // INC A
        0x77, // LD (HL), A
        0x3C, // INC A
        0x77, // LD (HL), A
        0x3E, 0xFF, // LD A, $FF
        0x3C, // INC A
        0x77, // LD (HL), A
    ];

    assert_eq!(
        run_flags(code),
        vec![(F_EMPTY, 0x1F), (F_H, 0x20), (F_Z | F_H, 0)]
    );
}

// DEC raises H exactly when the low nybble borrows, that is when it was
// zero before the decrement.
#[test]
fn dec() {
    let code = vec![
        0x21, 0x55, 0xAA, // LD HL, $AA55
        0x3E, 0x21, // LD A, $21
        0x3D, // DEC A
        0x77, // LD (HL), A
        0x3D, // DEC A
        0x77, // LD (HL), A
        0x3E, 0x01, // LD A, $01
        0x3D, // DEC A
        0x77, // LD (HL), A
        0x3D, // DEC A
        0x77, // LD (HL), A
    ];

    assert_eq!(
        run_flags(code),
        vec![
            (F_N, 0x20),
            (F_N | F_H, 0x1F),
            (F_N | F_Z, 0),
            (F_N | F_H, 0xFF),
        ]
    );
}

#[test]
fn inc_dec_16_bit() {
    let inc_checks: Vec<(u16, u16)> = vec![(0x0123, 0x0124), (0x01FF, 0x0200), (0xFFFF, 0x0000)];
    let dec_checks: Vec<(u16, u16)> = vec![(0x0123, 0x0122), (0x0200, 0x01FF), (0x0000, 0xFFFF)];

    let mut code = vec![
        0x21, 0x55, 0xAA, // LD HL, $AA55
    ];

    for (i, _) in inc_checks.iter() {
        let lo = (i & 0xFF) as u8;
        let hi = (i >> 8) as u8;
        code.extend_from_slice(&[
            0x01, lo, hi, // LD BC, i
            0x03, // INC BC
            0x71, // LD (HL), C
            0x70, // LD (HL), B
        ]);
    }

    for (i, _) in dec_checks.iter() {
        let lo = (i & 0xFF) as u8;
        let hi = (i >> 8) as u8;
        code.extend_from_slice(&[
            0x01, lo, hi, // LD BC, i
            0x0B, // DEC BC
            0x71, // LD (HL), C
            0x70, // LD (HL), B
        ]);
    }

    let mut compare_against: Vec<(u8, u8)> = Vec::new();
    for (_, o) in inc_checks.iter().chain(dec_checks.iter()) {
        compare_against.push((F_EMPTY, (o & 0xff) as u8));
        compare_against.push((F_EMPTY, (o >> 8) as u8));
    }

    assert_eq!(run_flags(code), compare_against);
}

#[test]
fn jp() {
    let code = vec![
        0x21, 0x55, 0xAA, // LD HL, $AA55
        0x3E, 0x00, // LD A, $00
        0xC3, 0x0A, 0x00, // JP .jp1
        0x3E, 0xFF, // LD A, $FF
        // .jp1
        0x77, // LD (HL), A
    ];

    assert_eq!(run_flags(code), vec![(F_EMPTY, 0)]);
}

#[test]
fn jp_conditional() {
    let code = vec![
        0x21, 0x55, 0xAA, 0xAF, 0x06, 0x00, 0xCA, 0x0B, 0x00, 0x06, 0xFF, 0x70, 0xF6, 0xFF, 0x06,
        0xFF, 0xCA, 0x15, 0x00, 0x06, 0x00, 0x70, 0xAF, 0x06, 0xFF, 0xC2, 0x1E, 0x00, 0x06, 0x00,
        0x70, 0xF6, 0xFF, 0x06, 0x00, 0xC2, 0x28, 0x00, 0x06, 0xFF, 0x70, 0x37, 0x06, 0x00, 0xDA,
        0x31, 0x00, 0x06, 0xFF, 0x70, 0x37, 0x3F, 0x06, 0xFF, 0xDA, 0x3B, 0x00, 0x06, 0x00, 0x70,
        0x37, 0x06, 0xFF, 0xD2, 0x44, 0x00, 0x06, 0x00, 0x70, 0x37, 0x3F, 0x06, 0x00, 0xD2, 0x4E,
        0x00, 0x06, 0xFF, 0x70,
    ];

    let tester = InstructionTest::new(Cpu::default(), code, 0);
    let (outputs, end) = tester.run(Some(1000));
    assert!(end != TestEnd::MaxCyclesReached);
    for (_f, d) in outputs.iter() {
        assert_eq!(*d, 0);
    }
}

#[test]
fn call_ret() {
    let code = vec![
        0x21, 0x00, 0x01, 0xF9, 0x21, 0x55, 0xAA, 0xC3, 0x10, 0x00, 0x06, 0x00, 0xC9, 0x06, 0xFF,
        0xC9, 0x06, 0xFF, 0xCD, 0x0A, 0x00, 0x70, 0xAF, 0x06, 0xFF, 0xCC, 0x0A, 0x00, 0x70, 0x06,
        0x00, 0xC4, 0x0D, 0x00, 0x70, 0x3C, 0x06, 0x00, 0xCC, 0x0D, 0x00, 0x70, 0x06, 0xFF, 0xC4,
        0x0A, 0x00, 0x70, 0x37, 0x06, 0xFF, 0xDC, 0x0A, 0x00, 0x70, 0x06, 0x00, 0xD4, 0x0D, 0x00,
        0x70, 0x3F, 0x06, 0x00, 0xCC, 0x0D, 0x00, 0x70, 0x06, 0xFF, 0xC4, 0x0A, 0x00, 0x70, 0x00,
        0x00, 0x00, 0x00, 0x00, 0x00, 0x00, 0x00, 0x00, 0x00, 0x00, 0x00, 0x00, 0x00, 0x00, 0x00,
        0x00, 0x00, 0x00, 0x00, 0x00, 0x00, 0x00, 0x00, 0x00, 0x00, 0x00, 0x00, 0x00, 0x00, 0x00,
        0x00, 0x00, 0x00, 0x00, 0x00, 0x00, 0x00, 0x00, 0x00, 0x00, 0x00, 0x00, 0x00, 0x00, 0x00,
        0x00, 0x00, 0x00, 0x00, 0x00, 0x00, 0x00, 0x00, 0x00, 0x00, 0x00, 0x00, 0x00, 0x00, 0x00,
        0x00, 0x00, 0x00, 0x00, 0x00, 0x00, 0x00, 0x00, 0x00, 0x00, 0x00, 0x00, 0x00, 0x00, 0x00,
        0x00, 0x00, 0x00, 0x00, 0x00, 0x00, 0x00, 0x00, 0x00, 0x00, 0x00, 0x00, 0x00, 0x00, 0x00,
        0x00, 0x00, 0x00, 0x00, 0x00, 0x00, 0x00, 0x00, 0x00, 0x00, 0x00, 0x00, 0x00, 0x00, 0x00,
        0x00, 0x00, 0x00, 0x00, 0x00, 0x00, 0x00, 0x00, 0x00, 0x00, 0x00, 0x00, 0x00, 0x00, 0x00,
        0x00, 0x00, 0x00, 0x00, 0x00, 0x00, 0x00, 0x00, 0x00, 0x00, 0x00, 0x00, 0x00, 0x00, 0x00,
        0x00, 0x00, 0x00, 0x00, 0x00, 0x00, 0x00, 0x00, 0x00, 0x00, 0x00, 0x00, 0x00, 0x00, 0x00,
        0x00, 0x00, 0x00, 0x00, 0x00, 0x00, 0x00, 0x00, 0x00, 0x00, 0x00, 0x00, 0x00, 0x00, 0x00,
        0x00, 0x00, 0x00, 0x00, 0x00, 0x00, 0x00, 0x00, 0x00, 0x00, 0x00, 0x00, 0x00, 0x00, 0x00,
        0x00,
    ];

    let tester = InstructionTest::new(Cpu::default(), code, 0);
    let (outputs, end) = tester.run(None);
    let values: Vec<u8> = outputs.iter().map(|o| o.1).collect();
    assert_eq!(
        values,
        vec![0x00, 0x00, 0x00, 0x00, 0x00, 0x00, 0x00, 0x00, 0x00],
        "end: {:?}",
        end
    );
}

#[test]
fn jr() {
    let code = vec![
        0x21, 0x55, 0xAA, 0xAF, 0x06, 0x00, 0x28, 0x02, 0x06, 0xFF, 0x70, 0xF6, 0xFF, 0x06, 0xFF,
        0x28, 0x02, 0x06, 0x00, 0x70, 0xAF, 0x06, 0xFF, 0x20, 0x02, 0x06, 0x00, 0x70, 0xF6, 0xFF,
        0x06, 0x00, 0x20, 0x02, 0x06, 0xFF, 0x70, 0x37, 0x06, 0x00, 0x38, 0x02, 0x06, 0xFF, 0x70,
        0x37, 0x3F, 0x06, 0xFF, 0x38, 0x02, 0x06, 0x00, 0x70, 0x37, 0x06, 0xFF, 0x30, 0x02, 0x06,
        0x00, 0x70, 0x37, 0x3F, 0x06, 0x00, 0x30, 0x02, 0x06, 0xFF, 0x70, 0xC3, 0xAF, 0x00, 0x00,
        0x00, 0x00, 0x00, 0x00, 0x00, 0x00, 0x00, 0x00, 0x00, 0x00, 0x00, 0x00, 0x00, 0x00, 0x00,
        0x00, 0x00, 0x00, 0x00, 0x00, 0x00, 0x00, 0x00, 0x00, 0x00, 0x00, 0x00, 0x00, 0x00, 0x00,
        0x00, 0x00, 0x00, 0x00, 0x00, 0x00, 0x00, 0x00, 0x00, 0x00, 0x00, 0x00, 0x00, 0x00, 0x00,
        0x00, 0x00, 0x00, 0x00, 0x00, 0x00, 0x00, 0x00, 0x00, 0x00, 0x00, 0x00, 0x00, 0x00, 0x00,
        0x00, 0x00, 0x00, 0x00, 0x00, 0x00, 0x00, 0x00, 0x00, 0x00, 0x00, 0x00, 0x00, 0x00, 0x00,
        0x00, 0x00, 0x00, 0x00, 0x00, 0x00, 0x00, 0x00, 0x00, 0x00, 0x00, 0x00, 0x00, 0x00, 0x00,
        0x00, 0x00, 0x00, 0x00, 0x00, 0x00, 0x00, 0x00, 0x00, 0x00, 0x18, 0x4E, 0x06, 0x20, 0x70,
        0xC3, 0x04, 0x01, 0x00, 0x00, 0x00, 0x00, 0x00, 0x00, 0x00, 0x00, 0x00, 0x00, 0x00, 0x00,
        0x00, 0x00, 0x00, 0x00, 0x00, 0x00, 0x00, 0x00, 0x00, 0x00, 0x00, 0x00, 0x00, 0x00, 0x00,
        0x00, 0x00, 0x00, 0x00, 0x00, 0x00, 0x00, 0x00, 0x00, 0x00, 0x00, 0x00, 0x00, 0x00, 0x00,
        0x00, 0x00, 0x00, 0x00, 0x00, 0x00, 0x00, 0x00, 0x00, 0x00, 0x00, 0x00, 0x00, 0x00, 0x00,
        0x00, 0x00, 0x00, 0x00, 0x00, 0x00, 0x00, 0x00, 0x00, 0x00, 0x00, 0x00, 0x00, 0x00, 0x00,
        0x06, 0x10, 0x70, 0x18, 0xAD,
    ];

    let tester = InstructionTest::new(Cpu::default(), code, 0);
    let (outputs, _end) = tester.run(None);
    let values: Vec<u8> = outputs.iter().map(|o| o.1).collect();
    assert_eq!(
        values,
        vec![0x00, 0x00, 0x00, 0x00, 0x00, 0x00, 0x00, 0x00, 0x10, 0x20]
    );
}
