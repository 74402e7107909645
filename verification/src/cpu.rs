//! The LR35902 CPU state and its single-cycle register operations.
//!
//! The CPU communicates with the rest of the machine only through pin
//! bundles: each M-cycle it emits one bus operation (a read or a write)
//! and receives the data byte produced by the previous operation together
//! with the five masked interrupt request lines.

use vstd::prelude::*;

use crate::alu;
use crate::decode::FlagCondition;
use crate::decode::LoadDest16Bit;
use crate::decode::MathOperation;
use crate::decode::RotateShiftOperation;
use crate::registers::FRegister;
use crate::registers::Registers;
use crate::registers::spec_f_bits;
use crate::registers::spec_f_from_bits;
use crate::registers::spec_pair;

verus! {

/// The architectural state of the CPU: the register file and the
/// interrupt master enable bit.
#[derive(Clone, Copy, Debug, PartialEq, Eq, Structural)]
pub struct Cpu {
    pub registers: Registers,
    pub ime: bool,
}

/// The bus operation a CPU emits during one M-cycle.
#[derive(Debug, Clone, Copy, PartialEq, Eq, Structural)]
pub enum CpuOutputPins {
    Read { addr: u16 },
    Write { addr: u16, data: u8 },
}

impl CpuOutputPins {
    /// The address driven on the bus, for both reads and writes.
    pub fn addr(&self) -> (r: u16)
        ensures
            r == self.spec_addr(),
    {
        match self {
            CpuOutputPins::Read { addr } => *addr,
            CpuOutputPins::Write { addr, .. } => *addr,
        }
    }

    /// The address driven on the bus.
    pub open spec fn spec_addr(self) -> u16 {
        match self {
            CpuOutputPins::Read { addr } => addr,
            CpuOutputPins::Write { addr, .. } => addr,
        }
    }
}

/// What the CPU receives at the start of an M-cycle: the data byte the
/// bus produced for the previous operation, and one line per interrupt
/// vector, already masked by IE & IF.
#[derive(Debug, Clone, Copy, PartialEq, Eq, Structural)]
pub struct CpuInputPins {
    pub data: u8,
    pub interrupt_40h: bool,
    pub interrupt_48h: bool,
    pub interrupt_50h: bool,
    pub interrupt_58h: bool,
    pub interrupt_60h: bool,
}

impl CpuInputPins {
    /// True if any interrupt line is raised.
    pub fn any_interrupt(&self) -> (r: bool)
        ensures
            r == self.spec_any_interrupt(),
    {
        self.interrupt_40h || self.interrupt_48h || self.interrupt_50h || self.interrupt_58h
            || self.interrupt_60h
    }

    /// True if any interrupt line is raised.
    pub open spec fn spec_any_interrupt(self) -> bool {
        self.interrupt_40h || self.interrupt_48h || self.interrupt_50h || self.interrupt_58h
            || self.interrupt_60h
    }
}

impl Default for CpuInputPins {
    /// All-zero input: data 0, no interrupt lines raised.
    fn default() -> (r: CpuInputPins)
        ensures
            r.data == 0,
            !r.spec_any_interrupt(),
    {
        CpuInputPins {
            data: 0,
            interrupt_40h: false,
            interrupt_48h: false,
            interrupt_50h: false,
            interrupt_58h: false,
            interrupt_60h: false,
        }
    }
}

/// The register file after an ALU operation on the accumulator.
pub open spec fn spec_do_math(regs: Registers, v: u8, op: MathOperation) -> Registers {
    match op {
        MathOperation::Add => Registers {
            a: alu::spec_add_result(regs.a, v, false),
            f: alu::spec_add_flags(regs.a, v, false),
            ..regs
        },
        MathOperation::Adc => Registers {
            a: alu::spec_add_result(regs.a, v, regs.f.c),
            f: alu::spec_add_flags(regs.a, v, regs.f.c),
            ..regs
        },
        MathOperation::Sub => Registers {
            a: alu::spec_sub_result(regs.a, v, false),
            f: alu::spec_sub_flags(regs.a, v, false),
            ..regs
        },
        MathOperation::Sbc => Registers {
            a: alu::spec_sub_result(regs.a, v, regs.f.c),
            f: alu::spec_sub_flags(regs.a, v, regs.f.c),
            ..regs
        },
        MathOperation::And => Registers {
            a: (regs.a & v),
            f: alu::spec_logic_flags((regs.a & v), true),
            ..regs
        },
        MathOperation::Xor => Registers {
            a: (regs.a ^ v),
            f: alu::spec_logic_flags((regs.a ^ v), false),
            ..regs
        },
        MathOperation::Or => Registers {
            a: (regs.a | v),
            f: alu::spec_logic_flags((regs.a | v), false),
            ..regs
        },
        MathOperation::Cp => Registers { f: alu::spec_sub_flags(regs.a, v, false), ..regs },
    }
}

/// Whether a branch condition holds of a flag set.
pub open spec fn spec_test_condition(f: FRegister, c: FlagCondition) -> bool {
    match c {
        FlagCondition::NZ => !f.z,
        FlagCondition::Z => f.z,
        FlagCondition::NC => !f.c,
        FlagCondition::C => f.c,
    }
}

/// The value of a 16-bit register pair; AF reads the flag byte with a
/// zero low nybble.
pub open spec fn spec_read_16(regs: Registers, from: LoadDest16Bit) -> u16 {
    match from {
        LoadDest16Bit::AF => spec_pair(regs.a, spec_f_bits(regs.f)),
        LoadDest16Bit::BC => spec_pair(regs.b, regs.c),
        LoadDest16Bit::DE => spec_pair(regs.d, regs.e),
        LoadDest16Bit::HL => spec_pair(regs.h, regs.l),
        LoadDest16Bit::SP => regs.sp,
    }
}

/// The register file after storing a 16-bit value into a pair; storing
/// into AF discards the low nybble of the flag byte.
pub open spec fn spec_store_16(regs: Registers, v: u16, dest: LoadDest16Bit) -> Registers {
    match dest {
        LoadDest16Bit::AF => Registers {
            a: (v >> 8) as u8,
            f: spec_f_from_bits((v & 0xFF) as u8),
            ..regs
        },
        LoadDest16Bit::BC => Registers { b: (v >> 8) as u8, c: (v & 0xFF) as u8, ..regs },
        LoadDest16Bit::DE => Registers { d: (v >> 8) as u8, e: (v & 0xFF) as u8, ..regs },
        LoadDest16Bit::HL => Registers { h: (v >> 8) as u8, l: (v & 0xFF) as u8, ..regs },
        LoadDest16Bit::SP => Registers { sp: v, ..regs },
    }
}

impl Cpu {
    /// A CPU with zeroed registers and interrupts disabled.
    pub fn new() -> (r: Cpu)
        ensures
            r == (Cpu { registers: Registers::spec_zeroed(), ime: false }),
    {
        Cpu { registers: Registers::new(), ime: false }
    }

    /// A copy of the register file.
    pub fn registers(&self) -> (r: Registers)
        ensures
            r == self.registers,
    {
        self.registers
    }

    /// Emit a read of the byte at PC and advance PC by one, wrapping.
    /// The address on the pins is the value of PC before the increment.
    pub fn fetch_byte(&mut self) -> (r: CpuOutputPins)
        ensures
            r == (CpuOutputPins::Read { addr: old(self).registers.pc }),
            *final(self) == (Cpu {
                registers: Registers {
                    pc: (((old(self).registers.pc + 1) % 0x10000) as u16),
                    ..old(self).registers
                },
                ..*old(self)
            }),
    {
        let pc = self.registers.pc;
        self.registers.pc = ((pc as u32 + 1) % 0x10000) as u16;
        CpuOutputPins::Read { addr: pc }
    }

    /// Emit a write of `data` to `addr`.
    pub fn write_byte(&self, addr: u16, data: u8) -> (r: CpuOutputPins)
        ensures
            r == (CpuOutputPins::Write { addr, data }),
    {
        CpuOutputPins::Write { addr, data }
    }

    /// Emit a read of the byte at `addr`.
    pub fn read_byte(&self, addr: u16) -> (r: CpuOutputPins)
        ensures
            r == (CpuOutputPins::Read { addr }),
    {
        CpuOutputPins::Read { addr }
    }

    /// Emit the pins of an internal cycle: a read of address 0 whose
    /// result is ignored.
    pub fn nop(&self) -> (r: CpuOutputPins)
        ensures
            r == (CpuOutputPins::Read { addr: 0 }),
    {
        CpuOutputPins::Read { addr: 0 }
    }

    /// Store a 16-bit value into a register pair.
    pub fn store_16_bits(&mut self, v: u16, dest: LoadDest16Bit)
        ensures
            final(self).registers == spec_store_16(old(self).registers, v, dest),
            final(self).ime == old(self).ime,
    {
        match dest {
            LoadDest16Bit::AF => self.registers.set_af(v),
            LoadDest16Bit::BC => self.registers.set_bc(v),
            LoadDest16Bit::DE => self.registers.set_de(v),
            LoadDest16Bit::HL => self.registers.set_hl(v),
            LoadDest16Bit::SP => self.registers.sp = v,
        }
    }

    /// Read the value of a 16-bit register pair.
    pub fn read_16_bits(&self, from: LoadDest16Bit) -> (r: u16)
        ensures
            r == spec_read_16(self.registers, from),
    {
        match from {
            LoadDest16Bit::AF => self.registers.get_af(),
            LoadDest16Bit::BC => self.registers.get_bc(),
            LoadDest16Bit::DE => self.registers.get_de(),
            LoadDest16Bit::HL => self.registers.get_hl(),
            LoadDest16Bit::SP => self.registers.sp,
        }
    }

    /// Perform an ALU operation between the accumulator and `v`, storing
    /// the result (except for CP) and the full flag set.
    pub fn do_math(&mut self, v: u8, operation: MathOperation)
        ensures
            final(self).registers == spec_do_math(old(self).registers, v, operation),
            final(self).ime == old(self).ime,
    {
        let a = self.registers.a;
        match operation {
            MathOperation::Add => {
                let (res, f) = alu::alu_add(a, v, false);
                self.registers.a = res;
                self.registers.f = f;
            }
            MathOperation::Adc => {
                let (res, f) = alu::alu_add(a, v, self.registers.f.c);
                self.registers.a = res;
                self.registers.f = f;
            }
            MathOperation::Sub => {
                let (res, f) = alu::alu_sub(a, v, false);
                self.registers.a = res;
                self.registers.f = f;
            }
            MathOperation::Sbc => {
                let (res, f) = alu::alu_sub(a, v, self.registers.f.c);
                self.registers.a = res;
                self.registers.f = f;
            }
            MathOperation::And => {
                let (res, f) = alu::alu_and(a, v);
                self.registers.a = res;
                self.registers.f = f;
            }
            MathOperation::Xor => {
                let (res, f) = alu::alu_xor(a, v);
                self.registers.a = res;
                self.registers.f = f;
            }
            MathOperation::Or => {
                let (res, f) = alu::alu_or(a, v);
                self.registers.a = res;
                self.registers.f = f;
            }
            MathOperation::Cp => {
                let (_res, f) = alu::alu_sub(a, v, false);
                self.registers.f = f;
            }
        }
    }

    /// Rotate or shift `v`, updating the flag register, and return the
    /// result byte.  The incoming carry flag feeds RL and RR.
    pub fn do_rotate_shift(&mut self, v: u8, op: RotateShiftOperation) -> (nv: u8)
        ensures
            nv == alu::spec_rot_result(v, op, old(self).registers.f.c),
            final(self).registers == (Registers {
                f: alu::spec_rot_flags(v, op, old(self).registers.f.c),
                ..old(self).registers
            }),
            final(self).ime == old(self).ime,
    {
        let (nv, f) = alu::alu_rot(v, op, self.registers.f.c);
        self.registers.f = f;
        nv
    }

    /// Test a branch condition against the flag register.
    pub fn test_condition(&self, c: FlagCondition) -> (r: bool)
        ensures
            r == spec_test_condition(self.registers.f, c),
    {
        match c {
            FlagCondition::NZ => !self.registers.f.z,
            FlagCondition::Z => self.registers.f.z,
            FlagCondition::NC => !self.registers.f.c,
            FlagCondition::C => self.registers.f.c,
        }
    }
}

impl Default for Cpu {
    /// A CPU with zeroed registers and interrupts disabled.
    fn default() -> (r: Cpu)
        ensures
            r == (Cpu { registers: Registers::spec_zeroed(), ime: false }),
    {
        Cpu::new()
    }
}

} // verus!
