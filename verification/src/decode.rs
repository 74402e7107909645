//! Instruction decoding for the LR35902.
//!
//! An opcode byte XXYYYZZZ is read as three octal digits: x is the top two
//! bits, y the middle three and z the low three; p = y >> 1 and q = y & 1.
//! The digits index small lookup tables that select registers, register
//! pairs, ALU operations, rotate operations and branch conditions.

use vstd::prelude::*;

verus! {

/// An opcode byte, read as the octal digits XXYYYZZZ.
#[derive(Clone, Copy, PartialEq, Eq, Structural, Debug)]
pub struct Opcode(pub u8);

impl Opcode {
    /// The first octal digit (bits 6 and 7).
    pub fn x(&self) -> (r: u8)
        ensures
            r == self.0 >> 6,
            r < 4,
    {
        proof {
            let b = self.0;
            assert(b >> 6 < 4) by (bit_vector);
        }
        self.0 >> 6
    }

    /// The second octal digit (bits 3 to 5).
    pub fn y(&self) -> (r: u8)
        ensures
            r == (self.0 & 0x38) >> 3,
            r < 8,
    {
        proof {
            let b = self.0;
            assert((b & 0x38) >> 3 < 8) by (bit_vector);
        }
        (self.0 & 0x38) >> 3
    }

    /// The third octal digit (bits 0 to 2).
    pub fn z(&self) -> (r: u8)
        ensures
            r == self.0 & 0x07,
            r < 8,
    {
        proof {
            let b = self.0;
            assert(b & 0x07 < 8) by (bit_vector);
        }
        self.0 & 0x07
    }

    /// The top two bits of the second octal digit.
    pub fn p(&self) -> (r: u8)
        ensures
            r == ((self.0 & 0x38) >> 3) >> 1,
            r < 4,
    {
        proof {
            let b = self.0;
            assert(((b & 0x38) >> 3) >> 1 < 4) by (bit_vector);
        }
        ((self.0 & 0x38) >> 3) >> 1
    }

    /// The low bit of the second octal digit.
    pub fn q(&self) -> (r: u8)
        ensures
            r == ((self.0 & 0x38) >> 3) & 1,
            r < 2,
    {
        proof {
            let b = self.0;
            assert(((b & 0x38) >> 3) & 1 < 2) by (bit_vector);
        }
        ((self.0 & 0x38) >> 3) & 1
    }
}

/// The eight ALU operations on the accumulator, in opcode order.
#[derive(Clone, Copy, Debug, PartialEq, Eq, Structural)]
pub enum MathOperation {
    Add,
    Adc,
    Sub,
    Sbc,
    And,
    Xor,
    Or,
    Cp,
}

/// An 8-bit operand location: one of the seven registers or the byte at
/// the address in HL.
#[derive(Clone, Copy, Debug, PartialEq, Eq, Structural)]
pub enum LoadDest {
    B,
    C,
    D,
    E,
    H,
    L,
    IndHL,
    A,
}

/// A 16-bit register pair.
#[derive(Clone, Copy, Debug, PartialEq, Eq, Structural)]
pub enum LoadDest16Bit {
    AF,
    BC,
    DE,
    HL,
    SP,
}

/// A branch condition: Z or C, plain or negated.
#[derive(Clone, Copy, Debug, PartialEq, Eq, Structural)]
pub enum FlagCondition {
    NZ,
    Z,
    NC,
    C,
}

/// The eight rotate and shift operations of the CB-prefixed page, in
/// opcode order.
#[derive(Clone, Copy, Debug, PartialEq, Eq, Structural)]
pub enum RotateShiftOperation {
    RLC,
    RRC,
    RL,
    RR,
    SLA,
    SRA,
    SWAP,
    SRL,
}

/// The register selected by octal digit `i` in the `r` table:
/// B, C, D, E, H, L, (HL), A.
pub open spec fn spec_r(i: u8) -> LoadDest {
    if i == 0 {
        LoadDest::B
    } else if i == 1 {
        LoadDest::C
    } else if i == 2 {
        LoadDest::D
    } else if i == 3 {
        LoadDest::E
    } else if i == 4 {
        LoadDest::H
    } else if i == 5 {
        LoadDest::L
    } else if i == 6 {
        LoadDest::IndHL
    } else {
        LoadDest::A
    }
}

/// Look up octal digit `i` in the `r` register table.
pub fn r(i: u8) -> (d: LoadDest)
    requires
        i < 8,
    ensures
        d == spec_r(i),
{
    if i == 0 {
        LoadDest::B
    } else if i == 1 {
        LoadDest::C
    } else if i == 2 {
        LoadDest::D
    } else if i == 3 {
        LoadDest::E
    } else if i == 4 {
        LoadDest::H
    } else if i == 5 {
        LoadDest::L
    } else if i == 6 {
        LoadDest::IndHL
    } else {
        LoadDest::A
    }
}

/// The ALU operation selected by octal digit `i` in the `alu` table:
/// ADD, ADC, SUB, SBC, AND, XOR, OR, CP.
pub open spec fn spec_alu(i: u8) -> MathOperation {
    if i == 0 {
        MathOperation::Add
    } else if i == 1 {
        MathOperation::Adc
    } else if i == 2 {
        MathOperation::Sub
    } else if i == 3 {
        MathOperation::Sbc
    } else if i == 4 {
        MathOperation::And
    } else if i == 5 {
        MathOperation::Xor
    } else if i == 6 {
        MathOperation::Or
    } else {
        MathOperation::Cp
    }
}

/// Look up octal digit `i` in the `alu` operation table.
pub fn alu(i: u8) -> (d: MathOperation)
    requires
        i < 8,
    ensures
        d == spec_alu(i),
{
    if i == 0 {
        MathOperation::Add
    } else if i == 1 {
        MathOperation::Adc
    } else if i == 2 {
        MathOperation::Sub
    } else if i == 3 {
        MathOperation::Sbc
    } else if i == 4 {
        MathOperation::And
    } else if i == 5 {
        MathOperation::Xor
    } else if i == 6 {
        MathOperation::Or
    } else {
        MathOperation::Cp
    }
}

/// The register pair selected by `i` in the `rp` table: BC, DE, HL, SP.
pub open spec fn spec_rp(i: u8) -> LoadDest16Bit {
    if i == 0 {
        LoadDest16Bit::BC
    } else if i == 1 {
        LoadDest16Bit::DE
    } else if i == 2 {
        LoadDest16Bit::HL
    } else {
        LoadDest16Bit::SP
    }
}

/// Look up `i` in the `rp` register-pair table (SP at index 3).
pub fn rp(i: u8) -> (d: LoadDest16Bit)
    requires
        i < 4,
    ensures
        d == spec_rp(i),
{
    if i == 0 {
        LoadDest16Bit::BC
    } else if i == 1 {
        LoadDest16Bit::DE
    } else if i == 2 {
        LoadDest16Bit::HL
    } else {
        LoadDest16Bit::SP
    }
}

/// The register pair selected by `i` in the `rp2` table: BC, DE, HL, AF.
pub open spec fn spec_rp2(i: u8) -> LoadDest16Bit {
    if i == 0 {
        LoadDest16Bit::BC
    } else if i == 1 {
        LoadDest16Bit::DE
    } else if i == 2 {
        LoadDest16Bit::HL
    } else {
        LoadDest16Bit::AF
    }
}

/// Look up `i` in the `rp2` register-pair table (AF at index 3).
pub fn rp2(i: u8) -> (d: LoadDest16Bit)
    requires
        i < 4,
    ensures
        d == spec_rp2(i),
{
    if i == 0 {
        LoadDest16Bit::BC
    } else if i == 1 {
        LoadDest16Bit::DE
    } else if i == 2 {
        LoadDest16Bit::HL
    } else {
        LoadDest16Bit::AF
    }
}

/// The branch condition selected by `i` in the `cc` table: NZ, Z, NC, C.
pub open spec fn spec_cc(i: u8) -> FlagCondition {
    if i == 0 {
        FlagCondition::NZ
    } else if i == 1 {
        FlagCondition::Z
    } else if i == 2 {
        FlagCondition::NC
    } else {
        FlagCondition::C
    }
}

/// Look up `i` in the `cc` branch-condition table.
pub fn cc(i: u8) -> (d: FlagCondition)
    requires
        i < 4,
    ensures
        d == spec_cc(i),
{
    if i == 0 {
        FlagCondition::NZ
    } else if i == 1 {
        FlagCondition::Z
    } else if i == 2 {
        FlagCondition::NC
    } else {
        FlagCondition::C
    }
}

/// The rotate/shift operation selected by `i` in the `rot` table:
/// RLC, RRC, RL, RR, SLA, SRA, SWAP, SRL.
pub open spec fn spec_rot(i: u8) -> RotateShiftOperation {
    if i == 0 {
        RotateShiftOperation::RLC
    } else if i == 1 {
        RotateShiftOperation::RRC
    } else if i == 2 {
        RotateShiftOperation::RL
    } else if i == 3 {
        RotateShiftOperation::RR
    } else if i == 4 {
        RotateShiftOperation::SLA
    } else if i == 5 {
        RotateShiftOperation::SRA
    } else if i == 6 {
        RotateShiftOperation::SWAP
    } else {
        RotateShiftOperation::SRL
    }
}

/// Look up `i` in the `rot` rotate/shift table.
pub fn rot(i: u8) -> (d: RotateShiftOperation)
    requires
        i < 8,
    ensures
        d == spec_rot(i),
{
    if i == 0 {
        RotateShiftOperation::RLC
    } else if i == 1 {
        RotateShiftOperation::RRC
    } else if i == 2 {
        RotateShiftOperation::RL
    } else if i == 3 {
        RotateShiftOperation::RR
    } else if i == 4 {
        RotateShiftOperation::SLA
    } else if i == 5 {
        RotateShiftOperation::SRA
    } else if i == 6 {
        RotateShiftOperation::SWAP
    } else {
        RotateShiftOperation::SRL
    }
}

} // verus!
