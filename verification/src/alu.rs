//! The arithmetic/logic unit: 8-bit accumulator operations, rotates and
//! shifts, 8- and 16-bit increment/decrement, 16-bit addition, and the
//! decimal adjust.  Every function returns the result together with the
//! complete flag set it produces, stated exactly in its contract.

use vstd::prelude::*;

use crate::registers::FRegister;

verus! {

/// The result byte of an 8-bit add with optional carry-in.
pub open spec fn spec_add_result(a: u8, v: u8, cin: bool) -> u8 {
    (((a + v + (if cin {
        1int
    } else {
        0int
    })) % 256) as u8)
}

/// The flags of an 8-bit add: Z on zero result, N clear, H on carry out
/// of bit 3, C on carry out of bit 7.
pub open spec fn spec_add_flags(a: u8, v: u8, cin: bool) -> FRegister {
    let ci = if cin {
        1int
    } else {
        0int
    };
    FRegister {
        z: spec_add_result(a, v, cin) == 0,
        n: false,
        h: a % 16 + v % 16 + ci >= 16,
        c: a + v + ci >= 256,
    }
}

/// 8-bit add of `v` (plus carry-in for ADC) into the accumulator value `a`.
pub fn alu_add(a: u8, v: u8, cin: bool) -> (r: (u8, FRegister))
    ensures
        r.0 == spec_add_result(a, v, cin),
        r.1 == spec_add_flags(a, v, cin),
{
    let ci: u16 = if cin {
        1
    } else {
        0
    };
    let sum: u16 = a as u16 + v as u16 + ci;
    let res: u8 = (sum % 256) as u8;
    let h: bool = (a % 16) as u16 + (v % 16) as u16 + ci >= 16;
    let c: bool = sum >= 256;
    (res, FRegister { z: res == 0, n: false, h, c })
}

/// The result byte of an 8-bit subtract with optional borrow-in.
pub open spec fn spec_sub_result(a: u8, v: u8, cin: bool) -> u8 {
    (((256 + a - v - (if cin {
        1int
    } else {
        0int
    })) % 256) as u8)
}

/// The flags of an 8-bit subtract: Z on zero result, N set, H on borrow
/// from bit 4, C on borrow from bit 7.
pub open spec fn spec_sub_flags(a: u8, v: u8, cin: bool) -> FRegister {
    let ci = if cin {
        1int
    } else {
        0int
    };
    FRegister {
        z: spec_sub_result(a, v, cin) == 0,
        n: true,
        h: v % 16 + ci > a % 16,
        c: v + ci > a,
    }
}

/// 8-bit subtract of `v` (plus borrow-in for SBC) from the accumulator
/// value `a`.  CP uses the same computation and discards the result byte.
pub fn alu_sub(a: u8, v: u8, cin: bool) -> (r: (u8, FRegister))
    ensures
        r.0 == spec_sub_result(a, v, cin),
        r.1 == spec_sub_flags(a, v, cin),
{
    let ci: u16 = if cin {
        1
    } else {
        0
    };
    let sum: u16 = 256 + a as u16 - v as u16 - ci;
    let res: u8 = (sum % 256) as u8;
    let h: bool = (v % 16) as u16 + ci > (a % 16) as u16;
    let c: bool = v as u16 + ci > a as u16;
    (res, FRegister { z: res == 0, n: true, h, c })
}

/// The flags of AND: Z on zero result, N clear, H set, C clear.
pub open spec fn spec_logic_flags(res: u8, h: bool) -> FRegister {
    FRegister { z: res == 0, n: false, h, c: false }
}

/// Bitwise AND into the accumulator.
pub fn alu_and(a: u8, v: u8) -> (r: (u8, FRegister))
    ensures
        r.0 == (a & v),
        r.1 == spec_logic_flags((a & v), true),
{
    let res: u8 = a & v;
    (res, FRegister { z: res == 0, n: false, h: true, c: false })
}

/// Bitwise XOR into the accumulator.
pub fn alu_xor(a: u8, v: u8) -> (r: (u8, FRegister))
    ensures
        r.0 == (a ^ v),
        r.1 == spec_logic_flags((a ^ v), false),
{
    let res: u8 = a ^ v;
    (res, FRegister { z: res == 0, n: false, h: false, c: false })
}

/// Bitwise OR into the accumulator.
pub fn alu_or(a: u8, v: u8) -> (r: (u8, FRegister))
    ensures
        r.0 == (a | v),
        r.1 == spec_logic_flags((a | v), false),
{
    let res: u8 = a | v;
    (res, FRegister { z: res == 0, n: false, h: false, c: false })
}

/// The result byte of 8-bit increment.
pub open spec fn spec_inc_result(v: u8) -> u8 {
    (((v + 1) % 256) as u8)
}

/// 8-bit increment: Z on zero result, N clear, H on carry out of bit 3,
/// C preserved from the incoming flags.
pub fn alu_inc(v: u8, f: FRegister) -> (r: (u8, FRegister))
    ensures
        r.0 == spec_inc_result(v),
        r.1 == (FRegister { z: spec_inc_result(v) == 0, n: false, h: v % 16 == 15, c: f.c }),
{
    let sum: u16 = v as u16 + 1;
    let res: u8 = (sum % 256) as u8;
    (res, FRegister { z: res == 0, n: false, h: v % 16 == 15, c: f.c })
}

/// The result byte of 8-bit decrement.
pub open spec fn spec_dec_result(v: u8) -> u8 {
    (((v + 255) % 256) as u8)
}

/// 8-bit decrement: Z on zero result, N set, H on borrow from bit 4,
/// C preserved from the incoming flags.
pub fn alu_dec(v: u8, f: FRegister) -> (r: (u8, FRegister))
    ensures
        r.0 == spec_dec_result(v),
        r.1 == (FRegister { z: spec_dec_result(v) == 0, n: true, h: v % 16 == 0, c: f.c }),
{
    let sum: u16 = v as u16 + 255;
    let res: u8 = (sum % 256) as u8;
    (res, FRegister { z: res == 0, n: true, h: v % 16 == 0, c: f.c })
}

/// The result of the 16-bit add ADD HL,rr.
pub open spec fn spec_add16_result(hl: u16, rr: u16) -> u16 {
    (((hl + rr) % 0x10000) as u16)
}

/// 16-bit add into HL: N clear, H on carry out of the low byte, C on
/// carry out of bit 15, Z preserved from the incoming flags.
pub fn alu_add16(hl: u16, rr: u16, f: FRegister) -> (r: (u16, FRegister))
    ensures
        r.0 == spec_add16_result(hl, rr),
        r.1 == (FRegister {
            z: f.z,
            n: false,
            h: hl % 256 + rr % 256 >= 256,
            c: hl + rr >= 0x10000,
        }),
{
    let sum: u32 = hl as u32 + rr as u32;
    let res: u16 = (sum % 0x10000) as u16;
    let h: bool = (hl % 256) as u32 + (rr % 256) as u32 >= 256;
    let c: bool = sum >= 0x10000;
    (res, FRegister { z: f.z, n: false, h, c })
}

/// The two's-complement sign extension of an offset byte to 16 bits,
/// reduced modulo 2^16 when added to a base.
pub open spec fn spec_sext16(e: u8) -> u16 {
    if e >= 0x80 {
        ((e + 0xFF00) as u16)
    } else {
        e as u16
    }
}

/// The result of adding a signed offset byte to a 16-bit value.
pub open spec fn spec_add_signed16(base: u16, e: u8) -> u16 {
    (((base + spec_sext16(e)) % 0x10000) as u16)
}

/// Add a signed offset byte to a 16-bit value, wrapping.
pub fn add_signed16(base: u16, e: u8) -> (r: u16)
    ensures
        r == spec_add_signed16(base, e),
{
    let ext: u16 = if e >= 0x80 {
        e as u16 + 0xFF00
    } else {
        e as u16
    };
    ((base as u32 + ext as u32) % 0x10000) as u16
}

/// The flags of ADD SP,e and LD HL,SP+e: Z and N clear, H on carry out
/// of bit 3 of (SP low byte + unsigned e), C on carry out of bit 7 of
/// the same sum.
pub open spec fn spec_sp_offset_flags(sp: u16, e: u8) -> FRegister {
    FRegister { z: false, n: false, h: sp % 16 + e % 16 >= 16, c: sp % 256 + e >= 256 }
}

/// Compute the flag set of ADD SP,e and LD HL,SP+e.
pub fn sp_offset_flags(sp: u16, e: u8) -> (r: FRegister)
    ensures
        r == spec_sp_offset_flags(sp, e),
{
    let h: bool = (sp % 16) + (e % 16) as u16 >= 16;
    let c: bool = (sp % 256) + e as u16 >= 256;
    FRegister { z: false, n: false, h, c }
}

/// The rotate and shift result bytes, in terms of shifts and masks.
pub open spec fn spec_rot_result(v: u8, op: crate::decode::RotateShiftOperation, cin: bool) -> u8 {
    match op {
        crate::decode::RotateShiftOperation::RLC => (v << 1) | (v >> 7),
        crate::decode::RotateShiftOperation::RRC => (v >> 1) | (v << 7),
        crate::decode::RotateShiftOperation::RL => (v << 1) | (if cin {
            1u8
        } else {
            0u8
        }),
        crate::decode::RotateShiftOperation::RR => (v >> 1) | (if cin {
            0x80u8
        } else {
            0u8
        }),
        crate::decode::RotateShiftOperation::SLA => v << 1,
        crate::decode::RotateShiftOperation::SRA => (v >> 1) | (v & 0x80),
        crate::decode::RotateShiftOperation::SWAP => (v << 4) | (v >> 4),
        crate::decode::RotateShiftOperation::SRL => v >> 1,
    }
}

/// The bit ejected by a rotate or shift: bit 7 for the left forms, bit 0
/// for the right forms, none for SWAP.
pub open spec fn spec_rot_carry(v: u8, op: crate::decode::RotateShiftOperation) -> bool {
    match op {
        crate::decode::RotateShiftOperation::RLC => v >> 7 == 1,
        crate::decode::RotateShiftOperation::RRC => v & 1 == 1,
        crate::decode::RotateShiftOperation::RL => v >> 7 == 1,
        crate::decode::RotateShiftOperation::RR => v & 1 == 1,
        crate::decode::RotateShiftOperation::SLA => v >> 7 == 1,
        crate::decode::RotateShiftOperation::SRA => v & 1 == 1,
        crate::decode::RotateShiftOperation::SWAP => false,
        crate::decode::RotateShiftOperation::SRL => v & 1 == 1,
    }
}

/// The flags of a CB-page rotate or shift: Z on zero result, N and H
/// clear, C from the ejected bit.
pub open spec fn spec_rot_flags(v: u8, op: crate::decode::RotateShiftOperation, cin: bool) -> FRegister {
    FRegister {
        z: spec_rot_result(v, op, cin) == 0,
        n: false,
        h: false,
        c: spec_rot_carry(v, op),
    }
}

/// Rotate or shift a byte; `cin` is the incoming carry flag, used by RL
/// and RR.
pub fn alu_rot(v: u8, op: crate::decode::RotateShiftOperation, cin: bool) -> (r: (u8, FRegister))
    ensures
        r.0 == spec_rot_result(v, op, cin),
        r.1 == spec_rot_flags(v, op, cin),
{
    let ci1: u8 = if cin {
        1
    } else {
        0
    };
    let ci80: u8 = if cin {
        0x80
    } else {
        0
    };
    let (nv, c): (u8, bool) = match op {
        crate::decode::RotateShiftOperation::RLC => ((v << 1) | (v >> 7), v >> 7 == 1),
        crate::decode::RotateShiftOperation::RRC => ((v >> 1) | (v << 7), v & 1 == 1),
        crate::decode::RotateShiftOperation::RL => ((v << 1) | ci1, v >> 7 == 1),
        crate::decode::RotateShiftOperation::RR => ((v >> 1) | ci80, v & 1 == 1),
        crate::decode::RotateShiftOperation::SLA => (v << 1, v >> 7 == 1),
        crate::decode::RotateShiftOperation::SRA => ((v >> 1) | (v & 0x80), v & 1 == 1),
        crate::decode::RotateShiftOperation::SWAP => ((v << 4) | (v >> 4), false),
        crate::decode::RotateShiftOperation::SRL => (v >> 1, v & 1 == 1),
    };
    (nv, FRegister { z: nv == 0, n: false, h: false, c })
}

/// The accumulator byte after the decimal adjust, mirroring the BCD
/// correction steps: after an addition, add 0x60 when C is set or the
/// value exceeds 0x99, then add 0x06 when H is set or the low nybble
/// exceeds 9; after a subtraction, subtract the corrections that were
/// carried or half-carried.
pub open spec fn spec_daa_result(a: u8, f: FRegister) -> u8 {
    if !f.n {
        let a1 = if f.c || a > 0x99 {
            ((a + 0x60) % 256) as u8
        } else {
            a
        };
        if f.h || a1 % 16 > 9 {
            ((a1 + 0x06) % 256) as u8
        } else {
            a1
        }
    } else {
        let a1 = if f.c {
            ((a + 256 - 0x60) % 256) as u8
        } else {
            a
        };
        if f.h {
            ((a1 + 256 - 0x06) % 256) as u8
        } else {
            a1
        }
    }
}

/// The carry flag after the decimal adjust: raised when the additive
/// 0x60 correction applies, otherwise preserved.
pub open spec fn spec_daa_carry(a: u8, f: FRegister) -> bool {
    if !f.n {
        f.c || a > 0x99
    } else {
        f.c
    }
}

/// Decimal adjust of the accumulator after a BCD addition or
/// subtraction.  Z follows the result, H is cleared, N is preserved.
pub fn alu_daa(a: u8, f: FRegister) -> (r: (u8, FRegister))
    ensures
        r.0 == spec_daa_result(a, f),
        r.1 == (FRegister {
            z: spec_daa_result(a, f) == 0,
            n: f.n,
            h: false,
            c: spec_daa_carry(a, f),
        }),
{
    let mut x: u16 = a as u16;
    let mut c: bool = f.c;
    if !f.n {
        if f.c || a > 0x99 {
            x = (x + 0x60) % 256;
            c = true;
        }
        if f.h || x % 16 > 9 {
            x = (x + 0x06) % 256;
        }
    } else {
        if f.c {
            x = (x + 256 - 0x60) % 256;
        }
        if f.h {
            x = (x + 256 - 0x06) % 256;
        }
    }
    let res: u8 = x as u8;
    (res, FRegister { z: res == 0, n: f.n, h: false, c })
}

} // verus!
