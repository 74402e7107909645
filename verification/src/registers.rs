//! The CPU register file: eight 8-bit registers, SP, PC, and the four-bit
//! flag register.
//!
//! The flag register F stores only the four flags Z (bit 7), N (bit 6),
//! H (bit 5) and C (bit 4); its low nybble always reads as zero.  Storing
//! the flags as four booleans makes that invariant hold by construction.

use vstd::prelude::*;

verus! {

/// The four-bit flag register.  Z = zero, N = subtract, H = half carry,
/// C = carry.  The byte encoding places Z at bit 7, N at bit 6, H at bit 5
/// and C at bit 4; bits 0 to 3 are always zero.
#[derive(Clone, Copy, Debug, PartialEq, Eq, Structural)]
pub struct FRegister {
    pub z: bool,
    pub n: bool,
    pub h: bool,
    pub c: bool,
}

/// The byte encoding of a flag set: Z at bit 7, N at 6, H at 5, C at 4.
pub open spec fn spec_f_bits(f: FRegister) -> u8 {
    ((if f.z { 0x80u8 } else { 0u8 }) + (if f.n { 0x40u8 } else { 0u8 })
        + (if f.h { 0x20u8 } else { 0u8 }) + (if f.c { 0x10u8 } else { 0u8 })) as u8
}

/// The flag set encoded by a byte; bits 0 to 3 are ignored.
pub open spec fn spec_f_from_bits(v: u8) -> FRegister {
    FRegister {
        z: v & 0x80 != 0,
        n: v & 0x40 != 0,
        h: v & 0x20 != 0,
        c: v & 0x10 != 0,
    }
}

/// The low nybble of the byte encoding of any flag set is zero.
pub proof fn lemma_f_low_nybble_zero(f: FRegister)
    ensures
        spec_f_bits(f) & 0x0F == 0,
{
    let b = spec_f_bits(f);
    assert(b % 16 == 0);
    assert(b % 16 == 0 ==> b & 0x0F == 0) by (bit_vector);
}

impl FRegister {
    /// The flag set with no flags raised.
    pub fn empty() -> (r: FRegister)
        ensures
            r == (FRegister { z: false, n: false, h: false, c: false }),
    {
        FRegister { z: false, n: false, h: false, c: false }
    }

    /// The byte encoding of this flag set; the low nybble is always zero.
    pub fn bits(self) -> (r: u8)
        ensures
            r == spec_f_bits(self),
            r & 0x0F == 0,
    {
        let mut r: u8 = 0;
        if self.z {
            r = r + 0x80;
        }
        if self.n {
            r = r + 0x40;
        }
        if self.h {
            r = r + 0x20;
        }
        if self.c {
            r = r + 0x10;
        }
        proof {
            lemma_f_low_nybble_zero(self);
        }
        r
    }

    /// Decode a byte into a flag set, ignoring the low nybble.
    pub fn from_bits(v: u8) -> (r: FRegister)
        ensures
            r == spec_f_from_bits(v),
    {
        FRegister { z: v & 0x80 != 0, n: v & 0x40 != 0, h: v & 0x20 != 0, c: v & 0x10 != 0 }
    }

    /// True if any flag raised in `other` is also raised in `self`.
    pub fn contains(self, other: FRegister) -> (r: bool)
        ensures
            r == ((self.z && other.z) || (self.n && other.n) || (self.h && other.h) || (self.c
                && other.c)),
    {
        (self.z && other.z) || (self.n && other.n) || (self.h && other.h) || (self.c && other.c)
    }

    /// Raise every flag that is raised in `other`.
    pub fn set(&mut self, other: FRegister)
        ensures
            final(self).z == (old(self).z || other.z),
            final(self).n == (old(self).n || other.n),
            final(self).h == (old(self).h || other.h),
            final(self).c == (old(self).c || other.c),
    {
        self.z = self.z || other.z;
        self.n = self.n || other.n;
        self.h = self.h || other.h;
        self.c = self.c || other.c;
    }

    /// Lower every flag that is raised in `other`.
    pub fn unset(&mut self, other: FRegister)
        ensures
            final(self).z == (old(self).z && !other.z),
            final(self).n == (old(self).n && !other.n),
            final(self).h == (old(self).h && !other.h),
            final(self).c == (old(self).c && !other.c),
    {
        self.z = self.z && !other.z;
        self.n = self.n && !other.n;
        self.h = self.h && !other.h;
        self.c = self.c && !other.c;
    }

    /// Raise the flags in `flags` when `value` holds, lower them otherwise.
    pub fn set_value(&mut self, flags: FRegister, value: bool)
        ensures
            final(self).z == (if flags.z { value } else { old(self).z }),
            final(self).n == (if flags.n { value } else { old(self).n }),
            final(self).h == (if flags.h { value } else { old(self).h }),
            final(self).c == (if flags.c { value } else { old(self).c }),
    {
        if flags.z {
            self.z = value;
        }
        if flags.n {
            self.n = value;
        }
        if flags.h {
            self.h = value;
        }
        if flags.c {
            self.c = value;
        }
    }
}

impl Default for FRegister {
    /// The empty flag set.
    fn default() -> (r: FRegister)
        ensures
            r == (FRegister { z: false, n: false, h: false, c: false }),
    {
        FRegister { z: false, n: false, h: false, c: false }
    }
}

/// The register file of the LR35902: eight 8-bit registers with the paired
/// views AF, BC, DE and HL, and the two 16-bit registers SP and PC.
#[derive(Clone, Copy, Debug, PartialEq, Eq, Structural)]
pub struct Registers {
    pub a: u8,
    pub f: FRegister,
    pub b: u8,
    pub c: u8,
    pub d: u8,
    pub e: u8,
    pub h: u8,
    pub l: u8,
    pub sp: u16,
    pub pc: u16,
}

/// The 16-bit value formed by a high and a low byte.
pub open spec fn spec_pair(hi: u8, lo: u8) -> u16 {
    (hi * 256 + lo) as u16
}

impl Registers {
    /// All registers zero.
    pub fn new() -> (r: Registers)
        ensures
            r == Registers::spec_zeroed(),
    {
        Registers {
            a: 0,
            f: FRegister { z: false, n: false, h: false, c: false },
            b: 0,
            c: 0,
            d: 0,
            e: 0,
            h: 0,
            l: 0,
            sp: 0,
            pc: 0,
        }
    }

    /// The zeroed register file.
    pub open spec fn spec_zeroed() -> Registers {
        Registers {
            a: 0,
            f: FRegister { z: false, n: false, h: false, c: false },
            b: 0,
            c: 0,
            d: 0,
            e: 0,
            h: 0,
            l: 0,
            sp: 0,
            pc: 0,
        }
    }

    /// AF as a 16-bit value; the low nybble is always zero.
    pub fn get_af(&self) -> (r: u16)
        ensures
            r == spec_pair(self.a, spec_f_bits(self.f)),
    {
        let f = self.f.bits();
        (self.a as u16) * 256 + (f as u16)
    }

    /// Store a 16-bit value into AF; the low nybble of the flag byte is
    /// discarded.
    pub fn set_af(&mut self, v: u16)
        ensures
            *final(self) == (Registers {
                a: (v >> 8) as u8,
                f: spec_f_from_bits((v & 0xFF) as u8),
                ..*old(self)
            }),
    {
        self.a = (v >> 8) as u8;
        self.f = FRegister::from_bits((v & 0xFF) as u8);
    }

    /// Apply a function to AF, storing the result back; the low nybble
    /// of the resulting flag byte is discarded.
    pub fn modify_af<F: FnOnce(u16) -> u16>(&mut self, f: F)
        requires
            call_requires(f, (spec_pair(old(self).a, spec_f_bits(old(self).f)),)),
        ensures
            exists|v: u16|
                call_ensures(f, (spec_pair(old(self).a, spec_f_bits(old(self).f)),), v) && *final(self) == (Registers {
                    a: (v >> 8) as u8,
                    f: spec_f_from_bits((v & 0xFF) as u8),
                    ..*old(self)
                }),
    {
        let v = f(self.get_af());
        self.set_af(v);
    }

    /// BC as a 16-bit value.
    pub fn get_bc(&self) -> (r: u16)
        ensures
            r == spec_pair(self.b, self.c),
    {
        (self.b as u16) * 256 + (self.c as u16)
    }

    /// Store a 16-bit value into BC.
    pub fn set_bc(&mut self, v: u16)
        ensures
            *final(self) == (Registers { b: (v >> 8) as u8, c: (v & 0xFF) as u8, ..*old(self) }),
    {
        self.b = (v >> 8) as u8;
        self.c = (v & 0xFF) as u8;
    }

    /// DE as a 16-bit value.
    pub fn get_de(&self) -> (r: u16)
        ensures
            r == spec_pair(self.d, self.e),
    {
        (self.d as u16) * 256 + (self.e as u16)
    }

    /// Store a 16-bit value into DE.
    pub fn set_de(&mut self, v: u16)
        ensures
            *final(self) == (Registers { d: (v >> 8) as u8, e: (v & 0xFF) as u8, ..*old(self) }),
    {
        self.d = (v >> 8) as u8;
        self.e = (v & 0xFF) as u8;
    }

    /// HL as a 16-bit value.
    pub fn get_hl(&self) -> (r: u16)
        ensures
            r == spec_pair(self.h, self.l),
    {
        (self.h as u16) * 256 + (self.l as u16)
    }

    /// Store a 16-bit value into HL.
    pub fn set_hl(&mut self, v: u16)
        ensures
            *final(self) == (Registers { h: (v >> 8) as u8, l: (v & 0xFF) as u8, ..*old(self) }),
    {
        self.h = (v >> 8) as u8;
        self.l = (v & 0xFF) as u8;
    }
}

impl Default for Registers {
    /// The zeroed register file.
    fn default() -> (r: Registers)
        ensures
            r == Registers::spec_zeroed(),
    {
        Registers::new()
    }
}

} // verus!
