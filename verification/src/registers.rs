//! The register file: seven 8-bit registers plus the flags register, with
//! 16-bit pair views BC, DE, HL and AF.
//!
//! A pair reads as `high * 256 + low`; writing a pair puts the high byte in
//! the first register and the low byte in the second. Writing AF routes the
//! low byte through the flags' byte form, so its low nibble is discarded.

use vstd::prelude::*;
use crate::flags::FlagsRegister;
use crate::flags::spec_flags_from_byte;
use crate::flags::spec_flags_to_byte;

verus! {

/// The CPU's eight-bit registers A, B, C, D, E, H, L and the flags F.
#[derive(Clone, Copy, PartialEq, Eq, Structural, Debug)]
pub struct Registers {
    pub a: u8,
    pub b: u8,
    pub c: u8,
    pub d: u8,
    pub e: u8,
    pub f: FlagsRegister,
    pub h: u8,
    pub l: u8,
}

/// The 16-bit value a register pair denotes.
pub open spec fn spec_pair(hi: u8, lo: u8) -> u16 {
    (hi * 256 + lo) as u16
}

/// The high byte of a 16-bit value.
pub open spec fn spec_hi_byte(v: u16) -> u8 {
    (v / 256) as u8
}

/// The low byte of a 16-bit value.
pub open spec fn spec_lo_byte(v: u16) -> u8 {
    (v % 256) as u8
}

/// The register file at reset: all registers zero, all flags clear.
pub open spec fn spec_zero_registers() -> Registers {
    Registers {
        a: 0u8,
        b: 0u8,
        c: 0u8,
        d: 0u8,
        e: 0u8,
        f: FlagsRegister { zero: false, subtract: false, half_carry: false, carry: false },
        h: 0u8,
        l: 0u8,
    }
}

impl Registers {
    /// All registers zero, all flags clear.
    pub fn new() -> (r: Registers)
        ensures
            r == spec_zero_registers(),
    {
        Registers {
            a: 0,
            b: 0,
            c: 0,
            d: 0,
            e: 0,
            f: FlagsRegister { zero: false, subtract: false, half_carry: false, carry: false },
            h: 0,
            l: 0,
        }
    }

    /// Reads the BC pair.
    pub fn get_bc(&self) -> (r: u16)
        ensures
            r == spec_pair(self.b, self.c),
    {
        let b = self.b;
        let c = self.c;
        proof {
            assert(((b as u16) << 8) | (c as u16) == b * 256 + c) by (bit_vector);
        }
        (b as u16) << 8 | c as u16
    }

    /// Writes the BC pair: high byte to B, low byte to C.
    pub fn set_bc(&mut self, value: u16)
        ensures
            *final(self) == (Registers {
                b: spec_hi_byte(value),
                c: spec_lo_byte(value),
                ..*old(self)
            }),
    {
        proof {
            assert(((value & 0xff00) >> 8) as u8 == (value / 256) as u8 && (value & 0xff) as u8 == (
            value % 256) as u8) by (bit_vector);
        }
        self.b = ((value & 0xff00) >> 8) as u8;
        self.c = (value & 0xff) as u8;
    }

    /// Reads the DE pair.
    pub fn get_de(&self) -> (r: u16)
        ensures
            r == spec_pair(self.d, self.e),
    {
        let d = self.d;
        let e = self.e;
        proof {
            assert(((d as u16) << 8) | (e as u16) == d * 256 + e) by (bit_vector);
        }
        (d as u16) << 8 | e as u16
    }

    /// Writes the DE pair: high byte to D, low byte to E.
    pub fn set_de(&mut self, value: u16)
        ensures
            *final(self) == (Registers {
                d: spec_hi_byte(value),
                e: spec_lo_byte(value),
                ..*old(self)
            }),
    {
        proof {
            assert(((value & 0xff00) >> 8) as u8 == (value / 256) as u8 && (value & 0xff) as u8 == (
            value % 256) as u8) by (bit_vector);
        }
        self.d = ((value & 0xff00) >> 8) as u8;
        self.e = (value & 0xff) as u8;
    }

    /// Reads the HL pair.
    pub fn get_hl(&self) -> (r: u16)
        ensures
            r == spec_pair(self.h, self.l),
    {
        let h = self.h;
        let l = self.l;
        proof {
            assert(((h as u16) << 8) | (l as u16) == h * 256 + l) by (bit_vector);
        }
        (h as u16) << 8 | l as u16
    }

    /// Writes the HL pair: high byte to H, low byte to L.
    pub fn set_hl(&mut self, value: u16)
        ensures
            *final(self) == (Registers {
                h: spec_hi_byte(value),
                l: spec_lo_byte(value),
                ..*old(self)
            }),
    {
        proof {
            assert(((value & 0xff00) >> 8) as u8 == (value / 256) as u8 && (value & 0xff) as u8 == (
            value % 256) as u8) by (bit_vector);
        }
        self.h = ((value & 0xff00) >> 8) as u8;
        self.l = (value & 0xff) as u8;
    }

    /// Reads the AF pair: accumulator over the flags' byte form.
    pub fn get_af(&self) -> (r: u16)
        ensures
            r == spec_pair(self.a, spec_flags_to_byte(self.f)),
    {
        let a = self.a;
        let fb = self.f.to_byte();
        proof {
            assert(((a as u16) << 8) | (fb as u16) == a * 256 + fb) by (bit_vector);
        }
        (a as u16) << 8 | fb as u16
    }

    /// Writes the AF pair: high byte to A, low byte into the flags (its low
    /// nibble is discarded by the flags' byte layout).
    pub fn set_af(&mut self, value: u16)
        ensures
            *final(self) == (Registers {
                a: spec_hi_byte(value),
                f: spec_flags_from_byte(spec_lo_byte(value)),
                ..*old(self)
            }),
    {
        proof {
            assert(((value & 0xff00) >> 8) as u8 == (value / 256) as u8 && (value & 0xff) as u8 == (
            value % 256) as u8) by (bit_vector);
        }
        self.a = ((value & 0xff00) >> 8) as u8;
        self.f = FlagsRegister::from_byte((value & 0xff) as u8);
    }
}

/// Law: combining two bytes into a pair and splitting it again returns the
/// bytes unchanged, for all byte values.
pub proof fn lemma_pair_consistency(hi: u8, lo: u8)
    ensures
        spec_hi_byte(spec_pair(hi, lo)) == hi,
        spec_lo_byte(spec_pair(hi, lo)) == lo,
{
    assert((hi * 256 + lo) / 256 == hi) by (nonlinear_arith);
    assert((hi * 256 + lo) % 256 == lo) by (nonlinear_arith);
}

/// Law: splitting a 16-bit value and recombining the halves returns the
/// value unchanged.
pub proof fn lemma_pair_round_trip(v: u16)
    ensures
        spec_pair(spec_hi_byte(v), spec_lo_byte(v)) == v,
{
}

} // verus!
