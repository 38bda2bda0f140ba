//! The CPU status flags and their packed byte representation.
//!
//! The four flags live in the high nibble of the F register; the low nibble
//! of the byte form is always zero. Unpacking a byte discards its low nibble
//! by design (the hardware wires those bits to zero), so packing is lossy on
//! the low nibble and exact on the high one.

use vstd::prelude::*;

verus! {

pub const ZERO_FLAG_BYTE_POSITION: u8 = 7;

pub const SUBTRACT_FLAG_BYTE_POSITION: u8 = 6;

pub const HALF_CARRY_FLAG_BYTE_POSITION: u8 = 5;

pub const CARRY_FLAG_BYTE_POSITION: u8 = 4;

/// The processor status flags: zero, subtract, half-carry and carry.
#[derive(Clone, Copy, PartialEq, Eq, Structural, Debug)]
pub struct FlagsRegister {
    pub zero: bool,
    pub subtract: bool,
    pub half_carry: bool,
    pub carry: bool,
}

/// The byte form of the flags: each flag at its fixed bit position,
/// low nibble zero.
pub open spec fn spec_flags_to_byte(f: FlagsRegister) -> u8 {
    ((if f.zero {
        1u8
    } else {
        0u8
    }) << ZERO_FLAG_BYTE_POSITION) | ((if f.subtract {
        1u8
    } else {
        0u8
    }) << SUBTRACT_FLAG_BYTE_POSITION) | ((if f.half_carry {
        1u8
    } else {
        0u8
    }) << HALF_CARRY_FLAG_BYTE_POSITION) | ((if f.carry {
        1u8
    } else {
        0u8
    }) << CARRY_FLAG_BYTE_POSITION)
}

/// The flags a byte denotes: one bit per flag, the low nibble ignored.
pub open spec fn spec_flags_from_byte(byte: u8) -> FlagsRegister {
    FlagsRegister {
        zero: (byte >> ZERO_FLAG_BYTE_POSITION) & 1 != 0,
        subtract: (byte >> SUBTRACT_FLAG_BYTE_POSITION) & 1 != 0,
        half_carry: (byte >> HALF_CARRY_FLAG_BYTE_POSITION) & 1 != 0,
        carry: (byte >> CARRY_FLAG_BYTE_POSITION) & 1 != 0,
    }
}

impl FlagsRegister {
    /// All four flags clear.
    pub fn new() -> (r: FlagsRegister)
        ensures
            r == (FlagsRegister { zero: false, subtract: false, half_carry: false, carry: false }),
    {
        FlagsRegister { zero: false, subtract: false, half_carry: false, carry: false }
    }

    /// Packs the four flags into their fixed bit positions.
    pub fn to_byte(&self) -> (r: u8)
        ensures
            r == spec_flags_to_byte(*self),
    {
        ((if self.zero {
            1u8
        } else {
            0u8
        }) << ZERO_FLAG_BYTE_POSITION) | ((if self.subtract {
            1u8
        } else {
            0u8
        }) << SUBTRACT_FLAG_BYTE_POSITION) | ((if self.half_carry {
            1u8
        } else {
            0u8
        }) << HALF_CARRY_FLAG_BYTE_POSITION) | ((if self.carry {
            1u8
        } else {
            0u8
        }) << CARRY_FLAG_BYTE_POSITION)
    }

    /// Extracts the four flags from a byte, ignoring the low nibble.
    pub fn from_byte(byte: u8) -> (r: FlagsRegister)
        ensures
            r == spec_flags_from_byte(byte),
    {
        FlagsRegister {
            zero: (byte >> ZERO_FLAG_BYTE_POSITION) & 1 != 0,
            subtract: (byte >> SUBTRACT_FLAG_BYTE_POSITION) & 1 != 0,
            half_carry: (byte >> HALF_CARRY_FLAG_BYTE_POSITION) & 1 != 0,
            carry: (byte >> CARRY_FLAG_BYTE_POSITION) & 1 != 0,
        }
    }
}

proof fn lemma_pack_bits(z: u8, s: u8, h: u8, c: u8)
    by (bit_vector)
    requires
        z <= 1,
        s <= 1,
        h <= 1,
        c <= 1,
    ensures
        (((z << 7) | (s << 6) | (h << 5) | (c << 4)) >> 7) & 1 == z,
        (((z << 7) | (s << 6) | (h << 5) | (c << 4)) >> 6) & 1 == s,
        (((z << 7) | (s << 6) | (h << 5) | (c << 4)) >> 5) & 1 == h,
        (((z << 7) | (s << 6) | (h << 5) | (c << 4)) >> 4) & 1 == c,
        ((z << 7) | (s << 6) | (h << 5) | (c << 4)) & 0x0f == 0,
{
}

/// Law: packing the flags and unpacking the byte again yields the same
/// flags, for every flag combination.
pub proof fn lemma_flags_round_trip(f: FlagsRegister)
    ensures
        spec_flags_from_byte(spec_flags_to_byte(f)) == f,
{
    let z: u8 = if f.zero {
        1
    } else {
        0
    };
    let s: u8 = if f.subtract {
        1
    } else {
        0
    };
    let h: u8 = if f.half_carry {
        1
    } else {
        0
    };
    let c: u8 = if f.carry {
        1
    } else {
        0
    };
    lemma_pack_bits(z, s, h, c);
}

/// Law: the byte form of any flag combination has a zero low nibble.
pub proof fn lemma_flags_byte_low_nibble_zero(f: FlagsRegister)
    ensures
        spec_flags_to_byte(f) & 0x0f == 0,
{
    let z: u8 = if f.zero {
        1
    } else {
        0
    };
    let s: u8 = if f.subtract {
        1
    } else {
        0
    };
    let h: u8 = if f.half_carry {
        1
    } else {
        0
    };
    let c: u8 = if f.carry {
        1
    } else {
        0
    };
    lemma_pack_bits(z, s, h, c);
}

/// Law: unpacking ignores the low nibble of the byte.
pub proof fn lemma_flags_from_byte_ignores_low_nibble(a: u8, b: u8)
    requires
        a & 0xf0 == b & 0xf0,
    ensures
        spec_flags_from_byte(a) == spec_flags_from_byte(b),
{
    assert((a >> 7) & 1 == (b >> 7) & 1 && (a >> 6) & 1 == (b >> 6) & 1 && (a >> 5) & 1 == (b >> 5)
        & 1 && (a >> 4) & 1 == (b >> 4) & 1) by (bit_vector)
        requires
            a & 0xf0 == b & 0xf0,
    ;
}

} // verus!
