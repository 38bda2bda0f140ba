//! The arithmetic/logic unit: pure 8-bit and 16-bit operations returning
//! the result together with the flags the hardware computes for them.
//!
//! Flag policy, per operation family:
//! - ADD/ADC: subtract clear; half-carry from the low-nibble sum; carry on
//!   8-bit overflow.
//! - SUB/SBC/CP: subtract set; half-carry on a low-nibble borrow; carry on
//!   a full borrow.
//! - AND/OR/XOR: carry always clear; half-carry set for AND only.
//! - INC/DEC: carry preserved from its prior value.
//! - Rotates/shifts/swap: carry takes the shifted-out bit (clear for SWAP);
//!   subtract and half-carry clear.
//! - BIT: zero from the tested bit, half-carry set, carry preserved.
//! - 16-bit ADD: half-carry from bit 11, carry from bit 15.

use vstd::prelude::*;
use crate::flags::FlagsRegister;

verus! {

/// The 8-bit sum of `a`, `b` and a carry-in, wrapping on overflow.
pub open spec fn spec_add8(a: u8, b: u8, carry_in: bool) -> u8 {
    let cin: int = if carry_in {
        1
    } else {
        0
    };
    if a + b + cin > 0xff {
        (a + b + cin - 0x100) as u8
    } else {
        (a + b + cin) as u8
    }
}

/// The flags after an 8-bit addition.
pub open spec fn spec_add_flags(a: u8, b: u8, carry_in: bool) -> FlagsRegister {
    let cin: int = if carry_in {
        1
    } else {
        0
    };
    FlagsRegister {
        zero: spec_add8(a, b, carry_in) == 0,
        subtract: false,
        half_carry: a % 16 + b % 16 + cin > 0xf,
        carry: a + b + cin > 0xff,
    }
}

/// The 8-bit difference `a - b - carry_in`, wrapping on borrow.
pub open spec fn spec_sub8(a: u8, b: u8, carry_in: bool) -> u8 {
    let cin: int = if carry_in {
        1
    } else {
        0
    };
    if a - b - cin < 0 {
        (a - b - cin + 0x100) as u8
    } else {
        (a - b - cin) as u8
    }
}

/// The flags after an 8-bit subtraction or compare.
pub open spec fn spec_sub_flags(a: u8, b: u8, carry_in: bool) -> FlagsRegister {
    let cin: int = if carry_in {
        1
    } else {
        0
    };
    FlagsRegister {
        zero: spec_sub8(a, b, carry_in) == 0,
        subtract: true,
        half_carry: a % 16 < b % 16 + cin,
        carry: a < b + cin,
    }
}

/// The flags after a bitwise operation whose result is `r`: carry always
/// clear, half-carry fixed by the operation (set for AND only).
pub open spec fn spec_logic_flags(r: u8, half_carry: bool) -> FlagsRegister {
    FlagsRegister { zero: r == 0, subtract: false, half_carry, carry: false }
}

/// The flags after INC: carry preserved, half-carry on a low-nibble carry.
pub open spec fn spec_inc_flags(v: u8, carry: bool) -> FlagsRegister {
    FlagsRegister { zero: spec_add8(v, 1, false) == 0, subtract: false, half_carry: v % 16 == 0xf, carry }
}

/// The flags after DEC: carry preserved, half-carry on a low-nibble borrow.
pub open spec fn spec_dec_flags(v: u8, carry: bool) -> FlagsRegister {
    FlagsRegister { zero: spec_sub8(v, 1, false) == 0, subtract: true, half_carry: v % 16 == 0, carry }
}

/// The 16-bit sum, wrapping on overflow.
pub open spec fn spec_add16(a: u16, b: u16) -> u16 {
    if a + b > 0xffff {
        (a + b - 0x10000) as u16
    } else {
        (a + b) as u16
    }
}

/// The flags after a 16-bit addition: half-carry from bit 11, carry from
/// bit 15.
pub open spec fn spec_add16_flags(a: u16, b: u16) -> FlagsRegister {
    FlagsRegister {
        zero: spec_add16(a, b) == 0,
        subtract: false,
        half_carry: a % 0x1000 + b % 0x1000 > 0xfff,
        carry: a + b > 0xffff,
    }
}

/// Left rotation by one bit.
pub open spec fn spec_rlc8(v: u8) -> u8 {
    (v << 1) | (v >> 7)
}

/// Right rotation by one bit.
pub open spec fn spec_rrc8(v: u8) -> u8 {
    (v >> 1) | (v << 7)
}

/// Left rotation through the carry flag.
pub open spec fn spec_rl8(v: u8, carry_in: bool) -> u8 {
    (v << 1) | (if carry_in {
        1u8
    } else {
        0u8
    })
}

/// Right rotation through the carry flag.
pub open spec fn spec_rr8(v: u8, carry_in: bool) -> u8 {
    (v >> 1) | (if carry_in {
        0x80u8
    } else {
        0u8
    })
}

/// Arithmetic left shift.
pub open spec fn spec_sla8(v: u8) -> u8 {
    v << 1
}

/// Arithmetic right shift: the sign bit is kept.
pub open spec fn spec_sra8(v: u8) -> u8 {
    (v >> 1) | (v & 0x80)
}

/// Nibble swap.
pub open spec fn spec_swap8(v: u8) -> u8 {
    (v >> 4) | (v << 4)
}

/// Logical right shift.
pub open spec fn spec_srl8(v: u8) -> u8 {
    v >> 1
}

/// The flags after BIT: zero reports the tested bit inverted, half-carry
/// set, carry preserved.
pub open spec fn spec_bit_flags(v: u8, bit: u8, carry: bool) -> FlagsRegister {
    FlagsRegister { zero: (v >> bit) & 1 == 0, subtract: false, half_carry: true, carry }
}

/// The byte with bit `bit` cleared.
pub open spec fn spec_res8(v: u8, bit: u8) -> u8 {
    v & !(1u8 << bit)
}

/// The byte with bit `bit` set.
pub open spec fn spec_set8(v: u8, bit: u8) -> u8 {
    v | (1u8 << bit)
}

/// 8-bit add with optional carry-in; returns the wrapped sum and the flags.
pub fn add8(a: u8, b: u8, carry_in: bool) -> (r: (u8, FlagsRegister))
    ensures
        r.0 == spec_add8(a, b, carry_in),
        r.1 == spec_add_flags(a, b, carry_in),
{
    let cin: u8 = if carry_in {
        1
    } else {
        0
    };
    let sum: u16 = a as u16 + b as u16 + cin as u16;
    let res: u8 = if sum > 0xff {
        (sum - 0x100) as u8
    } else {
        sum as u8
    };
    let flags = FlagsRegister {
        zero: res == 0,
        subtract: false,
        half_carry: a % 16 + b % 16 + cin > 0xf,
        carry: sum > 0xff,
    };
    (res, flags)
}

/// 8-bit subtract with optional borrow-in; returns the wrapped difference
/// and the flags.
pub fn sub8(a: u8, b: u8, carry_in: bool) -> (r: (u8, FlagsRegister))
    ensures
        r.0 == spec_sub8(a, b, carry_in),
        r.1 == spec_sub_flags(a, b, carry_in),
{
    let cin: u8 = if carry_in {
        1
    } else {
        0
    };
    let sub: u16 = b as u16 + cin as u16;
    let res: u8 = if (a as u16) >= sub {
        (a as u16 - sub) as u8
    } else {
        (a as u16 + 0x100 - sub) as u8
    };
    let flags = FlagsRegister {
        zero: res == 0,
        subtract: true,
        half_carry: a % 16 < b % 16 + cin,
        carry: (a as u16) < sub,
    };
    (res, flags)
}

/// Bitwise AND with its fixed flag policy (half-carry set).
pub fn and8(a: u8, b: u8) -> (r: (u8, FlagsRegister))
    ensures
        r.0 == (a & b),
        r.1 == spec_logic_flags((a & b), true),
{
    let res = a & b;
    (res, FlagsRegister { zero: res == 0, subtract: false, half_carry: true, carry: false })
}

/// Bitwise OR with its fixed flag policy (half-carry clear).
pub fn or8(a: u8, b: u8) -> (r: (u8, FlagsRegister))
    ensures
        r.0 == (a | b),
        r.1 == spec_logic_flags((a | b), false),
{
    let res = a | b;
    (res, FlagsRegister { zero: res == 0, subtract: false, half_carry: false, carry: false })
}

/// Bitwise XOR with its fixed flag policy (half-carry clear).
pub fn xor8(a: u8, b: u8) -> (r: (u8, FlagsRegister))
    ensures
        r.0 == (a ^ b),
        r.1 == spec_logic_flags((a ^ b), false),
{
    let res = a ^ b;
    (res, FlagsRegister { zero: res == 0, subtract: false, half_carry: false, carry: false })
}

/// Increment: wraps at 0xFF and preserves the carry flag `carry`.
pub fn inc8(v: u8, carry: bool) -> (r: (u8, FlagsRegister))
    ensures
        r.0 == spec_add8(v, 1, false),
        r.1 == spec_inc_flags(v, carry),
{
    let res: u8 = if v == 0xff {
        0
    } else {
        v + 1
    };
    (res, FlagsRegister { zero: res == 0, subtract: false, half_carry: v % 16 == 0xf, carry })
}

/// Decrement: wraps at 0x00 and preserves the carry flag `carry`.
pub fn dec8(v: u8, carry: bool) -> (r: (u8, FlagsRegister))
    ensures
        r.0 == spec_sub8(v, 1, false),
        r.1 == spec_dec_flags(v, carry),
{
    let res: u8 = if v == 0 {
        0xff
    } else {
        v - 1
    };
    (res, FlagsRegister { zero: res == 0, subtract: true, half_carry: v % 16 == 0, carry })
}

/// 16-bit add; half-carry from bit 11, carry from bit 15.
pub fn add16(a: u16, b: u16) -> (r: (u16, FlagsRegister))
    ensures
        r.0 == spec_add16(a, b),
        r.1 == spec_add16_flags(a, b),
{
    let sum: u32 = a as u32 + b as u32;
    let res: u16 = if sum > 0xffff {
        (sum - 0x10000) as u16
    } else {
        sum as u16
    };
    let flags = FlagsRegister {
        zero: res == 0,
        subtract: false,
        half_carry: a % 0x1000 + b % 0x1000 > 0xfff,
        carry: sum > 0xffff,
    };
    (res, flags)
}

/// The flags shared by the rotate/shift family: carry takes the bit
/// shifted out, subtract and half-carry clear, zero from the result.
pub open spec fn spec_rotate_flags(r: u8, carry_out: bool) -> FlagsRegister {
    FlagsRegister { zero: r == 0, subtract: false, half_carry: false, carry: carry_out }
}

/// Rotate left; bit 7 moves to bit 0 and to the carry flag.
pub fn rlc8(v: u8) -> (r: (u8, FlagsRegister))
    ensures
        r.0 == spec_rlc8(v),
        r.1 == spec_rotate_flags(spec_rlc8(v), (v >> 7) & 1 == 1),
{
    let res = (v << 1) | (v >> 7);
    (res, FlagsRegister { zero: res == 0, subtract: false, half_carry: false, carry: (v >> 7) & 1 == 1 })
}

/// Rotate right; bit 0 moves to bit 7 and to the carry flag.
pub fn rrc8(v: u8) -> (r: (u8, FlagsRegister))
    ensures
        r.0 == spec_rrc8(v),
        r.1 == spec_rotate_flags(spec_rrc8(v), v & 1 == 1),
{
    let res = (v >> 1) | (v << 7);
    (res, FlagsRegister { zero: res == 0, subtract: false, half_carry: false, carry: v & 1 == 1 })
}

/// Rotate left through the carry flag.
pub fn rl8(v: u8, carry_in: bool) -> (r: (u8, FlagsRegister))
    ensures
        r.0 == spec_rl8(v, carry_in),
        r.1 == spec_rotate_flags(spec_rl8(v, carry_in), (v >> 7) & 1 == 1),
{
    let res = (v << 1) | (if carry_in {
        1u8
    } else {
        0u8
    });
    (res, FlagsRegister { zero: res == 0, subtract: false, half_carry: false, carry: (v >> 7) & 1 == 1 })
}

/// Rotate right through the carry flag.
pub fn rr8(v: u8, carry_in: bool) -> (r: (u8, FlagsRegister))
    ensures
        r.0 == spec_rr8(v, carry_in),
        r.1 == spec_rotate_flags(spec_rr8(v, carry_in), v & 1 == 1),
{
    let res = (v >> 1) | (if carry_in {
        0x80u8
    } else {
        0u8
    });
    (res, FlagsRegister { zero: res == 0, subtract: false, half_carry: false, carry: v & 1 == 1 })
}

/// Shift left into the carry flag; bit 0 becomes zero.
pub fn sla8(v: u8) -> (r: (u8, FlagsRegister))
    ensures
        r.0 == spec_sla8(v),
        r.1 == spec_rotate_flags(spec_sla8(v), (v >> 7) & 1 == 1),
{
    let res = v << 1;
    (res, FlagsRegister { zero: res == 0, subtract: false, half_carry: false, carry: (v >> 7) & 1 == 1 })
}

/// Shift right keeping the sign bit; bit 0 moves to the carry flag.
pub fn sra8(v: u8) -> (r: (u8, FlagsRegister))
    ensures
        r.0 == spec_sra8(v),
        r.1 == spec_rotate_flags(spec_sra8(v), v & 1 == 1),
{
    let res = (v >> 1) | (v & 0x80);
    (res, FlagsRegister { zero: res == 0, subtract: false, half_carry: false, carry: v & 1 == 1 })
}

/// Swap the two nibbles; carry always clear.
pub fn swap8(v: u8) -> (r: (u8, FlagsRegister))
    ensures
        r.0 == spec_swap8(v),
        r.1 == spec_rotate_flags(spec_swap8(v), false),
{
    let res = (v >> 4) | (v << 4);
    (res, FlagsRegister { zero: res == 0, subtract: false, half_carry: false, carry: false })
}

/// Shift right filling with zero; bit 0 moves to the carry flag.
pub fn srl8(v: u8) -> (r: (u8, FlagsRegister))
    ensures
        r.0 == spec_srl8(v),
        r.1 == spec_rotate_flags(spec_srl8(v), v & 1 == 1),
{
    let res = v >> 1;
    (res, FlagsRegister { zero: res == 0, subtract: false, half_carry: false, carry: v & 1 == 1 })
}

/// The flags after testing bit `bit` of `v`, preserving the carry flag.
pub fn bit_flags(v: u8, bit: u8, carry: bool) -> (r: FlagsRegister)
    requires
        bit < 8,
    ensures
        r == spec_bit_flags(v, bit, carry),
{
    FlagsRegister { zero: (v >> bit) & 1 == 0, subtract: false, half_carry: true, carry }
}

/// Clears bit `bit` of `v`.
pub fn res8(v: u8, bit: u8) -> (r: u8)
    requires
        bit < 8,
    ensures
        r == spec_res8(v, bit),
{
    v & !(1u8 << bit)
}

/// Sets bit `bit` of `v`.
pub fn set8(v: u8, bit: u8) -> (r: u8)
    requires
        bit < 8,
    ensures
        r == spec_set8(v, bit),
{
    v | (1u8 << bit)
}

} // verus!
