//! Comparison of single-precision floating-point values by their bit
//! patterns.
//!
//! The engine carries such a value as the `u32` holding its bit pattern
//! (sign bit on top, then eight exponent bits, then the fraction), and this
//! module orders two patterns exactly as the standard comparison operators
//! order the values they stand for: a value whose exponent bits are all
//! ones and whose fraction is not zero stands for no number, and every
//! comparison with it but "not equal" fails; the two zero patterns are
//! equal; otherwise a negative value is below every positive one, and
//! within one sign the magnitude bits order the values.

use vstd::prelude::*;

verus! {

/// The magnitude bits of the pattern: everything below the sign bit.
pub open spec fn f32_mag(bits: u32) -> int {
    (bits % 0x8000_0000) as int
}

/// Whether the sign bit is set.
pub open spec fn f32_negative(bits: u32) -> bool {
    bits >= 0x8000_0000
}

/// Whether the pattern stands for no number: exponent bits all ones and a
/// fraction other than zero.
pub open spec fn f32_is_nan(bits: u32) -> bool {
    f32_mag(bits) > 0x7F80_0000
}

/// The pattern's place on the number line, as an integer key: magnitude,
/// negated under a set sign bit. Both zero patterns get key 0; otherwise
/// two distinct patterns of one sign stand for distinct numbers in
/// magnitude order, so the key orders the patterns as the values they
/// stand for.
pub open spec fn f32_key(bits: u32) -> int {
    if f32_negative(bits) {
        -f32_mag(bits)
    } else {
        f32_mag(bits)
    }
}

/// The strict "below" order of the values the two patterns stand for.
pub open spec fn spec_f32_lt(a: u32, b: u32) -> bool {
    !f32_is_nan(a) && !f32_is_nan(b) && f32_key(a) < f32_key(b)
}

/// Equality of the values the two patterns stand for.
pub open spec fn spec_f32_eq(a: u32, b: u32) -> bool {
    !f32_is_nan(a) && !f32_is_nan(b) && f32_key(a) == f32_key(b)
}

/// "Below or equal" of the values the two patterns stand for.
pub open spec fn spec_f32_le(a: u32, b: u32) -> bool {
    !f32_is_nan(a) && !f32_is_nan(b) && f32_key(a) <= f32_key(b)
}

/// The magnitude bits, executable.
fn mag_of(bits: u32) -> (r: u32)
    ensures
        r as int == f32_mag(bits),
{
    bits % 0x8000_0000
}

/// The integer key, executable. The magnitude is below 2^31, so the key
/// fits an `i64`.
fn key_of(bits: u32) -> (r: i64)
    ensures
        r as int == f32_key(bits),
{
    let mag = mag_of(bits);
    if bits >= 0x8000_0000 {
        -(mag as i64)
    } else {
        mag as i64
    }
}

/// Whether the pattern stands for no number, executable.
pub fn f32_bits_is_nan(bits: u32) -> (r: bool)
    ensures
        r == f32_is_nan(bits),
{
    mag_of(bits) > 0x7F80_0000
}

/// Strict "below" on two patterns.
pub fn f32_bits_lt(a: u32, b: u32) -> (r: bool)
    ensures
        r == spec_f32_lt(a, b),
{
    if f32_bits_is_nan(a) || f32_bits_is_nan(b) {
        return false;
    }
    key_of(a) < key_of(b)
}

/// "Below or equal" on two patterns.
pub fn f32_bits_le(a: u32, b: u32) -> (r: bool)
    ensures
        r == spec_f32_le(a, b),
{
    if f32_bits_is_nan(a) || f32_bits_is_nan(b) {
        return false;
    }
    key_of(a) <= key_of(b)
}

/// Equality on two patterns.
pub fn f32_bits_eq(a: u32, b: u32) -> (r: bool)
    ensures
        r == spec_f32_eq(a, b),
{
    if f32_bits_is_nan(a) || f32_bits_is_nan(b) {
        return false;
    }
    key_of(a) == key_of(b)
}

} // verus!
