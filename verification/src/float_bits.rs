//! Single-precision IEEE 754 numbers, handled through their 32-bit encodings.
//!
//! The library never computes with floating-point numbers. It stores the
//! encoding of each one (what `f32::to_bits` returns), and compares encodings
//! as the numbers they stand for compare.
use vstd::prelude::*;

verus! {

/// The bit that holds the sign.
pub const SIGN_BIT: u32 = 0x8000_0000;

/// The encoding of positive infinity. A larger magnitude encodes no number.
pub const INFINITY_BITS: u32 = 0x7f80_0000;

/// The encoding of `0.0`.
pub const ZERO_BITS: u32 = 0;

/// The encoding of `1.0`.
pub const ONE_BITS: u32 = 0x3f80_0000;

/// The encoding of `2.0`.
pub const TWO_BITS: u32 = 0x4000_0000;

/// Whether the sign bit of an encoding is set.
pub open spec fn is_negative(bits: u32) -> bool {
    bits >= SIGN_BIT
}

/// The encoding without its sign bit.
pub open spec fn magnitude(bits: u32) -> int {
    if bits >= SIGN_BIT {
        bits - SIGN_BIT
    } else {
        bits as int
    }
}

/// Whether an encoding stands for no number.
pub open spec fn is_nan(bits: u32) -> bool {
    magnitude(bits) > INFINITY_BITS
}

/// An integer that orders the encodings of numbers as the numbers are ordered.
/// Both zeros have the key 0.
pub open spec fn order_key(bits: u32) -> int {
    if is_negative(bits) {
        -magnitude(bits)
    } else {
        magnitude(bits)
    }
}

/// `a < b` on the encoded numbers: false as soon as one of them is no number.
pub open spec fn float_lt(a: u32, b: u32) -> bool {
    !is_nan(a) && !is_nan(b) && order_key(a) < order_key(b)
}

/// `a <= b` on the encoded numbers: false as soon as one of them is no number.
pub open spec fn float_le(a: u32, b: u32) -> bool {
    !is_nan(a) && !is_nan(b) && order_key(a) <= order_key(b)
}

/// Whether `x` lies in the closed range from `low` to `high`.
pub open spec fn in_closed_range(x: u32, low: u32, high: u32) -> bool {
    float_le(low, x) && float_le(x, high)
}

/// Computes the magnitude of an encoding.
pub fn magnitude_of(bits: u32) -> (m: u32)
    ensures
        m == magnitude(bits),
        m < SIGN_BIT,
{
    if bits >= SIGN_BIT {
        bits - SIGN_BIT
    } else {
        bits
    }
}

/// Tells whether an encoding stands for no number.
pub fn encodes_nan(bits: u32) -> (nan: bool)
    ensures
        nan == is_nan(bits),
{
    magnitude_of(bits) > INFINITY_BITS
}

/// Computes the order key of an encoding.
pub fn key_of(bits: u32) -> (key: i64)
    ensures
        key == order_key(bits),
{
    let m: u32 = magnitude_of(bits);
    let wide: i64 = m as i64;
    if bits >= SIGN_BIT {
        -wide
    } else {
        wide
    }
}

/// Compares two encoded numbers with `<`.
pub fn less_than(a: u32, b: u32) -> (lt: bool)
    ensures
        lt == float_lt(a, b),
{
    !encodes_nan(a) && !encodes_nan(b) && key_of(a) < key_of(b)
}

/// Compares two encoded numbers with `<=`.
pub fn less_or_equal(a: u32, b: u32) -> (le: bool)
    ensures
        le == float_le(a, b),
{
    !encodes_nan(a) && !encodes_nan(b) && key_of(a) <= key_of(b)
}

/// Tells whether `x` lies in the closed range from `low` to `high`.
pub fn lies_within(x: u32, low: u32, high: u32) -> (inside: bool)
    ensures
        inside == in_closed_range(x, low, high),
{
    less_or_equal(low, x) && less_or_equal(x, high)
}

} // verus!
