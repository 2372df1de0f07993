use vstd::prelude::*;

verus! {

// Floating-point numbers are carried as their IEEE-754 bit patterns: 32 bits
// for single precision, 64 bits for double precision. A pattern is a sign bit,
// then the exponent, then the fraction. What this module decides on patterns
// (sign, NaN, order) needs no floating-point arithmetic.

/// The bit pattern without its sign bit (single precision).
pub open spec fn single_magnitude(bits: u32) -> int {
    if bits >= 0x8000_0000 {
        bits - 0x8000_0000
    } else {
        bits as int
    }
}

/// Not a number: the exponent is all ones and the fraction is not zero.
pub open spec fn single_is_nan(bits: u32) -> bool {
    single_magnitude(bits) > 0x7f80_0000
}

/// An integer that orders the numbers as IEEE-754 does: it grows with the
/// number, and both zeros map to 0. Meaningful for every pattern but a NaN.
pub open spec fn single_rank(bits: u32) -> int {
    if bits >= 0x8000_0000 {
        -single_magnitude(bits)
    } else {
        single_magnitude(bits)
    }
}

/// What a comparison of `a` with `b` gives: `unordered` if either is a NaN,
/// else 1, 0 or -1 as `a` is greater than, equal to or less than `b`.
pub open spec fn single_compare(a: u32, b: u32, unordered: i32) -> i32 {
    if single_is_nan(a) || single_is_nan(b) {
        unordered
    } else if single_rank(a) > single_rank(b) {
        1i32
    } else if single_rank(a) < single_rank(b) {
        -1i32
    } else {
        0i32
    }
}

/// The same pattern with the sign bit flipped.
pub open spec fn single_negate(bits: u32) -> u32 {
    if bits >= 0x8000_0000 {
        (bits - 0x8000_0000) as u32
    } else {
        (bits + 0x8000_0000) as u32
    }
}

/// The bit pattern without its sign bit (double precision).
pub open spec fn double_magnitude(bits: u64) -> int {
    if bits >= 0x8000_0000_0000_0000 {
        bits - 0x8000_0000_0000_0000
    } else {
        bits as int
    }
}

pub open spec fn double_is_nan(bits: u64) -> bool {
    double_magnitude(bits) > 0x7ff0_0000_0000_0000
}

pub open spec fn double_rank(bits: u64) -> int {
    if bits >= 0x8000_0000_0000_0000 {
        -double_magnitude(bits)
    } else {
        double_magnitude(bits)
    }
}

pub open spec fn double_compare(a: u64, b: u64, unordered: i32) -> i32 {
    if double_is_nan(a) || double_is_nan(b) {
        unordered
    } else if double_rank(a) > double_rank(b) {
        1i32
    } else if double_rank(a) < double_rank(b) {
        -1i32
    } else {
        0i32
    }
}

pub open spec fn double_negate(bits: u64) -> u64 {
    if bits >= 0x8000_0000_0000_0000 {
        (bits - 0x8000_0000_0000_0000) as u64
    } else {
        (bits + 0x8000_0000_0000_0000) as u64
    }
}

pub fn compare_single(a: u32, b: u32, unordered: i32) -> (r: i32)
    ensures
        r == single_compare(a, b, unordered),
{
    let a_neg: bool = a >= 0x8000_0000;
    let b_neg: bool = b >= 0x8000_0000;
    let a_mag: u32 = if a_neg { a - 0x8000_0000 } else { a };
    let b_mag: u32 = if b_neg { b - 0x8000_0000 } else { b };
    if a_mag > 0x7f80_0000 || b_mag > 0x7f80_0000 {
        return unordered;
    }
    let a_rank: i64 = if a_neg { -(a_mag as i64) } else { a_mag as i64 };
    let b_rank: i64 = if b_neg { -(b_mag as i64) } else { b_mag as i64 };
    if a_rank > b_rank {
        1
    } else if a_rank < b_rank {
        -1
    } else {
        0
    }
}

pub fn compare_double(a: u64, b: u64, unordered: i32) -> (r: i32)
    ensures
        r == double_compare(a, b, unordered),
{
    let a_neg: bool = a >= 0x8000_0000_0000_0000;
    let b_neg: bool = b >= 0x8000_0000_0000_0000;
    let a_mag: u64 = if a_neg { a - 0x8000_0000_0000_0000 } else { a };
    let b_mag: u64 = if b_neg { b - 0x8000_0000_0000_0000 } else { b };
    if a_mag > 0x7ff0_0000_0000_0000 || b_mag > 0x7ff0_0000_0000_0000 {
        return unordered;
    }
    let a_rank: i128 = if a_neg { -(a_mag as i128) } else { a_mag as i128 };
    let b_rank: i128 = if b_neg { -(b_mag as i128) } else { b_mag as i128 };
    if a_rank > b_rank {
        1
    } else if a_rank < b_rank {
        -1
    } else {
        0
    }
}

pub fn negate_single(bits: u32) -> (r: u32)
    ensures
        r == single_negate(bits),
{
    if bits >= 0x8000_0000 {
        bits - 0x8000_0000
    } else {
        bits + 0x8000_0000
    }
}

pub fn negate_double(bits: u64) -> (r: u64)
    ensures
        r == double_negate(bits),
{
    if bits >= 0x8000_0000_0000_0000 {
        bits - 0x8000_0000_0000_0000
    } else {
        bits + 0x8000_0000_0000_0000
    }
}

/// A comparison with a NaN on either side gives the unordered result,
/// whatever the other side is.
pub proof fn lemma_nan_is_unordered(nan: u32, x: u32, unordered: i32)
    requires
        single_is_nan(nan),
    ensures
        single_compare(nan, x, unordered) == unordered,
        single_compare(x, nan, unordered) == unordered,
{
}

/// The same for double precision.
pub proof fn lemma_double_nan_is_unordered(nan: u64, x: u64, unordered: i32)
    requires
        double_is_nan(nan),
    ensures
        double_compare(nan, x, unordered) == unordered,
        double_compare(x, nan, unordered) == unordered,
{
}

} // verus!
