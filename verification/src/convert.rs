use vstd::prelude::*;
use vstd::arithmetic::div_mod::lemma_div_denominator;
use vstd::arithmetic::power2::{
    lemma_pow2_pos, lemma_pow2_strictly_increases, lemma_pow2_unfold, pow2,
};
use crate::ieee::{double_is_nan, double_magnitude, single_is_nan, single_magnitude};

verus! {

// A floating-point number that is no NaN has the size
// significand x 2^scale, where both are whole numbers that its bit pattern
// gives. An infinity counts as a number beyond every integer; its pattern
// read by the same rule gives such a number.

/// The exponent field of a single-precision pattern.
pub open spec fn single_exponent(bits: u32) -> int {
    single_magnitude(bits) / 0x80_0000
}

/// The significand of a single-precision number: its fraction field, with
/// the leading one that a normal number leaves out.
pub open spec fn single_significand(bits: u32) -> int {
    if single_exponent(bits) == 0 {
        single_magnitude(bits) % 0x80_0000
    } else {
        single_magnitude(bits) % 0x80_0000 + 0x80_0000
    }
}

/// The power of two that the significand of a single-precision number is
/// multiplied by.
pub open spec fn single_scale(bits: u32) -> int {
    if single_exponent(bits) == 0 {
        -149
    } else {
        single_exponent(bits) - 150
    }
}

/// The exponent field of a double-precision pattern.
pub open spec fn double_exponent(bits: u64) -> int {
    double_magnitude(bits) / 0x10_0000_0000_0000
}

pub open spec fn double_significand(bits: u64) -> int {
    if double_exponent(bits) == 0 {
        double_magnitude(bits) % 0x10_0000_0000_0000
    } else {
        double_magnitude(bits) % 0x10_0000_0000_0000 + 0x10_0000_0000_0000
    }
}

pub open spec fn double_scale(bits: u64) -> int {
    if double_exponent(bits) == 0 {
        -1074
    } else {
        double_exponent(bits) - 1075
    }
}

/// The whole part of significand x 2^scale.
pub open spec fn whole_part(significand: int, scale: int) -> int {
    if scale >= 0 {
        significand * pow2(scale as nat)
    } else {
        significand / (pow2((-scale) as nat) as int)
    }
}

/// The number of the given sign and size cut down to a whole number toward
/// zero, and that brought into the range from `least` to `greatest`.
pub open spec fn truncated(
    negative: bool,
    significand: int,
    scale: int,
    least: int,
    greatest: int,
) -> int {
    let whole = whole_part(significand, scale);
    let value = if negative {
        -whole
    } else {
        whole
    };
    if value < least {
        least
    } else if value > greatest {
        greatest
    } else {
        value
    }
}

/// A float as an integer: 0 for a NaN, else the number cut toward zero, and
/// the nearest end of the range for what lies beyond it.
pub open spec fn single_to_int(bits: u32) -> i32 {
    if single_is_nan(bits) {
        0i32
    } else {
        truncated(
            bits >= 0x8000_0000,
            single_significand(bits),
            single_scale(bits),
            i32::MIN as int,
            i32::MAX as int,
        ) as i32
    }
}

/// A float as a long.
pub open spec fn single_to_long(bits: u32) -> i64 {
    if single_is_nan(bits) {
        0i64
    } else {
        truncated(
            bits >= 0x8000_0000,
            single_significand(bits),
            single_scale(bits),
            i64::MIN as int,
            i64::MAX as int,
        ) as i64
    }
}

/// A double as an integer.
pub open spec fn double_to_int(bits: u64) -> i32 {
    if double_is_nan(bits) {
        0i32
    } else {
        truncated(
            bits >= 0x8000_0000_0000_0000,
            double_significand(bits),
            double_scale(bits),
            i32::MIN as int,
            i32::MAX as int,
        ) as i32
    }
}

/// A double as a long.
pub open spec fn double_to_long(bits: u64) -> i64 {
    if double_is_nan(bits) {
        0i64
    } else {
        truncated(
            bits >= 0x8000_0000_0000_0000,
            double_significand(bits),
            double_scale(bits),
            i64::MIN as int,
            i64::MAX as int,
        ) as i64
    }
}

/// The whole part of significand x 2^scale, but no more than `limit`.
fn whole_up_to(significand: u64, scale: i32, limit: u128) -> (w: u128)
    requires
        limit < 0x1_0000_0000_0000_0000,
    ensures
        w == (if whole_part(significand as int, scale as int) > limit {
            limit as int
        } else {
            whole_part(significand as int, scale as int)
        }),
{
    let mut w: u128 = significand as u128;
    let mut k: i32 = 0;
    proof {
        vstd::arithmetic::power2::lemma2_to64();
        assert(significand * pow2(0) == significand) by (nonlinear_arith)
            requires
                pow2(0) == 1,
        ;
        assert((significand as int) / (pow2(0) as int) == significand);
    }
    if scale >= 0 {
        if w > limit {
            proof {
                lemma_pow2_pos(scale as nat);
                assert(significand * pow2(scale as nat) >= significand) by (nonlinear_arith)
                    requires
                        pow2(scale as nat) >= 1,
                        significand >= 0,
                ;
            }
            return limit;
        }
        while k < scale
            invariant
                0 <= k <= scale,
                limit < 0x1_0000_0000_0000_0000,
                w == significand * pow2(k as nat),
                w <= limit,
            decreases scale - k,
        {
            proof {
                lemma_pow2_unfold((k + 1) as nat);
                lemma_pow2_pos(k as nat);
                assert(significand * pow2((k + 1) as nat) == 2 * (significand * pow2(k as nat)))
                    by (nonlinear_arith)
                    requires
                        pow2((k + 1) as nat) == 2 * pow2(k as nat),
                ;
            }
            if w * 2 > limit {
                proof {
                    // Doubling on can only grow what is beyond the limit already.
                    if k + 1 < scale {
                        lemma_pow2_strictly_increases((k + 1) as nat, scale as nat);
                    }
                    lemma_pow2_pos((k + 1) as nat);
                    assert(significand * pow2(scale as nat) >= significand * pow2(
                        (k + 1) as nat,
                    )) by (nonlinear_arith)
                        requires
                            pow2(scale as nat) >= pow2((k + 1) as nat),
                            significand >= 0,
                    ;
                }
                return limit;
            }
            w = w * 2;
            k = k + 1;
        }
        w
    } else {
        let rounds: i64 = 0 - scale as i64;
        let mut j: i64 = 0;
        while j < rounds
            invariant
                0 <= j <= rounds,
                rounds == -scale,
                w == (significand as int) / (pow2(j as nat) as int),
                w <= significand,
            decreases rounds - j,
        {
            proof {
                lemma_pow2_unfold((j + 1) as nat);
                lemma_pow2_pos(j as nat);
                lemma_div_denominator(significand as int, pow2(j as nat) as int, 2);
                assert(pow2(j as nat) * 2 == 2 * pow2(j as nat)) by (nonlinear_arith);
            }
            w = w / 2;
            j = j + 1;
        }
        if w > limit {
            limit
        } else {
            w
        }
    }
}

/// The number of the given sign and size as a whole number of at most `bits`
/// binary places and a sign.
fn truncate(negative: bool, significand: u64, scale: i32, least: i64, greatest: i64) -> (v: i64)
    requires
        least < 0 < greatest,
        least == -greatest - 1,
    ensures
        v == truncated(negative, significand as int, scale as int, least as int, greatest as int),
{
    let limit: u128 = greatest as u128 + 1;
    let w = whole_up_to(significand, scale, limit);
    proof {
        if scale >= 0 {
            lemma_pow2_pos(scale as nat);
            assert(significand * pow2(scale as nat) >= 0) by (nonlinear_arith)
                requires
                    significand >= 0,
                    pow2(scale as nat) > 0,
            ;
        } else {
            lemma_pow2_pos((-scale) as nat);
            vstd::arithmetic::div_mod::lemma_div_pos_is_pos(
                significand as int,
                pow2((-scale) as nat) as int,
            );
        }
    }
    if negative {
        if w == limit {
            least
        } else {
            0 - (w as i64)
        }
    } else if w > greatest as u128 {
        greatest
    } else {
        w as i64
    }
}

/// The sign, the significand and the scale of a single-precision pattern.
fn single_parts(bits: u32) -> (parts: (bool, u64, i32))
    ensures
        parts == (bits >= 0x8000_0000, single_significand(bits) as u64, single_scale(bits) as i32),
        single_significand(bits) < 0x100_0000,
{
    let negative = bits >= 0x8000_0000;
    let magnitude: u32 = if negative {
        bits - 0x8000_0000
    } else {
        bits
    };
    let exponent = magnitude / 0x80_0000;
    let fraction = magnitude % 0x80_0000;
    if exponent == 0 {
        (negative, fraction as u64, -149)
    } else {
        (negative, fraction as u64 + 0x80_0000, exponent as i32 - 150)
    }
}

/// The sign, the significand and the scale of a double-precision pattern.
fn double_parts(bits: u64) -> (parts: (bool, u64, i32))
    ensures
        parts == (
            bits >= 0x8000_0000_0000_0000,
            double_significand(bits) as u64,
            double_scale(bits) as i32,
        ),
        double_significand(bits) < 0x20_0000_0000_0000,
{
    let negative = bits >= 0x8000_0000_0000_0000;
    let magnitude: u64 = if negative {
        bits - 0x8000_0000_0000_0000
    } else {
        bits
    };
    let exponent = magnitude / 0x10_0000_0000_0000;
    let fraction = magnitude % 0x10_0000_0000_0000;
    if exponent == 0 {
        (negative, fraction, -1074)
    } else {
        (negative, fraction + 0x10_0000_0000_0000, exponent as i32 - 1075)
    }
}

pub fn int_of_single(bits: u32) -> (v: i32)
    ensures
        v == single_to_int(bits),
{
    let (negative, significand, scale) = single_parts(bits);
    if significand > 0x80_0000 && scale == 105 {
        return 0;
    }
    truncate(negative, significand, scale, -0x8000_0000, 0x7fff_ffff) as i32
}

pub fn long_of_single(bits: u32) -> (v: i64)
    ensures
        v == single_to_long(bits),
{
    let (negative, significand, scale) = single_parts(bits);
    if significand > 0x80_0000 && scale == 105 {
        return 0;
    }
    truncate(negative, significand, scale, -0x8000_0000_0000_0000, 0x7fff_ffff_ffff_ffff)
}

pub fn int_of_double(bits: u64) -> (v: i32)
    ensures
        v == double_to_int(bits),
{
    let (negative, significand, scale) = double_parts(bits);
    if significand > 0x10_0000_0000_0000 && scale == 972 {
        return 0;
    }
    truncate(negative, significand, scale, -0x8000_0000, 0x7fff_ffff) as i32
}

pub fn long_of_double(bits: u64) -> (v: i64)
    ensures
        v == double_to_long(bits),
{
    let (negative, significand, scale) = double_parts(bits);
    if significand > 0x10_0000_0000_0000 && scale == 972 {
        return 0;
    }
    truncate(negative, significand, scale, -0x8000_0000_0000_0000, 0x7fff_ffff_ffff_ffff)
}

// A whole number becomes the floating-point number nearest to it; of two
// that are equally near, the one whose significand is even.

/// The place of the highest one in the binary form of `m`: the `p` with
/// 2^p <= m < 2^(p+1), for `m` above 0.
pub open spec fn top_place(m: int) -> int
    decreases m,
{
    if m <= 1 {
        0
    } else {
        1 + top_place(m / 2)
    }
}

/// `m / d` as the nearest whole number, and as the even one of two that are
/// equally near.
pub open spec fn nearest(m: int, d: int) -> int {
    let q = m / d;
    let r = m % d;
    if 2 * r > d || (2 * r == d && q % 2 == 1) {
        q + 1
    } else {
        q
    }
}

/// The pattern, without a sign, of the floating-point number nearest to the
/// whole number `m`, in a format with `places` bits of fraction and the
/// exponent bias `bias`. The significand has `places` bits after its leading
/// one: a smaller number is shifted up to that, a larger one rounded down to
/// it. The leading one of the significand adds one to the exponent field,
/// and so does a rounding that carries into a further bit.
pub open spec fn encoded(m: int, places: int, bias: int) -> int {
    if m <= 0 {
        0
    } else {
        let p = top_place(m);
        let significand = if p <= places {
            m * pow2((places - p) as nat)
        } else {
            nearest(m, pow2((p - places) as nat) as int)
        };
        (p + bias - 1) * pow2(places as nat) + significand
    }
}

/// The size of a whole number.
pub open spec fn size(i: int) -> int {
    if i < 0 {
        -i
    } else {
        i
    }
}

/// An integer as a float.
pub open spec fn int_to_single(i: i32) -> u32 {
    ((if i < 0 {
        0x8000_0000int
    } else {
        0int
    }) + encoded(size(i as int), 23, 127)) as u32
}

/// A long as a float.
pub open spec fn long_to_single(i: i64) -> u32 {
    ((if i < 0 {
        0x8000_0000int
    } else {
        0int
    }) + encoded(size(i as int), 23, 127)) as u32
}

/// An integer as a double.
pub open spec fn int_to_double(i: i32) -> u64 {
    ((if i < 0 {
        0x8000_0000_0000_0000int
    } else {
        0int
    }) + encoded(size(i as int), 52, 1023)) as u64
}

/// A long as a double.
pub open spec fn long_to_double(i: i64) -> u64 {
    ((if i < 0 {
        0x8000_0000_0000_0000int
    } else {
        0int
    }) + encoded(size(i as int), 52, 1023)) as u64
}

/// The highest one of a number above 0 stands at its top place.
pub proof fn lemma_top_place(m: int)
    requires
        m >= 1,
    ensures
        top_place(m) >= 0,
        pow2(top_place(m) as nat) <= m < pow2((top_place(m) + 1) as nat),
    decreases m,
{
    vstd::arithmetic::power2::lemma2_to64();
    if m > 1 {
        lemma_top_place(m / 2);
        let p = top_place(m / 2);
        lemma_pow2_unfold((p + 1) as nat);
        lemma_pow2_unfold((p + 2) as nat);
    }
}

/// 2^k.
fn power(k: u32) -> (r: u128)
    requires
        k <= 64,
    ensures
        r == pow2(k as nat),
        r <= 0x1_0000_0000_0000_0000,
{
    let mut r: u128 = 1;
    let mut i: u32 = 0;
    proof {
        vstd::arithmetic::power2::lemma2_to64();
        vstd::arithmetic::power2::lemma2_to64_rest();
    }
    while i < k
        invariant
            i <= k <= 64,
            r == pow2(i as nat),
            pow2(64) == 0x1_0000_0000_0000_0000,
        decreases k - i,
    {
        proof {
            lemma_pow2_unfold((i + 1) as nat);
            if i + 1 < 64 {
                lemma_pow2_strictly_increases((i + 1) as nat, 64);
            }
        }
        r = r * 2;
        i = i + 1;
    }
    proof {
        if k < 64 {
            lemma_pow2_strictly_increases(k as nat, 64);
        }
    }
    r
}

/// The top place of a number above 0.
fn place_of(m: u64) -> (p: u32)
    requires
        m >= 1,
    ensures
        p == top_place(m as int),
        p <= 63,
{
    let mut p: u32 = 0;
    let mut rest = m;
    proof {
        lemma_top_place(m as int);
        vstd::arithmetic::power2::lemma2_to64();
        vstd::arithmetic::power2::lemma2_to64_rest();
        if top_place(m as int) > 63 {
            lemma_pow2_strictly_increases(64, (top_place(m as int) + 1) as nat);
            if top_place(m as int) > 64 {
                lemma_pow2_strictly_increases(64, top_place(m as int) as nat);
            }
        }
    }
    while rest > 1
        invariant
            rest >= 1,
            top_place(m as int) == p + top_place(rest as int),
            top_place(m as int) <= 63,
            top_place(rest as int) >= 0,
        decreases rest,
    {
        proof {
            lemma_top_place((rest / 2) as int);
        }
        rest = rest / 2;
        p = p + 1;
    }
    p
}

/// The pattern without a sign of the floating-point number nearest to `m`.
fn encode(m: u64, places: u32, bias: u32) -> (bits: u64)
    requires
        places == 23 && bias == 127 || places == 52 && bias == 1023,
    ensures
        bits == encoded(m as int, places as int, bias as int),
        places == 23 ==> bits < 0x8000_0000,
        places == 52 ==> bits < 0x8000_0000_0000_0000,
{
    if m == 0 {
        return 0;
    }
    let p = place_of(m);
    let unit = power(places);
    proof {
        lemma_top_place(m as int);
        vstd::arithmetic::power2::lemma2_to64();
        vstd::arithmetic::power2::lemma2_to64_rest();
    }
    let significand: u128 = if p <= places {
        let up = power(places - p);
        proof {
            // m < 2^(p+1), so m x 2^(places-p) < 2^(places+1)
            vstd::arithmetic::power2::lemma_pow2_adds((p + 1) as nat, (places - p) as nat);
            lemma_pow2_unfold((places + 1) as nat);
            assert(m * up < pow2((p + 1) as nat) * up) by (nonlinear_arith)
                requires
                    m < pow2((p + 1) as nat),
                    up > 0,
            ;
        }
        (m as u128) * up
    } else {
        let down = power(p - places);
        let q = (m as u128) / down;
        let r = (m as u128) % down;
        proof {
            // m < 2^(p+1), so m / 2^(p-places) < 2^(places+1)
            vstd::arithmetic::power2::lemma_pow2_adds((places + 1) as nat, (p - places) as nat);
            lemma_pow2_unfold((places + 1) as nat);
            vstd::arithmetic::div_mod::lemma_fundamental_div_mod(m as int, down as int);
            assert(q < 2 * unit) by (nonlinear_arith)
                requires
                    m == down * q + r,
                    r >= 0,
                    down > 0,
                    m < (2 * unit) * down,
            ;
        }
        if 2 * r > down || (2 * r == down && q % 2 == 1) {
            q + 1
        } else {
            q
        }
    };
    let field: u128 = (p + bias - 1) as u128;
    proof {
        assert(field * unit <= 1086 * unit) by (nonlinear_arith)
            requires
                field <= 1086,
                unit >= 0,
        ;
        if places == 23 {
            assert(field * unit <= 189 * unit) by (nonlinear_arith)
                requires
                    field <= 189,
                    unit >= 0,
            ;
        }
    }
    (field * unit + significand) as u64
}

pub fn single_of_int(i: i32) -> (bits: u32)
    ensures
        bits == int_to_single(i),
{
    if i < 0 {
        0x8000_0000 + encode((0 - i as i64) as u64, 23, 127) as u32
    } else {
        encode(i as u64, 23, 127) as u32
    }
}

pub fn single_of_long(i: i64) -> (bits: u32)
    ensures
        bits == long_to_single(i),
{
    if i < 0 {
        0x8000_0000 + encode((0 - i as i128) as u64, 23, 127) as u32
    } else {
        encode(i as u64, 23, 127) as u32
    }
}

pub fn double_of_int(i: i32) -> (bits: u64)
    ensures
        bits == int_to_double(i),
{
    if i < 0 {
        0x8000_0000_0000_0000 + encode((0 - i as i64) as u64, 52, 1023)
    } else {
        encode(i as u64, 52, 1023)
    }
}

pub fn double_of_long(i: i64) -> (bits: u64)
    ensures
        bits == long_to_double(i),
{
    if i < 0 {
        0x8000_0000_0000_0000 + encode((0 - i as i128) as u64, 52, 1023)
    } else {
        encode(i as u64, 52, 1023)
    }
}

// A float becomes the double of the same value, a double the float
// nearest to it. Infinities stay infinities; a NaN becomes the quiet NaN
// without a payload, of the same sign.

/// The pattern of the quiet single-precision NaN, without its sign.
pub const SINGLE_NAN: u32 = 0x7fc0_0000;

/// The pattern of the single-precision infinity, without its sign.
pub const SINGLE_INFINITY: u32 = 0x7f80_0000;

/// The pattern of the quiet double-precision NaN, without its sign.
pub const DOUBLE_NAN: u64 = 0x7ff8_0000_0000_0000;

/// The pattern of the double-precision infinity, without its sign.
pub const DOUBLE_INFINITY: u64 = 0x7ff0_0000_0000_0000;

/// The double that has the size of the float `bits`, without its sign. A
/// float of significand `s` with its highest one at place `p`, and of scale
/// `e`, lies between 2^(p+e) and 2^(p+e+1); every such number is a normal
/// double, whose significand is `s` shifted up to 52 places.
pub open spec fn widened_size(bits: u32) -> int {
    if single_is_nan(bits) {
        DOUBLE_NAN as int
    } else if single_exponent(bits) == 255 {
        DOUBLE_INFINITY as int
    } else if single_significand(bits) == 0 {
        0
    } else {
        let s = single_significand(bits);
        let p = top_place(s);
        (p + single_scale(bits) + 1022) * pow2(52) + s * pow2((52 - p) as nat)
    }
}

/// A float as a double.
pub open spec fn single_to_double(bits: u32) -> u64 {
    ((if bits >= 0x8000_0000 {
        0x8000_0000_0000_0000int
    } else {
        0int
    }) + widened_size(bits)) as u64
}

/// The float nearest to the size of the double `bits`, without its sign.
/// - What lies at or above 2^-126 becomes a normal float, its significand
///   rounded to 23 places, or the infinity if that is beyond the greatest
///   float.
/// - What lies below becomes a multiple of 2^-149, the nearest one.
pub open spec fn narrowed_size(bits: u64) -> int {
    if double_is_nan(bits) {
        SINGLE_NAN as int
    } else if double_exponent(bits) == 2047 {
        SINGLE_INFINITY as int
    } else if double_significand(bits) == 0 {
        0
    } else {
        let s = double_significand(bits);
        let p = top_place(s);
        let e = p + double_scale(bits);
        if e >= -126 {
            let significand = if p <= 23 {
                s * pow2((23 - p) as nat)
            } else {
                nearest(s, pow2((p - 23) as nat) as int)
            };
            let pattern = (e + 126) * pow2(23) + significand;
            if pattern >= SINGLE_INFINITY {
                SINGLE_INFINITY as int
            } else {
                pattern
            }
        } else {
            nearest(s, pow2((-(double_scale(bits) + 149)) as nat) as int)
        }
    }
}

/// A double as a float.
pub open spec fn double_to_single(bits: u64) -> u32 {
    ((if bits >= 0x8000_0000_0000_0000 {
        0x8000_0000int
    } else {
        0int
    }) + narrowed_size(bits)) as u32
}

pub fn double_of_single(bits: u32) -> (r: u64)
    ensures
        r == single_to_double(bits),
{
    let (negative, s, scale) = single_parts(bits);
    let sign: u64 = if negative {
        0x8000_0000_0000_0000
    } else {
        0
    };
    if scale == 105 {
        return if s > 0x80_0000 {
            sign + DOUBLE_NAN
        } else {
            sign + DOUBLE_INFINITY
        };
    }
    if s == 0 {
        return sign;
    }
    let p = place_of(s);
    proof {
        lemma_top_place(s as int);
        vstd::arithmetic::power2::lemma2_to64();
        vstd::arithmetic::power2::lemma2_to64_rest();
        if p > 23 {
            lemma_pow2_strictly_increases(24, p as nat);
        }
    }
    let unit = power(52);
    let up = power(52 - p);
    proof {
        vstd::arithmetic::power2::lemma_pow2_adds((p + 1) as nat, (52 - p) as nat);
        lemma_pow2_unfold(53);
        assert(s * up < pow2((p + 1) as nat) * up) by (nonlinear_arith)
            requires
                s < pow2((p + 1) as nat),
                up > 0,
        ;
    }
    let field: u128 = (p as i32 + scale + 1022) as u128;
    proof {
        assert(field * unit <= 1150 * unit) by (nonlinear_arith)
            requires
                field <= 1150,
                unit >= 0,
        ;
    }
    sign + (field * unit + (s as u128) * up) as u64
}

/// `s / 2^shift` as the nearest whole number, and as the even one of two
/// that are equally near.
fn round_off(s: u64, shift: u32) -> (rounded: u64)
    requires
        s < 0x20_0000_0000_0000,
    ensures
        rounded == nearest(s as int, pow2(shift as nat) as int),
{
    proof {
        vstd::arithmetic::power2::lemma2_to64();
        vstd::arithmetic::power2::lemma2_to64_rest();
        lemma_pow2_pos(shift as nat);
    }
    if shift >= 55 {
        proof {
            if shift > 55 {
                lemma_pow2_strictly_increases(55, shift as nat);
            }
            vstd::arithmetic::div_mod::lemma_small_mod(s as nat, pow2(shift as nat));
            vstd::arithmetic::div_mod::lemma_basic_div(s as int, pow2(shift as nat) as int);
        }
        return 0;
    }
    let d = power(shift);
    let q = (s as u128) / d;
    let r = (s as u128) % d;
    proof {
        vstd::arithmetic::div_mod::lemma_div_nonincreasing(s as int, d as int);
    }
    if 2 * r > d || (2 * r == d && q % 2 == 1) {
        (q + 1) as u64
    } else {
        q as u64
    }
}

pub fn single_of_double(bits: u64) -> (r: u32)
    ensures
        r == double_to_single(bits),
{
    let (negative, s, scale) = double_parts(bits);
    let sign: u32 = if negative {
        0x8000_0000
    } else {
        0
    };
    if scale == 972 {
        return if s > 0x10_0000_0000_0000 {
            sign + SINGLE_NAN
        } else {
            sign + SINGLE_INFINITY
        };
    }
    if s == 0 {
        return sign;
    }
    let p = place_of(s);
    proof {
        lemma_top_place(s as int);
        vstd::arithmetic::power2::lemma2_to64();
        vstd::arithmetic::power2::lemma2_to64_rest();
        if p > 52 {
            lemma_pow2_strictly_increases(53, p as nat);
        }
    }
    let e: i32 = p as i32 + scale;
    if e >= -126 {
        let unit = power(23);
        let significand: u128 = if p <= 23 {
            let up = power(23 - p);
            proof {
                vstd::arithmetic::power2::lemma_pow2_adds((p + 1) as nat, (23 - p) as nat);
                lemma_pow2_unfold(24);
                assert(s * up < pow2((p + 1) as nat) * up) by (nonlinear_arith)
                    requires
                        s < pow2((p + 1) as nat),
                        up > 0,
                ;
            }
            (s as u128) * up
        } else {
            proof {
                vstd::arithmetic::power2::lemma_pow2_adds(24, (p - 23) as nat);
                lemma_round_off_bound(s as int, (p - 23) as int, 0x100_0000);
            }
            round_off(s, p - 23) as u128
        };
        let field: u128 = (e + 126) as u128;
        proof {
            assert(field * unit <= 1150 * unit) by (nonlinear_arith)
                requires
                    field <= 1150,
                    unit >= 0,
            ;
        }
        let pattern = field * unit + significand;
        if pattern >= SINGLE_INFINITY as u128 {
            sign + SINGLE_INFINITY
        } else {
            sign + pattern as u32
        }
    } else {
        let shift = (0 - (scale + 149)) as u32;
        let rounded = round_off(s, shift);
        proof {
            // What lies below 2^-126 is less than 2^23 multiples of 2^-149.
            if p + 1 < shift + 23 {
                lemma_pow2_strictly_increases((p + 1) as nat, (shift + 23) as nat);
            }
            vstd::arithmetic::power2::lemma_pow2_adds(23, shift as nat);
            lemma_round_off_bound(s as int, shift as int, 0x80_0000);
        }
        sign + rounded as u32
    }
}

/// A number below `bound` x 2^shift that is rounded off by `shift` places
/// comes to `bound` at most.
proof fn lemma_round_off_bound(s: int, shift: int, bound: int)
    requires
        0 <= shift,
        0 <= s < bound * pow2(shift as nat),
    ensures
        nearest(s, pow2(shift as nat) as int) <= bound,
{
    lemma_pow2_pos(shift as nat);
    let d = pow2(shift as nat) as int;
    vstd::arithmetic::div_mod::lemma_fundamental_div_mod(s, d);
    let q = s / d;
    let r = s % d;
    assert(q < bound) by (nonlinear_arith)
        requires
            s == d * q + r,
            0 <= r,
            d > 0,
            s < bound * d,
    ;
}

/// An integer of no more than 24 binary places is a float exactly, so the
/// way to a float and back gives it again.
pub proof fn lemma_int_single_round_trip(i: i32)
    requires
        -0x80_0000 <= i <= 0x80_0000,
    ensures
        single_to_int(int_to_single(i)) == i,
{
    vstd::arithmetic::power2::lemma2_to64();
    let m = size(i as int);
    if m == 0 {
        lemma_pow2_pos(149);
        vstd::arithmetic::div_mod::lemma_basic_div(0, pow2(149) as int);
    } else {
        let p = top_place(m);
        lemma_top_place(m);
        if p > 24 {
            lemma_pow2_strictly_increases(24, p as nat);
        }
        // The highest one stands at place 23 at most, so the number is shifted
        // up to its significand without loss.
        let up = pow2((23 - p) as nat) as int;
        lemma_pow2_pos((23 - p) as nat);
        vstd::arithmetic::power2::lemma_pow2_adds(p as nat, (23 - p) as nat);
        vstd::arithmetic::power2::lemma_pow2_adds((p + 1) as nat, (23 - p) as nat);
        let significand = m * up;
        assert(0x80_0000 <= significand < 0x100_0000) by (nonlinear_arith)
            requires
                significand == m * up,
                pow2(p as nat) <= m < pow2((p + 1) as nat),
                pow2(p as nat) * up == 0x80_0000,
                pow2((p + 1) as nat) * up == 0x100_0000,
                up > 0,
        ;
        // The pattern holds the exponent p + 127 and the significand.
        let pattern = (p + 126) * 0x80_0000 + significand;
        vstd::arithmetic::div_mod::lemma_fundamental_div_mod_converse(
            pattern,
            0x80_0000,
            p + 127,
            significand - 0x80_0000,
        );
        assert(single_significand(int_to_single(i)) == significand);
        assert(single_scale(int_to_single(i)) == p - 23);
        // Shifting the significand down again gives the number.
        if p < 23 {
            vstd::arithmetic::div_mod::lemma_div_multiples_vanish(m, up);
            assert(up * m == m * up) by (nonlinear_arith);
        } else {
            assert(m * up == m) by (nonlinear_arith)
                requires
                    up == 1,
            ;
        }
    }
}

} // verus!
