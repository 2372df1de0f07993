use vstd::prelude::*;

verus! {

/// The quotient of `a` by `b` rounded toward zero (`b` is not 0).
pub open spec fn trunc_div(a: int, b: int) -> int {
    if a >= 0 && b > 0 {
        a / b
    } else if a < 0 && b < 0 {
        (-a) / (-b)
    } else if a < 0 {
        -((-a) / b)
    } else {
        -(a / (-b))
    }
}

/// The remainder that goes with `trunc_div`: it has the sign of `a`, and its
/// size is that of `a` modulo that of `b`.
pub open spec fn trunc_rem(a: int, b: int) -> int {
    let m = if b < 0 { -b } else { b };
    if a >= 0 {
        a % m
    } else {
        -((-a) % m)
    }
}

/// Between 0 and `x`: the quotient of a number that is not negative by a
/// positive one; and its remainder is below the divisor.
proof fn lemma_quotient_range(x: int, d: int)
    requires
        x >= 0,
        d > 0,
    ensures
        0 <= x / d <= x,
        0 <= x % d < d,
        x % d <= x,
        x > 0 && d > 1 ==> x / d < x,
{
    if x > 0 && d > 1 {
        vstd::arithmetic::div_mod::lemma_div_is_strictly_smaller(x, d);
    }
    vstd::arithmetic::div_mod::lemma_div_pos_is_pos(x, d);
    vstd::arithmetic::div_mod::lemma_div_nonincreasing(x, d);
    vstd::arithmetic::div_mod::lemma_mod_pos_bound(x, d);
    vstd::arithmetic::div_mod::lemma_fundamental_div_mod(x, d);
    assert(d * (x / d) >= 0) by (nonlinear_arith)
        requires
            d > 0,
            x / d >= 0,
    ;
}

/// The quotient as the checked division of the standard library computes it
/// is `trunc_div`, and its size is at most that of the dividend.
proof fn lemma_checked_quotient(x: int, d: int)
    requires
        d != 0,
    ensures
        ({
            let output = if x == 0 {
                0
            } else if x > 0 && d > 0 {
                x / d
            } else if x < 0 && d < 0 {
                ((x * -1) / (d * -1))
            } else if x < 0 {
                ((x * -1) / d) * -1
            } else {
                (x / (d * -1)) * -1
            };
            &&& output == trunc_div(x, d)
            &&& x >= 0 ==> -x <= output <= x
            &&& x < 0 ==> x <= output <= -x
            &&& x < 0 && d < -1 ==> output < -x
        }),
{
    let ax = if x < 0 { -x } else { x };
    let ad = if d < 0 { -d } else { d };
    lemma_quotient_range(ax, ad);
}

/// Quotient and remainder rebuild the dividend.
pub proof fn lemma_trunc_div_rem(a: int, b: int)
    requires
        b != 0,
    ensures
        a == b * trunc_div(a, b) + trunc_rem(a, b),
{
    let x = if a < 0 { -a } else { a };
    let d = if b < 0 { -b } else { b };
    vstd::arithmetic::div_mod::lemma_fundamental_div_mod(x, d);
    let q = x / d;
    assert((-d) * q == -(d * q)) by (nonlinear_arith);
    assert(d * (-q) == -(d * q)) by (nonlinear_arith);
    assert((-d) * (-q) == d * q) by (nonlinear_arith);
}

/// 32-bit division: rounds toward zero; the one quotient that does not fit,
/// that of the least value by -1, wraps to the least value.
pub open spec fn int_div(a: i32, b: i32) -> i32 {
    if a == i32::MIN && b == -1 {
        i32::MIN
    } else {
        trunc_div(a as int, b as int) as i32
    }
}

pub open spec fn int_rem(a: i32, b: i32) -> i32 {
    if a == i32::MIN && b == -1 {
        0i32
    } else {
        trunc_rem(a as int, b as int) as i32
    }
}

pub open spec fn long_div(a: i64, b: i64) -> i64 {
    if a == i64::MIN && b == -1 {
        i64::MIN
    } else {
        trunc_div(a as int, b as int) as i64
    }
}

pub open spec fn long_rem(a: i64, b: i64) -> i64 {
    if a == i64::MIN && b == -1 {
        0i64
    } else {
        trunc_rem(a as int, b as int) as i64
    }
}

pub fn div_int(a: i32, b: i32) -> (q: i32)
    requires
        b != 0,
    ensures
        q == int_div(a, b),
{
    proof {
        lemma_checked_quotient(a as int, b as int);
    }
    match a.checked_div(b) {
        Some(q) => q,
        None => i32::MIN,
    }
}

pub fn rem_int(a: i32, b: i32) -> (r: i32)
    requires
        b != 0,
    ensures
        r == int_rem(a, b),
{
    proof {
        let x = if a < 0 { -(a as int) } else { a as int };
        let d = if b < 0 { -(b as int) } else { b as int };
        lemma_quotient_range(x, d);
    }
    match a.checked_rem(b) {
        Some(r) => r,
        None => 0,
    }
}

pub fn div_long(a: i64, b: i64) -> (q: i64)
    requires
        b != 0,
    ensures
        q == long_div(a, b),
{
    proof {
        lemma_checked_quotient(a as int, b as int);
    }
    match a.checked_div(b) {
        Some(q) => q,
        None => i64::MIN,
    }
}

pub fn rem_long(a: i64, b: i64) -> (r: i64)
    requires
        b != 0,
    ensures
        r == long_rem(a, b),
{
    proof {
        let x = if a < 0 { -(a as int) } else { a as int };
        let d = if b < 0 { -(b as int) } else { b as int };
        lemma_quotient_range(x, d);
    }
    match a.checked_rem(b) {
        Some(r) => r,
        None => 0,
    }
}

/// Shift left by the low five bits of `s`.
pub open spec fn int_shl(v: i32, s: i32) -> i32 {
    v << (s & 0x1f)
}

/// Arithmetic shift right by the low five bits of `s`.
pub open spec fn int_shr(v: i32, s: i32) -> i32 {
    v >> (s & 0x1f)
}

/// Logical shift right by the low five bits of `s`: zeros come in from the
/// left, as if the value were unsigned.
pub open spec fn int_ushr(v: i32, s: i32) -> i32 {
    ((v as u32) >> (s & 0x1f)) as i32
}

pub fn shl_int(v: i32, s: i32) -> (r: i32)
    ensures
        r == int_shl(v, s),
{
    let n: i32 = s & 0x1f;
    assert(0 <= n < 32) by (bit_vector)
        requires
            n == s & 0x1f,
    ;
    v << n
}

pub fn shr_int(v: i32, s: i32) -> (r: i32)
    ensures
        r == int_shr(v, s),
{
    let n: i32 = s & 0x1f;
    assert(0 <= n < 32) by (bit_vector)
        requires
            n == s & 0x1f,
    ;
    v >> n
}

pub fn ushr_int(v: i32, s: i32) -> (r: i32)
    ensures
        r == int_ushr(v, s),
{
    let n: i32 = s & 0x1f;
    assert(0 <= n < 32) by (bit_vector)
        requires
            n == s & 0x1f,
    ;
    #[verifier::truncate]
    (((#[verifier::truncate] (v as u32)) >> n) as i32)
}

/// Shift left by the low six bits of `s`.
pub open spec fn long_shl(v: i64, s: i64) -> i64 {
    v << (s & 0x3f)
}

/// Arithmetic shift right by the low six bits of `s`.
pub open spec fn long_shr(v: i64, s: i64) -> i64 {
    v >> (s & 0x3f)
}

/// Logical shift right by the low six bits of `s`.
pub open spec fn long_ushr(v: i64, s: i64) -> i64 {
    ((v as u64) >> (s & 0x3f)) as i64
}

pub fn shl_long(v: i64, s: i64) -> (r: i64)
    ensures
        r == long_shl(v, s),
{
    let n: i64 = s & 0x3f;
    assert(0 <= n < 64) by (bit_vector)
        requires
            n == s & 0x3f,
    ;
    v << n
}

pub fn shr_long(v: i64, s: i64) -> (r: i64)
    ensures
        r == long_shr(v, s),
{
    let n: i64 = s & 0x3f;
    assert(0 <= n < 64) by (bit_vector)
        requires
            n == s & 0x3f,
    ;
    v >> n
}

pub fn ushr_long(v: i64, s: i64) -> (r: i64)
    ensures
        r == long_ushr(v, s),
{
    let n: i64 = s & 0x3f;
    assert(0 <= n < 64) by (bit_vector)
        requires
            n == s & 0x3f,
    ;
    #[verifier::truncate]
    (((#[verifier::truncate] (v as u64)) >> n) as i64)
}

/// The sign of `a - b`: 1, 0 or -1.
pub open spec fn long_order(a: i64, b: i64) -> i32 {
    if a > b {
        1i32
    } else if a < b {
        -1i32
    } else {
        0i32
    }
}

/// The low eight bits of `v`, read as a signed number.
pub open spec fn int_to_byte(v: i32) -> i8 {
    v as i8
}

/// The low sixteen bits of `v`, read as a signed number.
pub open spec fn int_to_short(v: i32) -> i16 {
    v as i16
}

/// The low sixteen bits of `v`, read as an unsigned number.
pub open spec fn int_to_char(v: i32) -> u16 {
    v as u16
}

/// The low thirty-two bits of `v`, read as a signed number.
pub open spec fn long_to_int(v: i64) -> i32 {
    v as i32
}

pub fn byte_of_int(v: i32) -> (r: i8)
    ensures
        r == int_to_byte(v),
{
    #[verifier::truncate]
    (v as i8)
}

pub fn short_of_int(v: i32) -> (r: i16)
    ensures
        r == int_to_short(v),
{
    #[verifier::truncate]
    (v as i16)
}

pub fn char_of_int(v: i32) -> (r: u16)
    ensures
        r == int_to_char(v),
{
    #[verifier::truncate]
    (v as u16)
}

pub fn int_of_long(v: i64) -> (r: i32)
    ensures
        r == long_to_int(v),
{
    #[verifier::truncate]
    (v as i32)
}

/// Widening a 32-bit value to 64 bits and narrowing it again gives it back.
pub proof fn lemma_widen_then_narrow(i: i32)
    ensures
        long_to_int(i as i64) == i,
{
}

} // verus!
