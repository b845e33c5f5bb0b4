//! Fixed-point arithmetic on fractions of the screen.
//!
//! A [`Percentage`] counts millionths: `1_000_000` is the whole screen (or a
//! ratio of one), `500_000` is one half. Results that leave the range of `i64`
//! are clamped to it, and quotients are rounded towards negative infinity.

use vstd::prelude::*;

verus! {

/// A fraction, counted in millionths.
pub type Percentage = i64;

/// The fraction one.
pub const UNIT: i64 = 1_000_000;

/// The nearest value to `x` that an `i64` can hold.
pub open spec fn clamp(x: int) -> int {
    if x < i64::MIN {
        i64::MIN as int
    } else if x > i64::MAX {
        i64::MAX as int
    } else {
        x
    }
}

/// `n / d` rounded towards negative infinity, and `0` where `d` is `0`.
pub open spec fn quotient(n: int, d: int) -> int {
    if d > 0 {
        n / d
    } else if d < 0 {
        (-n) / (-d)
    } else {
        0
    }
}

/// The sum of two fractions.
pub open spec fn plus_spec(a: int, b: int) -> int {
    clamp(a + b)
}

/// The difference of two fractions.
pub open spec fn minus_spec(a: int, b: int) -> int {
    clamp(a - b)
}

/// The difference of two fractions, but never less than zero.
pub open spec fn gap_spec(a: int, b: int) -> int {
    if a - b < 0 {
        0
    } else {
        clamp(a - b)
    }
}

/// The product of two fractions.
pub open spec fn times_spec(a: int, b: int) -> int {
    clamp((a * b) / (UNIT as int))
}

/// `a` multiplied by the exact ratio `n / d`.
pub open spec fn scale_spec(a: int, n: int, d: int) -> int {
    clamp(quotient(a * n, d))
}

/// The quotient of two fractions, as a fraction.
pub open spec fn over_spec(a: int, b: int) -> int {
    scale_spec(a, UNIT as int, b)
}

/// The larger of two integers.
pub open spec fn larger_spec(a: int, b: int) -> int {
    if a >= b {
        a
    } else {
        b
    }
}

/// The Euclidean quotient of a negative numerator is one below the negated
/// quotient of what precedes its absolute value.
proof fn lemma_floor_negative(m: int, d: int)
    requires
        m > 0,
        d > 0,
    ensures
        (-m) / d == -((m - 1) / d) - 1,
{
    let t = (m - 1) / d;
    let s = (m - 1) % d;
    vstd::arithmetic::div_mod::lemma_fundamental_div_mod(m - 1, d);
    assert(0 <= s < d) by {
        vstd::arithmetic::div_mod::lemma_mod_pos_bound(m - 1, d);
    }
    assert(-m == d * (-t - 1) + (d - s - 1)) by (nonlinear_arith)
        requires
            m - 1 == d * t + s,
    ;
    vstd::arithmetic::div_mod::lemma_fundamental_div_mod_converse(-m, d, -t - 1, d - s - 1);
}

/// Division rounded towards negative infinity, for a positive divisor.
fn floor_div(n: i128, d: i128) -> (q: i128)
    requires
        d > 0,
        n > i128::MIN,
    ensures
        q == n / d,
{
    if n >= 0 {
        n / d
    } else {
        let m: i128 = -n;
        let t: i128 = (m - 1) / d;
        proof {
            lemma_floor_negative(m as int, d as int);
            vstd::arithmetic::div_mod::lemma_div_pos_is_pos(m - 1, d as int);
            vstd::arithmetic::div_mod::lemma_div_is_ordered_by_denominator(m - 1, 1, d as int);
        }
        -t - 1
    }
}

/// The quotient of two lengths as a whole number, rounded towards negative
/// infinity; zero where the divisor is zero.
pub fn whole_quotient(n: i64, d: i64) -> (q: i128)
    ensures
        q == quotient(n as int, d as int),
{
    if d > 0 {
        floor_div(n as i128, d as i128)
    } else if d < 0 {
        floor_div(-(n as i128), -(d as i128))
    } else {
        0
    }
}

/// Clamps a wide integer into the range of `i64`.
fn narrow(x: i128) -> (r: i64)
    ensures
        r == clamp(x as int),
{
    if x < i64::MIN as i128 {
        i64::MIN
    } else if x > i64::MAX as i128 {
        i64::MAX
    } else {
        x as i64
    }
}

/// The product of two `i64` values stays far inside the range of `i128`.
proof fn lemma_product_bound(a: int, b: int)
    requires
        i64::MIN <= a <= i64::MAX,
        i64::MIN <= b <= i64::MAX,
    ensures
        -0x4000_0000_0000_0000_0000_0000_0000_0000 <= a * b
            <= 0x4000_0000_0000_0000_0000_0000_0000_0000,
{
    assert(-0x4000_0000_0000_0000_0000_0000_0000_0000 <= a * b
        <= 0x4000_0000_0000_0000_0000_0000_0000_0000) by (nonlinear_arith)
        requires
            -0x8000_0000_0000_0000 <= a <= 0x8000_0000_0000_0000,
            -0x8000_0000_0000_0000 <= b <= 0x8000_0000_0000_0000,
    ;
}

/// Adds two fractions.
pub fn plus(a: Percentage, b: Percentage) -> (r: Percentage)
    ensures
        r == plus_spec(a as int, b as int),
{
    narrow(a as i128 + b as i128)
}

/// Subtracts `b` from `a`.
pub fn minus(a: Percentage, b: Percentage) -> (r: Percentage)
    ensures
        r == minus_spec(a as int, b as int),
{
    narrow(a as i128 - b as i128)
}

/// Subtracts `b` from `a`; a negative difference becomes zero.
pub fn gap(a: Percentage, b: Percentage) -> (r: Percentage)
    ensures
        r == gap_spec(a as int, b as int),
        r >= 0,
{
    let d: i128 = a as i128 - b as i128;
    if d < 0 {
        0
    } else {
        narrow(d)
    }
}

/// Multiplies two fractions.
pub fn times(a: Percentage, b: Percentage) -> (r: Percentage)
    ensures
        r == times_spec(a as int, b as int),
{
    proof {
        lemma_product_bound(a as int, b as int);
    }
    let p: i128 = a as i128 * b as i128;
    narrow(floor_div(p, UNIT as i128))
}

/// Multiplies `a` by the ratio `n / d`, rounding once, at the end.
pub fn scale(a: Percentage, n: i64, d: i64) -> (r: Percentage)
    ensures
        r == scale_spec(a as int, n as int, d as int),
{
    proof {
        lemma_product_bound(a as int, n as int);
    }
    let p: i128 = a as i128 * n as i128;
    if d > 0 {
        narrow(floor_div(p, d as i128))
    } else if d < 0 {
        narrow(floor_div(-p, -(d as i128)))
    } else {
        0
    }
}

/// Divides `a` by `b`; dividing by zero gives zero.
pub fn over(a: Percentage, b: Percentage) -> (r: Percentage)
    ensures
        r == over_spec(a as int, b as int),
{
    scale(a, UNIT, b)
}

/// The larger of two fractions.
pub fn larger(a: Percentage, b: Percentage) -> (r: Percentage)
    ensures
        r == larger_spec(a as int, b as int),
{
    if a >= b {
        a
    } else {
        b
    }
}

/// The fraction `n / d` of one.
pub fn fraction(n: i64, d: i64) -> (r: Percentage)
    ensures
        r == scale_spec(UNIT as int, n as int, d as int),
{
    scale(UNIT, n, d)
}

} // verus!
