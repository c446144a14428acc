//! Small shared helpers: clamping into closed intervals.

use vstd::prelude::*;

verus! {

/// `x` clamped into `[lo, hi]`, as a mathematical integer.
pub open spec fn clamp(x: int, lo: int, hi: int) -> int {
    if x < lo {
        lo
    } else if x > hi {
        hi
    } else {
        x
    }
}

/// Scale a possibly negative value by a milli-factor, with the
/// division split on the sign so that it acts on a non-negative
/// numerator (integer division then agrees between spec and exec code).
pub open spec fn scale_milli(x: int, f: int) -> int {
    if x >= 0 {
        x * f / 1000
    } else {
        -((-x) * f / 1000)
    }
}

/// Scale a signed value by a milli-factor.
pub fn scale_milli_i64(x: i64, f: u64) -> (r: i64)
    requires
        -1_000_000_000_000 <= x <= 1_000_000_000_000,
        f <= 2000,
    ensures
        r == scale_milli(x as int, f as int),
        x >= 0 ==> 0 <= r,
        x < 0 ==> r <= 0,
        x >= 0 && f <= 1000 ==> r <= x,
        x < 0 && f <= 1000 ==> x <= r,
        -2_000_000_000_000 <= r <= 2_000_000_000_000,
{
    if x >= 0 {
        let ax = x as u64;
        proof {
            lemma_mul_bounds(ax as int, f as int, 1_000_000_000_000, 2000);
            if f <= 1000 {
                assert((ax as int) * f <= (ax as int) * 1000) by (nonlinear_arith)
                    requires f <= 1000, 0 <= ax,
                {}
                vstd::arithmetic::div_mod::lemma_div_is_ordered(
                    (ax as int) * f, (ax as int) * 1000, 1000);
                vstd::arithmetic::div_mod::lemma_div_multiples_vanish(ax as int, 1000);
            }
            vstd::arithmetic::div_mod::lemma_div_pos_is_pos((ax * f) as int, 1000);
            vstd::arithmetic::div_mod::lemma_div_nonincreasing((ax * f) as int, 1000);
        }
        (ax * f / 1000) as i64
    } else {
        let ax = (-x) as u64;
        proof {
            lemma_mul_bounds(ax as int, f as int, 1_000_000_000_000, 2000);
            if f <= 1000 {
                assert((ax as int) * f <= (ax as int) * 1000) by (nonlinear_arith)
                    requires f <= 1000, 0 <= ax,
                {}
                vstd::arithmetic::div_mod::lemma_div_is_ordered(
                    (ax as int) * f, (ax as int) * 1000, 1000);
                vstd::arithmetic::div_mod::lemma_div_multiples_vanish(ax as int, 1000);
            }
            vstd::arithmetic::div_mod::lemma_div_pos_is_pos((ax * f) as int, 1000);
            vstd::arithmetic::div_mod::lemma_div_nonincreasing((ax * f) as int, 1000);
        }
        -((ax * f / 1000) as i64)
    }
}

/// Addition on 64-bit words that wraps past the type's maximum.
pub open spec fn spec_wrap_add(a: u64, b: u64) -> int {
    if a + b <= u64::MAX {
        a + b
    } else {
        a + b - 0x1_0000_0000_0000_0000
    }
}

/// Wrapping addition of two 64-bit values.
pub fn wrap_add(a: u64, b: u64) -> (r: u64)
    ensures
        r == spec_wrap_add(a, b),
{
    if b <= u64::MAX - a {
        a + b
    } else {
        b - (u64::MAX - a) - 1
    }
}

/// Bounding a product by the product of the bounds.
pub proof fn lemma_mul_bounds(a: int, b: int, amax: int, bmax: int)
    requires
        0 <= a <= amax,
        0 <= b <= bmax,
    ensures
        0 <= a * b <= amax * bmax,
{
    assert(0 <= a * b <= amax * bmax) by (nonlinear_arith)
        requires 0 <= a <= amax, 0 <= b <= bmax,
    {}
}

/// Clamp an unsigned value into `[lo, hi]`.
pub fn clamp_u64(x: u64, lo: u64, hi: u64) -> (r: u64)
    requires
        lo <= hi,
    ensures
        r == clamp(x as int, lo as int, hi as int),
        lo <= r <= hi,
{
    if x < lo {
        lo
    } else if x > hi {
        hi
    } else {
        x
    }
}

/// Clamp a signed value into `[lo, hi]`.
pub fn clamp_i64(x: i64, lo: i64, hi: i64) -> (r: i64)
    requires
        lo <= hi,
    ensures
        r == clamp(x as int, lo as int, hi as int),
        lo <= r <= hi,
{
    if x < lo {
        lo
    } else if x > hi {
        hi
    } else {
        x
    }
}

} // verus!
