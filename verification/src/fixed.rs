//! Fixed-point arithmetic helpers.
//!
//! All coordinate math in this library runs on `i64` micro-units. The
//! spec-level helpers here are written over `int` and mirrored exactly
//! by the executable ones, including the direction in which division
//! truncates, so contracts elsewhere can quote one formula for both.

use vstd::prelude::*;

verus! {

/// `x` forced into `[lo, hi]`.
pub open spec fn clamp(x: int, lo: int, hi: int) -> int
    recommends
        lo <= hi,
{
    if x < lo {
        lo
    } else if x > hi {
        hi
    } else {
        x
    }
}

/// Division that truncates towards zero, the way the executable `/`
/// does on signed integers, stated over mathematical integers.
pub open spec fn div_trunc(a: int, b: int) -> int
    recommends
        b > 0,
{
    if a >= 0 {
        a / b
    } else {
        -((-a) / b)
    }
}

/// `x` forced into `[lo, hi]`, at run time.
pub fn clamp_i64(x: i64, lo: i64, hi: i64) -> (r: i64)
    requires
        lo <= hi,
    ensures
        r == clamp(x as int, lo as int, hi as int),
{
    if x < lo {
        lo
    } else if x > hi {
        hi
    } else {
        x
    }
}

/// Truncating division on `i64`, matching `div_trunc`.
pub fn div_trunc_i64(a: i64, b: i64) -> (r: i64)
    requires
        b > 0,
        a > i64::MIN,
    ensures
        r == div_trunc(a as int, b as int),
{
    if a >= 0 {
        a / b
    } else {
        -((-a) / b)
    }
}

/// `a * num / den`, computed without overflow in 128-bit arithmetic,
/// truncated towards zero and clamped into `[lo, hi]`.
pub fn mul_div_clamp(a: i64, num: i64, den: i64, lo: i64, hi: i64) -> (r: i64)
    requires
        den > 0,
        num >= 0,
        lo <= hi,
    ensures
        r == clamp(div_trunc(a as int * num as int, den as int), lo as int, hi as int),
{
    proof {
        assert((-0x8000_0000_0000_0000i128 * 0x8000_0000_0000_0000i128) <= a as int * num as int
            <= 0x8000_0000_0000_0000i128 * 0x8000_0000_0000_0000i128) by (nonlinear_arith)
            requires
                -0x8000_0000_0000_0000i128 <= a <= 0x7fff_ffff_ffff_ffffi128,
                0 <= num <= 0x7fff_ffff_ffff_ffffi128,
        ;
    }
    let wide: i128 = (a as i128) * (num as i128);
    let q: i128 = if wide >= 0 {
        wide / (den as i128)
    } else {
        -((-wide) / (den as i128))
    };
    proof {
        assert(q == div_trunc(a as int * num as int, den as int));
    }
    if q < lo as i128 {
        lo
    } else if q > hi as i128 {
        hi
    } else {
        q as i64
    }
}

} // verus!
