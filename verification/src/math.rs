//! Saturating and truncating integer arithmetic on `i128`, as the contracts
//! use it for token amounts.

use vstd::prelude::*;

verus! {

/// The value of `x` clamped into the range of `i128`.
pub open spec fn clamp_i128(x: int) -> int {
    if x > i128::MAX {
        i128::MAX as int
    } else if x < i128::MIN {
        i128::MIN as int
    } else {
        x
    }
}

/// Division rounding toward zero, as Rust's `/` on signed integers does.
pub open spec fn div_toward_zero(x: int, d: int) -> int
    recommends
        d > 0,
{
    if x >= 0 {
        x / d
    } else {
        -((-x) / d)
    }
}

/// `a + b`, saturating at the bounds of `i128`.
pub fn sat_add(a: i128, b: i128) -> (r: i128)
    ensures
        r == clamp_i128(a + b),
{
    match a.checked_add(b) {
        Some(s) => s,
        None => if b > 0 {
            i128::MAX
        } else {
            i128::MIN
        },
    }
}

/// `a - b`, saturating at the bounds of `i128`.
pub fn sat_sub(a: i128, b: i128) -> (r: i128)
    ensures
        r == clamp_i128(a - b),
{
    match a.checked_sub(b) {
        Some(s) => s,
        None => if b < 0 {
            i128::MAX
        } else {
            i128::MIN
        },
    }
}

/// `a * b`, saturating at the bounds of `i128`.
pub fn sat_mul(a: i128, b: i128) -> (r: i128)
    ensures
        r == clamp_i128(a * b),
{
    match a.checked_mul(b) {
        Some(p) => p,
        None => {
            if (a > 0 && b > 0) || (a < 0 && b < 0) {
                assert(a * b > 0) by (nonlinear_arith)
                    requires
                        (a > 0 && b > 0) || (a < 0 && b < 0),
                ;
                i128::MAX
            } else {
                assert(a * b <= 0) by (nonlinear_arith)
                    requires
                        !((a > 0 && b > 0) || (a < 0 && b < 0)),
                ;
                i128::MIN
            }
        },
    }
}

} // verus!
