//! Saturating token arithmetic on `i128` amounts.
//!
//! Token amounts are `i128`. Every sum and product of amounts in the
//! contract saturates at the bounds of `i128` instead of overflowing.
use vstd::prelude::*;

verus! {

/// The value of `x` clamped into the range of `i128`.
pub open spec fn saturate(x: int) -> int {
    if x > i128::MAX {
        i128::MAX as int
    } else if x < i128::MIN {
        i128::MIN as int
    } else {
        x
    }
}

/// `x / 2` rounded toward zero, as Rust's integer division rounds.
pub open spec fn half_toward_zero(x: int) -> int {
    if x >= 0 {
        x / 2
    } else {
        -((-x) / 2)
    }
}

/// `a + b`, saturating at the bounds of `i128`.
pub fn saturating_add(a: i128, b: i128) -> (r: i128)
    ensures
        r == saturate(a + b),
{
    match a.checked_add(b) {
        Some(s) => s,
        None => if b > 0 {
            i128::MAX
        } else {
            i128::MIN
        },
    }
}

/// `a - b`, saturating at the bounds of `i128`.
pub fn saturating_sub(a: i128, b: i128) -> (r: i128)
    ensures
        r == saturate(a - b),
{
    match a.checked_sub(b) {
        Some(s) => s,
        None => if b < 0 {
            i128::MAX
        } else {
            i128::MIN
        },
    }
}

/// `a * b`, saturating at the bounds of `i128`.
pub fn saturating_mul(a: i128, b: i128) -> (r: i128)
    ensures
        r == saturate(a * b),
{
    match a.checked_mul(b) {
        Some(p) => p,
        None => {
            let same_sign = (a > 0) == (b > 0);
            assert(a != 0 && b != 0);
            if same_sign {
                assert(a * b > 0) by (nonlinear_arith)
                    requires
                        a != 0,
                        b != 0,
                        (a > 0) == (b > 0),
                ;
                i128::MAX
            } else {
                assert(a * b < 0) by (nonlinear_arith)
                    requires
                        a != 0,
                        b != 0,
                        (a > 0) != (b > 0),
                ;
                i128::MIN
            }
        },
    }
}

/// `a / 2` rounded toward zero; this never saturates.
pub fn halve(a: i128) -> (r: i128)
    ensures
        r == half_toward_zero(a as int),
{
    match a.checked_div(2) {
        Some(q) => q,
        None => 0,
    }
}

} // verus!
