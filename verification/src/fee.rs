//! Exact fee arithmetic.
//!
//! Gas adjustment and gas price are exact rationals rather than
//! floating-point numbers, so the gas limit and the fee amount are
//! fully determined: each is the ceiling of a product with such a
//! rational.

use vstd::prelude::*;

verus! {

use vstd::arithmetic::div_mod::lemma_remainder;
use vstd::arithmetic::mul::lemma_mul_upper_bound;

/// An exact non-negative rational scale factor, `num / den`.
#[derive(Clone, Copy, Debug, PartialEq, Eq, Structural)]
pub struct Ratio {
    pub num: u64,
    pub den: u64,
}

pub open spec fn ratio_valid(r: Ratio) -> bool {
    r.den > 0
}

/// `ceil(x * r)` over the integers: the least integer that is at least
/// `x * r.num / r.den`.
pub open spec fn scale_ceil(x: int, r: Ratio) -> int {
    (x * r.num + r.den - 1) / (r.den as int)
}

/// `scale_ceil` really is the ceiling of `x * num / den`: scaled back
/// up by the denominator it reaches the product, while its predecessor
/// falls short.
pub proof fn lemma_scale_ceil_is_ceiling(x: int, r: Ratio)
    requires
        ratio_valid(r),
        x >= 0,
    ensures
        scale_ceil(x, r) * r.den >= x * r.num,
        (scale_ceil(x, r) - 1) * r.den < x * r.num,
        scale_ceil(x, r) >= 0,
{
    let n = x * r.num;
    let d = r.den as int;
    let t = n + d - 1;
    let c = t / d;
    assert(x * r.num >= 0) by (nonlinear_arith)
        requires
            x >= 0,
            r.num >= 0,
    ;
    lemma_remainder(t, d);
    assert(0 <= t - (c * d) < d);
    assert(c * d >= t - d + 1 == n);
    assert((c - 1) * d == c * d - d) by (nonlinear_arith);
    assert((c - 1) * d <= t - d < n);
    assert(c >= 0) by (nonlinear_arith)
        requires
            c * d >= n,
            n >= 0,
            d > 0,
    ;
}

/// Computes `ceil(x * r)` exactly, or `None` when the result does not
/// fit in a `u64`.
pub fn scale_up(x: u64, r: Ratio) -> (res: Option<u64>)
    requires
        ratio_valid(r),
    ensures
        match res {
            Some(v) => v == scale_ceil(x as int, r) && scale_ceil(x as int, r) <= u64::MAX,
            None => scale_ceil(x as int, r) > u64::MAX,
        },
{
    proof {
        lemma_mul_upper_bound(x as int, u64::MAX as int, r.num as int, u64::MAX as int);
    }
    let prod: u128 = (x as u128) * (r.num as u128);
    let c: u128 = (prod + (r.den as u128) - 1) / (r.den as u128);
    if c > u64::MAX as u128 {
        None
    } else {
        Some(c as u64)
    }
}

} // verus!
