//! Fixed-point arithmetic in thousandths.
//!
//! A value of `1000` stands for `1.0`. Multiplying two fixed-point values
//! therefore divides the raw product by [`SCALE`]; the division truncates
//! toward zero, which `scaled` states by splitting on the sign of the
//! first factor.

use vstd::prelude::*;

verus! {

/// One whole unit in fixed-point representation.
pub const SCALE: i64 = 1000;

/// The fixed-point product `a * b / SCALE`, truncated toward zero.
/// `b` is expected to be non-negative; every caller in this crate
/// scales by a non-negative factor (a duration or a rate).
pub open spec fn scaled(a: int, b: int) -> int {
    if a >= 0 {
        (a * b) / (SCALE as int)
    } else {
        -(((-a) * b) / (SCALE as int))
    }
}

/// Magnitude of an integer.
pub open spec fn mag(a: int) -> int {
    if a >= 0 {
        a
    } else {
        -a
    }
}

/// Computes `scaled(a, b)` exactly. The factor `b` must be non-negative
/// and the raw product must fit in an `i64`.
pub fn mul_div_scale(a: i64, b: i64) -> (r: i64)
    requires
        0 <= b,
        mag(a as int) <= i64::MAX as int,
        mag(a as int) * (b as int) <= i64::MAX as int,
    ensures
        r as int == scaled(a as int, b as int),
        mag(r as int) <= mag(a as int) * (b as int) / (SCALE as int),
{
    let m: u64 = if a >= 0 {
        a as u64
    } else {
        (-a) as u64
    };
    let p: u64 = m * (b as u64);
    let q: u64 = p / 1000;
    proof {
        assert(p as int == mag(a as int) * (b as int));
        assert(q as int <= p as int) by {
            vstd::arithmetic::div_mod::lemma_div_is_ordered_by_denominator(p as int, 1, 1000);
            vstd::arithmetic::div_mod::lemma_div_by_multiple(p as int, 1);
        }
    }
    if a >= 0 {
        q as i64
    } else {
        -(q as i64)
    }
}

/// Division of a non-negative value by a positive divisor stays within
/// `[0, x]`.
pub proof fn lemma_div_le_self(x: int, d: int)
    requires
        0 <= x,
        1 <= d,
    ensures
        0 <= x / d <= x,
{
    vstd::arithmetic::div_mod::lemma_div_pos_is_pos(x, d);
    vstd::arithmetic::div_mod::lemma_div_nonincreasing(x, d);
}

/// Scaling a non-negative value by a factor of at most one whole unit
/// keeps it between zero and the value itself.
pub proof fn lemma_scaled_within(d: int, k: int)
    requires
        0 <= d,
        0 <= k <= 1000,
    ensures
        0 <= scaled(d, k) <= d,
{
    vstd::arithmetic::mul::lemma_mul_nonnegative(d, k);
    vstd::arithmetic::div_mod::lemma_div_pos_is_pos(d * k, 1000);
    vstd::arithmetic::mul::lemma_mul_upper_bound(d, d, k, 1000);
    vstd::arithmetic::div_mod::lemma_div_is_ordered(d * k, d * 1000, 1000);
    vstd::arithmetic::div_mod::lemma_div_by_multiple(d, 1000);
}

/// The mirror image of `lemma_scaled_within` for non-positive values.
pub proof fn lemma_scaled_within_neg(d: int, k: int)
    requires
        d <= 0,
        0 <= k <= 1000,
    ensures
        d <= scaled(d, k) <= 0,
{
    lemma_scaled_within(-d, k);
}

/// Scaling keeps the sign: a non-negative value scaled by a non-negative
/// factor stays non-negative.
pub proof fn lemma_scaled_nonneg(a: int, b: int)
    requires
        0 <= a,
        0 <= b,
    ensures
        0 <= scaled(a, b),
{
    vstd::arithmetic::mul::lemma_mul_nonnegative(a, b);
    vstd::arithmetic::div_mod::lemma_div_pos_is_pos(a * b, 1000);
}

/// Scaling keeps the sign: a non-positive value scaled by a non-negative
/// factor stays non-positive.
pub proof fn lemma_scaled_nonpos(a: int, b: int)
    requires
        a <= 0,
        0 <= b,
    ensures
        scaled(a, b) <= 0,
{
    if a == 0 {
        vstd::arithmetic::mul::lemma_mul_by_zero_is_zero(b);
    } else {
        lemma_scaled_nonneg(-a, b);
    }
}

/// Scaling by a fixed non-negative factor preserves order.
pub proof fn lemma_scaled_monotone(a1: int, a2: int, b: int)
    requires
        a1 <= a2,
        0 <= b,
    ensures
        scaled(a1, b) <= scaled(a2, b),
{
    if 0 <= a1 {
        vstd::arithmetic::mul::lemma_mul_inequality(a1, a2, b);
        vstd::arithmetic::div_mod::lemma_div_is_ordered(a1 * b, a2 * b, 1000);
    } else if a2 < 0 {
        vstd::arithmetic::mul::lemma_mul_inequality(-a2, -a1, b);
        vstd::arithmetic::div_mod::lemma_div_is_ordered((-a2) * b, (-a1) * b, 1000);
    } else {
        lemma_scaled_nonpos(a1, b);
        lemma_scaled_nonneg(a2, b);
    }
}

/// Once the value reaches `eps`, and the factor covers the scale against
/// `eps`, the scaled value is at least one.
pub proof fn lemma_scaled_progress(d: int, k: int, eps: int)
    requires
        0 < eps <= d,
        1 <= k,
        1000 <= eps * k,
    ensures
        1 <= scaled(d, k),
{
    vstd::arithmetic::mul::lemma_mul_inequality(eps, d, k);
    vstd::arithmetic::div_mod::lemma_div_is_ordered(1000, d * k, 1000);
}

} // verus!
