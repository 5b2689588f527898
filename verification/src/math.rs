//! Facts about integer multiplication and truncating division that the
//! fixed-point arithmetic of the vault rests on.

use vstd::prelude::*;

verus! {

/// A product of bounded non-negative factors is bounded by the product of
/// the bounds.
pub proof fn lemma_product_bound(a: int, b: int, max_a: int, max_b: int)
    by (nonlinear_arith)
    requires
        0 <= a <= max_a,
        0 <= b <= max_b,
    ensures
        0 <= a * b <= max_a * max_b,
{
}

/// Truncating division is monotone in the dividend.
pub proof fn lemma_quotient_monotone(a: int, b: int, d: int)
    by (nonlinear_arith)
    requires
        0 <= a <= b,
        0 < d,
    ensures
        0 <= a / d <= b / d,
{
}

/// A dividend of at least `q * d` has a quotient of at least `q`.
pub proof fn lemma_quotient_at_least(x: int, q: int, d: int)
    by (nonlinear_arith)
    requires
        0 < d,
        0 <= q,
        x >= q * d,
    ensures
        x / d >= q,
{
}

/// A dividend below the divisor has quotient zero.
pub proof fn lemma_quotient_zero(x: int, d: int)
    by (nonlinear_arith)
    requires
        0 <= x < d,
    ensures
        x / d == 0,
{
}

/// The defining property of truncating division of a non-negative dividend.
pub proof fn lemma_quotient_bounds(x: int, d: int)
    by (nonlinear_arith)
    requires
        0 <= x,
        0 < d,
    ensures
        0 <= x / d,
        (x / d) * d <= x,
        x < (x / d) * d + d,
        x == (x / d) * d + x % d,
        0 <= x % d < d,
{
}

/// A number beyond 128 bits, divided by a 64-bit divisor, is beyond 64 bits.
pub proof fn lemma_quotient_beyond_u64(x: int, d: int)
    requires
        x > u128::MAX,
        0 < d <= u64::MAX,
    ensures
        x / d > u64::MAX,
{
    let q: int = 0x1_0000_0000_0000_0000;
    lemma_product_bound(q, d, q, u64::MAX as int);
    assert(0x1_0000_0000_0000_0000int * 0xffff_ffff_ffff_ffffint <= u128::MAX);
    lemma_quotient_at_least(x, q, d);
}

/// Converting `a` at rate `p / s` and back at rate `s / p`, truncating both
/// times, never gains, and loses less than the value of one converted unit
/// plus one: with `t = a * s / p` and `b = t * p / s`,
/// `b <= a` and `(a - b - 1) * s < p`.
pub proof fn lemma_convert_and_back(a: int, s: int, p: int)
    requires
        0 <= a,
        0 < s,
        0 < p,
    ensures
        0 <= (a * s / p) * p / s <= a,
        (a - (a * s / p) * p / s - 1) * s < p,
{
    let t = a * s / p;
    let b = t * p / s;
    assert(0 <= a * s) by (nonlinear_arith)
        requires
            0 <= a,
            0 < s,
    ;
    lemma_quotient_bounds(a * s, p);
    assert(0 <= t * p) by (nonlinear_arith)
        requires
            0 <= t,
            0 < p,
    ;
    lemma_quotient_bounds(t * p, s);
    // t * p <= a * s, hence b <= a
    assert(b <= a) by (nonlinear_arith)
        requires
            b * s <= t * p,
            t * p <= a * s,
            0 < s,
    ;
    // a * s < t * p + p and t * p < b * s + s
    assert((a - b - 1) * s < p) by (nonlinear_arith)
        requires
            a * s < t * p + p,
            t * p < b * s + s,
    ;
}

} // verus!
