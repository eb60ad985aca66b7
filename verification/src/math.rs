//! Exact `floor(a * b / c)` on 128-bit quantities without intermediate
//! overflow, together with the ordering facts about it that the accrual
//! engine and the curve interpolation rely on.

use vstd::prelude::*;

verus! {

use vstd::arithmetic::div_mod::{
    lemma_fundamental_div_mod,
    lemma_hoist_over_denominator,
    lemma_div_is_ordered,
    lemma_div_multiples_vanish,
};
use vstd::arithmetic::mul::lemma_mul_is_commutative;

/// The mathematical value `floor(a * b / c)`.
pub open spec fn spec_mul_ratio(a: int, b: int, c: int) -> int
    recommends
        0 < c,
{
    a * b / c
}

/// `floor(a * b / c)` is at most `a` whenever `b <= c`.
pub proof fn lemma_mul_ratio_le(a: int, b: int, c: int)
    requires
        0 <= a,
        0 <= b <= c,
        0 < c,
    ensures
        0 <= spec_mul_ratio(a, b, c) <= a,
{
    assert(a * b <= a * c) by (nonlinear_arith)
        requires
            0 <= a,
            b <= c,
    ;
    lemma_div_is_ordered(a * b, a * c, c);
    lemma_mul_is_commutative(a, c);
    lemma_div_multiples_vanish(a, c);
    assert(a * b >= 0) by (nonlinear_arith)
        requires
            a >= 0,
            b >= 0,
    ;
    vstd::arithmetic::div_mod::lemma_div_pos_is_pos(a * b, c);
}

/// `floor(a * b / c)` does not decrease when `b` grows.
pub proof fn lemma_mul_ratio_monotone(a: int, b1: int, b2: int, c: int)
    requires
        0 <= a,
        0 <= b1 <= b2,
        0 < c,
    ensures
        spec_mul_ratio(a, b1, c) <= spec_mul_ratio(a, b2, c),
{
    assert(a * b1 <= a * b2) by (nonlinear_arith)
        requires
            0 <= a,
            b1 <= b2,
    ;
    lemma_div_is_ordered(a * b1, a * b2, c);
}

/// Computes `floor(a * b / c)` exactly, splitting `a` into quotient and
/// remainder by `c` so that no intermediate product exceeds 128 bits.
pub fn mul_ratio(a: u128, b: u64, c: u64) -> (r: u128)
    requires
        0 < c,
        b <= c,
    ensures
        r == spec_mul_ratio(a as int, b as int, c as int),
        r <= a,
{
    let c128: u128 = c as u128;
    let b128: u128 = b as u128;
    let q: u128 = a / c128;
    let rem: u128 = a % c128;
    proof {
        lemma_fundamental_div_mod(a as int, c as int);
        // rem < c <= u64::MAX + 1 and b <= u64::MAX, so rem * b fits in u128.
        assert((rem as int) * (b as int) <= (c as int - 1) * (u64::MAX as int)) by (nonlinear_arith)
            requires
                0 <= rem as int <= c as int - 1,
                0 <= b as int <= u64::MAX as int,
        ;
        assert((c as int - 1) * (u64::MAX as int) < u128::MAX as int) by (nonlinear_arith)
            requires
                c as int <= u64::MAX as int + 1,
        ;
    }
    let part: u128 = (rem * b128) / c128;
    proof {
        // a * b / c == q * b + (rem * b) / c, where a == q * c + rem.
        lemma_hoist_over_denominator((rem as int) * (b as int), (q as int) * (b as int), c as nat);
        assert((rem as int) * (b as int) + ((q as int) * (b as int)) * (c as int) == (a as int) * (
        b as int)) by (nonlinear_arith)
            requires
                a as int == (c as int) * (q as int) + (rem as int),
        ;
        lemma_mul_ratio_le(a as int, b as int, c as int);
        // Therefore q * b + part == a * b / c <= a: both summands fit.
        lemma_div_is_ordered(0, (rem as int) * (b as int), c as int);
        assert((rem as int) * (b as int) >= 0) by (nonlinear_arith)
            requires
                rem as int >= 0,
                b as int >= 0,
        ;
    }
    q * b128 + part
}

} // verus!
