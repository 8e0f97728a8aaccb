//! Scaled integer arithmetic for money and rates.
//!
//! Amounts are integer cents; rates are integer basis points, with
//! [`crate::RATE_SCALE`] basis points in one whole. Applying a rate is a
//! multiplication followed by a truncating division by the scale, and
//! compounding is that step iterated once per period.

use vstd::prelude::*;
use vstd::arithmetic::div_mod::{
    lemma_div_is_ordered, lemma_div_multiples_vanish, lemma_div_pos_is_pos,
    lemma_multiply_divide_le,
};
use vstd::arithmetic::mul::{
    lemma_mul_inequality, lemma_mul_is_commutative, lemma_mul_nonnegative, lemma_mul_upper_bound,
};
use crate::RATE_SCALE;

verus! {

/// `a * b / d` over the unbounded integers: the truncating scaled product
/// every rate application in the simulator reduces to.
pub open spec fn muldiv(a: int, b: int, d: int) -> int {
    a * b / d
}

/// The amount after `k` compounding periods at `rate_bp` basis points per
/// period, each period truncating to whole cents.
pub open spec fn compounded(base: int, rate_bp: int, k: nat) -> int
    decreases k,
{
    if k == 0 {
        base
    } else {
        muldiv(
            compounded(base, rate_bp, (k - 1) as nat),
            RATE_SCALE + rate_bp,
            RATE_SCALE as int,
        )
    }
}

/// A scaled product of non-negative factors is non-negative.
pub proof fn lemma_muldiv_nonneg(a: int, b: int, d: int)
    requires
        a >= 0,
        b >= 0,
        d > 0,
    ensures
        muldiv(a, b, d) >= 0,
{
    lemma_mul_nonnegative(a, b);
    lemma_div_pos_is_pos(a * b, d);
}

/// Applying a rate of at most one whole never increases an amount.
pub proof fn lemma_muldiv_le(a: int, b: int, d: int)
    requires
        a >= 0,
        0 <= b <= d,
        d > 0,
    ensures
        muldiv(a, b, d) <= a,
{
    lemma_mul_inequality(b, d, a);
    lemma_mul_is_commutative(a, b);
    lemma_mul_is_commutative(a, d);
    lemma_multiply_divide_le(a * b, d, a);
}

/// Scaled products of non-negative values respect ordering of the left factor.
pub proof fn lemma_muldiv_ordered(a1: int, a2: int, b: int, d: int)
    requires
        0 <= a1 <= a2,
        b >= 0,
        d > 0,
    ensures
        muldiv(a1, b, d) <= muldiv(a2, b, d),
{
    lemma_mul_inequality(a1, a2, b);
    lemma_div_is_ordered(a1 * b, a2 * b, d);
}

/// A compounded amount stays non-negative when base and rate are.
pub proof fn lemma_compounded_nonneg(base: int, rate_bp: int, k: nat)
    requires
        base >= 0,
        rate_bp >= 0,
    ensures
        compounded(base, rate_bp, k) >= 0,
    decreases k,
{
    if k > 0 {
        lemma_compounded_nonneg(base, rate_bp, (k - 1) as nat);
        lemma_muldiv_nonneg(
            compounded(base, rate_bp, (k - 1) as nat),
            RATE_SCALE + rate_bp,
            RATE_SCALE as int,
        );
    }
}

/// One compounding period at a non-negative rate never decreases the amount.
pub proof fn lemma_compounded_step(base: int, rate_bp: int, k: nat)
    requires
        base >= 0,
        rate_bp >= 0,
    ensures
        compounded(base, rate_bp, k) <= compounded(base, rate_bp, (k + 1) as nat),
{
    let c = compounded(base, rate_bp, k);
    lemma_compounded_nonneg(base, rate_bp, k);
    lemma_mul_inequality(RATE_SCALE as int, RATE_SCALE + rate_bp, c);
    lemma_mul_is_commutative(c, RATE_SCALE as int);
    lemma_mul_is_commutative(c, RATE_SCALE + rate_bp);
    lemma_div_multiples_vanish(c, RATE_SCALE as int);
    lemma_div_is_ordered(
        (RATE_SCALE as int) * c,
        (RATE_SCALE + rate_bp) * c,
        RATE_SCALE as int,
    );
}

/// Compounding at a non-negative rate is monotone in the number of periods.
pub proof fn lemma_compounded_mono(base: int, rate_bp: int, j: nat, k: nat)
    requires
        base >= 0,
        rate_bp >= 0,
        j <= k,
    ensures
        compounded(base, rate_bp, j) <= compounded(base, rate_bp, k),
    decreases k - j,
{
    if j < k {
        lemma_compounded_mono(base, rate_bp, j, (k - 1) as nat);
        lemma_compounded_step(base, rate_bp, (k - 1) as nat);
    }
}

/// Computes `a * b / d` exactly, reporting `None` when the quotient does not
/// fit in a `u64` amount.
pub fn mul_div(a: u64, b: u64, d: u64) -> (r: Option<u64>)
    requires
        d > 0,
    ensures
        r matches Some(v) ==> v == muldiv(a as int, b as int, d as int),
        r is Some <==> muldiv(a as int, b as int, d as int) <= u64::MAX,
{
    proof {
        lemma_mul_upper_bound(a as int, u64::MAX as int, b as int, u64::MAX as int);
        assert((u64::MAX as int) * (u64::MAX as int) < u128::MAX as int) by (nonlinear_arith);
        lemma_muldiv_nonneg(a as int, b as int, d as int);
    }
    let prod: u128 = (a as u128) * (b as u128);
    let q: u128 = prod / (d as u128);
    if q <= u64::MAX as u128 {
        Some(q as u64)
    } else {
        None
    }
}

/// Compounds `base` over `periods` periods at `rate_bp`, reporting `None` as
/// soon as any period's amount leaves the `u64` range.
pub fn compound(base: u64, rate_bp: u32, periods: u32) -> (r: Option<u64>)
    ensures
        r matches Some(v) ==> v == compounded(base as int, rate_bp as int, periods as nat),
        r is Some <==> compounded(base as int, rate_bp as int, periods as nat) <= u64::MAX,
{
    let mut cur: u64 = base;
    let mut i: u32 = 0;
    while i < periods
        invariant
            i <= periods,
            cur == compounded(base as int, rate_bp as int, i as nat),
        decreases periods - i,
    {
        let next = mul_div(cur, RATE_SCALE + rate_bp as u64, RATE_SCALE);
        match next {
            Some(v) => {
                cur = v;
            }
            None => {
                proof {
                    lemma_compounded_mono(
                        base as int,
                        rate_bp as int,
                        (i + 1) as nat,
                        periods as nat,
                    );
                }
                return None;
            }
        }
        i = i + 1;
    }
    Some(cur)
}

} // verus!
