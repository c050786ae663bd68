//! Fee module: deducts a fixed basis-point fee from a swap input before
//! pricing. The fee itself is never transferred anywhere; it simply stays
//! in the input vault and accrues to the pool.

use vstd::prelude::*;
use vstd::arithmetic::div_mod::{
    lemma_div_is_ordered, lemma_div_multiples_vanish, lemma_hoist_over_denominator,
};

verus! {

/// Numerator of the fixed fee rate: 30 / 1000, that is 3%.
pub const FEE_NUMERATOR: u64 = 30;

/// Denominator of the fixed fee rate.
pub const FEE_DENOMINATOR: u64 = 1000;

/// The fee retained out of an input of `amount`: the input scaled by the
/// fee rate, rounded down.
pub open spec fn fee_of(amount: int) -> int {
    amount * (FEE_NUMERATOR as int) / (FEE_DENOMINATOR as int)
}

/// What is left of an input of `amount` once the fee is retained.
pub open spec fn net_of(amount: int) -> int {
    amount - fee_of(amount)
}

/// The fee never goes below zero nor above the amount it is charged on.
pub proof fn lemma_fee_bounds(amount: int)
    requires
        amount >= 0,
    ensures
        0 <= fee_of(amount),
        fee_of(amount) <= amount,
{
    let n = FEE_NUMERATOR as int;
    let d = FEE_DENOMINATOR as int;
    lemma_div_is_ordered(0, amount * n, d);
    lemma_div_is_ordered(amount * n, amount * d, d);
    lemma_div_multiples_vanish(amount, d);
    assert(amount * d == d * amount);
}

/// The fee scales linearly with the input at the configured rate: charging
/// one more whole fee denominator of input costs exactly one more fee
/// numerator of fee, and on exact multiples of the denominator the fee is
/// exactly the rate.
pub proof fn lemma_fee_linear(amount: int, k: int)
    requires
        amount >= 0,
        k >= 0,
    ensures
        fee_of(amount + FEE_DENOMINATOR) == fee_of(amount) + FEE_NUMERATOR,
        fee_of(k * FEE_DENOMINATOR) == k * FEE_NUMERATOR,
{
    let n = FEE_NUMERATOR as int;
    let d = FEE_DENOMINATOR as int;
    assert((amount + d) * n == amount * n + n * d) by (nonlinear_arith);
    lemma_hoist_over_denominator(amount * n, n, FEE_DENOMINATOR as nat);
    assert(fee_of(amount + d) == fee_of(amount) + n);
    assert((k * d) * n == (k * n) * d) by (nonlinear_arith);
    lemma_hoist_over_denominator(0, k * n, FEE_DENOMINATOR as nat);
    assert(fee_of(k * d) == (0 + (k * n) * d) / d);
    assert(0int / d == 0) by {
        lemma_div_multiples_vanish(0, d);
    }
}

/// Applies the fixed fee rate to a swap input and returns the net amount
/// that is actually priced. Pure; a zero input yields a zero net amount.
pub fn deduct_fee(amount_in: u64) -> (net: u64)
    ensures
        net == net_of(amount_in as int),
        net <= amount_in,
        fee_of(amount_in as int) == amount_in - net,
{
    proof {
        lemma_fee_bounds(amount_in as int);
    }
    let amount: u128 = amount_in as u128;
    let fee: u128 = (amount * (FEE_NUMERATOR as u128)) / (FEE_DENOMINATOR as u128);
    (amount - fee) as u64
}

} // verus!
