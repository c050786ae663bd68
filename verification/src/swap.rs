//! Swap pricing engine: prices the output amount of a swap on the
//! constant-product curve and refuses any swap that would let the product
//! of the reserves decrease.

use vstd::prelude::*;
use crate::errors::AmmError;
use vstd::arithmetic::div_mod::{
    lemma_div_is_ordered_by_denominator, lemma_div_multiples_vanish, lemma_div_pos_is_pos,
};

verus! {

/// The product of the two reserves before the swap touches them.
pub open spec fn product_before(reserve_in: int, reserve_out: int) -> int {
    reserve_in * reserve_out
}

/// The quantity released from the output reserve for a net input of
/// `net_in`: the constant-product price, rounded down.
pub open spec fn swap_output(reserve_in: int, reserve_out: int, net_in: int) -> int {
    reserve_in * reserve_out / (reserve_in + net_in)
}

/// The product of the two reserves once the net input has landed in the
/// input reserve and the priced output has left the output reserve.
pub open spec fn product_after(reserve_in: int, reserve_out: int, net_in: int) -> int {
    (reserve_in + net_in) * (reserve_out - swap_output(reserve_in, reserve_out, net_in))
}

/// The mandatory post-check of the pricing engine: the swap may only go
/// through when it does not shrink the product of the reserves.
pub open spec fn swap_preserves_product(reserve_in: int, reserve_out: int, net_in: int) -> bool {
    product_after(reserve_in, reserve_out, net_in) >= product_before(reserve_in, reserve_out)
}

/// Whether the post-swap product stays inside the double-width range the
/// post-check is computed in.
pub open spec fn product_after_representable(
    reserve_in: int,
    reserve_out: int,
    net_in: int,
) -> bool {
    product_after(reserve_in, reserve_out, net_in) <= u128::MAX
}

/// What pricing alone returns: the rounded-down constant-product output,
/// or an arithmetic error when both the input reserve and the net input
/// are zero, which would divide by zero.
pub open spec fn output_amount_result(
    reserve_in: int,
    reserve_out: int,
    net_in: int,
) -> Result<u64, AmmError> {
    if reserve_in + net_in == 0 {
        Err(AmmError::ArithmeticOverflow)
    } else {
        Ok(swap_output(reserve_in, reserve_out, net_in) as u64)
    }
}

/// What the full pricing engine returns: the priced output if the
/// post-check holds, `InvariantViolation` if pricing went through but the
/// product would shrink, and an arithmetic error when the price is not
/// defined or the post-check cannot be computed at double width.
pub open spec fn price_swap_result(
    reserve_in: int,
    reserve_out: int,
    net_in: int,
) -> Result<u64, AmmError> {
    if reserve_in + net_in == 0 {
        Err(AmmError::ArithmeticOverflow)
    } else if !product_after_representable(reserve_in, reserve_out, net_in) {
        Err(AmmError::ArithmeticOverflow)
    } else if !swap_preserves_product(reserve_in, reserve_out, net_in) {
        Err(AmmError::InvariantViolation)
    } else {
        Ok(swap_output(reserve_in, reserve_out, net_in) as u64)
    }
}

/// The priced output never exceeds the output reserve: the engine can
/// never ask the custody collaborator to release more than it holds.
pub proof fn lemma_swap_output_in_range(reserve_in: int, reserve_out: int, net_in: int)
    requires
        reserve_in >= 0,
        reserve_out >= 0,
        net_in >= 0,
        reserve_in + net_in > 0,
    ensures
        0 <= swap_output(reserve_in, reserve_out, net_in),
        swap_output(reserve_in, reserve_out, net_in) <= reserve_out,
{
    let product = reserve_in * reserve_out;
    let denom = reserve_in + net_in;
    assert(reserve_in * reserve_out >= 0) by (nonlinear_arith)
        requires
            reserve_in >= 0,
            reserve_out >= 0,
    ;
    lemma_div_pos_is_pos(product, denom);
    if reserve_in == 0 {
        assert(swap_output(reserve_in, reserve_out, net_in) == 0int / denom);
        lemma_div_pos_is_pos(0, denom);
        lemma_div_is_ordered_by_denominator(0, 1, denom);
    } else {
        lemma_div_is_ordered_by_denominator(product, reserve_in, denom);
        lemma_div_multiples_vanish(reserve_out, reserve_in);
    }
}

/// Prices the output amount for a net input of `net_in` against the given
/// reserves, without the post-check.
pub fn compute_output_amount(reserve_in: u64, reserve_out: u64, net_in: u64) -> (res: Result<
    u64,
    AmmError,
>)
    ensures
        res == output_amount_result(reserve_in as int, reserve_out as int, net_in as int),
        res is Ok ==> res->Ok_0 <= reserve_out,
{
    let rin: u128 = reserve_in as u128;
    let rout: u128 = reserve_out as u128;
    let denom: u128 = rin + (net_in as u128);
    if denom == 0 {
        return Err(AmmError::ArithmeticOverflow);
    }
    proof {
        assert(rin * rout <= u128::MAX) by (nonlinear_arith)
            requires
                rin <= u64::MAX,
                rout <= u64::MAX,
        ;
        lemma_swap_output_in_range(reserve_in as int, reserve_out as int, net_in as int);
    }
    let out: u128 = (rin * rout) / denom;
    Ok(out as u64)
}

/// Prices a swap and performs the mandatory post-check that the product
/// of the reserves does not decrease. Returns the quantity to be released
/// from the output reserve; no state is touched here.
pub fn price_swap(reserve_in: u64, reserve_out: u64, net_in: u64) -> (res: Result<u64, AmmError>)
    ensures
        res == price_swap_result(reserve_in as int, reserve_out as int, net_in as int),
        res is Ok ==> swap_preserves_product(reserve_in as int, reserve_out as int, net_in as int),
        res is Ok ==> res->Ok_0 <= reserve_out,
{
    let rin: u128 = reserve_in as u128;
    let rout: u128 = reserve_out as u128;
    let denom: u128 = rin + (net_in as u128);
    if denom == 0 {
        return Err(AmmError::ArithmeticOverflow);
    }
    proof {
        assert(rin * rout <= u128::MAX) by (nonlinear_arith)
            requires
                rin <= u64::MAX,
                rout <= u64::MAX,
        ;
        lemma_swap_output_in_range(reserve_in as int, reserve_out as int, net_in as int);
    }
    let before: u128 = rin * rout;
    let out: u128 = before / denom;
    let remaining: u128 = rout - out;
    match denom.checked_mul(remaining) {
        None => Err(AmmError::ArithmeticOverflow),
        Some(after) => {
            if after >= before {
                Ok(out as u64)
            } else {
                Err(AmmError::InvariantViolation)
            }
        },
    }
}

} // verus!
