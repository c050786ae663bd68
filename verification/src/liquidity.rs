//! Liquidity sizing engine, deposit side: how many pool-share tokens a
//! deposit of the two reserve assets is worth.
//!
//! An empty pool is seeded with the geometric mean of the two amounts,
//! minus a permanently withheld minimum, which establishes a floor price
//! per share and deters inflation attacks. A seeded pool prices the
//! deposit at the less favorable of the two assets' implied rates, so an
//! imbalanced deposit can never mint excess shares.

use vstd::prelude::*;
use crate::errors::AmmError;
use crate::math::{isqrt, sqrt_floor};
use vstd::math::min;

verus! {

/// Share amount permanently withheld from the very first deposit.
pub const MINIMUM_LIQUIDITY: u64 = 1000;

/// The geometric mean of the two deposited amounts, rounded down: the
/// liquidity a first deposit is worth before the minimum is withheld.
pub open spec fn first_deposit_liquidity(amount_a: int, amount_b: int) -> int {
    sqrt_floor((amount_a * amount_b) as nat) as int
}

/// What sizing the very first deposit returns: the geometric mean minus
/// the withheld minimum, or `LiquidityTooLow` when the deposit does not
/// clear the floor.
pub open spec fn first_deposit_result(amount_a: int, amount_b: int) -> Result<u64, AmmError> {
    let liquidity = first_deposit_liquidity(amount_a, amount_b);
    if liquidity > MINIMUM_LIQUIDITY {
        Ok((liquidity - MINIMUM_LIQUIDITY) as u64)
    } else {
        Err(AmmError::LiquidityTooLow)
    }
}

/// The shares one asset's contribution is worth on its own: the deposited
/// amount priced at the pool's current share-per-reserve rate, rounded
/// down.
pub open spec fn share_from_asset(amount: int, total_share_supply: int, reserve: int) -> int {
    amount * total_share_supply / reserve
}

/// The shares a deposit into a seeded pool is worth: the smaller of the
/// two independently priced contributions.
pub open spec fn seeded_deposit_shares(
    amount_a: int,
    amount_b: int,
    reserve_a: int,
    reserve_b: int,
    total_share_supply: int,
) -> int {
    min(
        share_from_asset(amount_a, total_share_supply, reserve_a),
        share_from_asset(amount_b, total_share_supply, reserve_b),
    )
}

/// What sizing a deposit into a seeded pool returns: the smaller implied
/// share amount, or an arithmetic error when a reserve is empty or the
/// result does not fit the share-token width.
pub open spec fn seeded_deposit_result(
    amount_a: int,
    amount_b: int,
    reserve_a: int,
    reserve_b: int,
    total_share_supply: int,
) -> Result<u64, AmmError> {
    if reserve_a == 0 || reserve_b == 0 {
        Err(AmmError::ArithmeticOverflow)
    } else if seeded_deposit_shares(amount_a, amount_b, reserve_a, reserve_b, total_share_supply)
        > u64::MAX {
        Err(AmmError::ArithmeticOverflow)
    } else {
        Ok(
            seeded_deposit_shares(amount_a, amount_b, reserve_a, reserve_b, total_share_supply)
                as u64,
        )
    }
}

/// What sizing any deposit returns: the pool is either empty, and seeded
/// by the first-deposit rule, or already carries shares, and prices the
/// deposit proportionally.
pub open spec fn deposit_result(
    amount_a: int,
    amount_b: int,
    reserve_a: int,
    reserve_b: int,
    total_share_supply: int,
) -> Result<u64, AmmError> {
    if total_share_supply == 0 {
        first_deposit_result(amount_a, amount_b)
    } else {
        seeded_deposit_result(amount_a, amount_b, reserve_a, reserve_b, total_share_supply)
    }
}

/// Sizes the very first deposit into an empty pool.
pub fn size_first_deposit(amount_a: u64, amount_b: u64) -> (res: Result<u64, AmmError>)
    ensures
        res == first_deposit_result(amount_a as int, amount_b as int),
{
    proof {
        assert((amount_a as int) * (amount_b as int) <= u128::MAX) by (nonlinear_arith)
            requires
                amount_a <= u64::MAX,
                amount_b <= u64::MAX,
        ;
    }
    let product: u128 = (amount_a as u128) * (amount_b as u128);
    let liquidity: u64 = isqrt(product);
    if liquidity <= MINIMUM_LIQUIDITY {
        Err(AmmError::LiquidityTooLow)
    } else {
        Ok(liquidity - MINIMUM_LIQUIDITY)
    }
}

/// Sizes a deposit into a pool that already carries outstanding shares.
pub fn size_seeded_deposit(
    amount_a: u64,
    amount_b: u64,
    reserve_a: u64,
    reserve_b: u64,
    total_share_supply: u64,
) -> (res: Result<u64, AmmError>)
    ensures
        res == seeded_deposit_result(
            amount_a as int,
            amount_b as int,
            reserve_a as int,
            reserve_b as int,
            total_share_supply as int,
        ),
{
    if reserve_a == 0 || reserve_b == 0 {
        return Err(AmmError::ArithmeticOverflow);
    }
    proof {
        assert((amount_a as int) * (total_share_supply as int) <= u128::MAX) by (nonlinear_arith)
            requires
                amount_a <= u64::MAX,
                total_share_supply <= u64::MAX,
        ;
        assert((amount_b as int) * (total_share_supply as int) <= u128::MAX) by (nonlinear_arith)
            requires
                amount_b <= u64::MAX,
                total_share_supply <= u64::MAX,
        ;
    }
    let share_a: u128 = ((amount_a as u128) * (total_share_supply as u128)) / (reserve_a as u128);
    let share_b: u128 = ((amount_b as u128) * (total_share_supply as u128)) / (reserve_b as u128);
    let shares: u128 = if share_a < share_b {
        share_a
    } else {
        share_b
    };
    if shares > (u64::MAX as u128) {
        Err(AmmError::ArithmeticOverflow)
    } else {
        Ok(shares as u64)
    }
}

/// Sizes any deposit: dispatches on whether the pool is still empty. The
/// full `amount_a` and `amount_b` are always moved into the reserves when
/// the sizing succeeds; no partial refund is computed for imbalanced
/// deposits.
pub fn size_deposit(
    amount_a: u64,
    amount_b: u64,
    reserve_a: u64,
    reserve_b: u64,
    total_share_supply: u64,
) -> (res: Result<u64, AmmError>)
    ensures
        res == deposit_result(
            amount_a as int,
            amount_b as int,
            reserve_a as int,
            reserve_b as int,
            total_share_supply as int,
        ),
{
    if total_share_supply == 0 {
        size_first_deposit(amount_a, amount_b)
    } else {
        size_seeded_deposit(amount_a, amount_b, reserve_a, reserve_b, total_share_supply)
    }
}

} // verus!
