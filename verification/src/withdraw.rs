//! Liquidity sizing engine, withdrawal side: how much of each reserve a
//! burn of pool-share tokens redeems. Redemption is strictly proportional
//! and rounds down, so a withdrawal can never drain more than the burned
//! share of the pool.

use vstd::prelude::*;
use crate::errors::AmmError;
use crate::liquidity::{first_deposit_result, seeded_deposit_result, seeded_deposit_shares, share_from_asset};
use vstd::arithmetic::div_mod::{
    lemma_div_is_ordered, lemma_div_multiples_vanish, lemma_fundamental_div_mod, lemma_mod_bound,
};
use vstd::arithmetic::mul::lemma_mul_inequality;

verus! {

/// The quantity of one reserve redeemed by burning `burn_amount` shares:
/// the burned fraction of the reserve, rounded down.
pub open spec fn withdrawal_share(burn_amount: int, reserve: int, total_share_supply: int) -> int {
    burn_amount * reserve / total_share_supply
}

/// What sizing a withdrawal returns: the proportional slice of each
/// reserve, `EmptyPool` when no shares are outstanding, or an arithmetic
/// error when a slice does not fit the reserve width.
pub open spec fn withdrawal_result(
    burn_amount: int,
    reserve_a: int,
    reserve_b: int,
    total_share_supply: int,
) -> Result<(u64, u64), AmmError> {
    if total_share_supply == 0 {
        Err(AmmError::EmptyPool)
    } else if withdrawal_share(burn_amount, reserve_a, total_share_supply) > u64::MAX
        || withdrawal_share(burn_amount, reserve_b, total_share_supply) > u64::MAX {
        Err(AmmError::ArithmeticOverflow)
    } else {
        Ok(
            (
                withdrawal_share(burn_amount, reserve_a, total_share_supply) as u64,
                withdrawal_share(burn_amount, reserve_b, total_share_supply) as u64,
            ),
        )
    }
}

/// Burning no more than the whole supply redeems no more than the whole
/// reserve.
pub proof fn lemma_withdrawal_share_le_reserve(burn_amount: int, reserve: int, total_share_supply: int)
    requires
        0 <= burn_amount <= total_share_supply,
        0 <= reserve,
        0 < total_share_supply,
    ensures
        0 <= withdrawal_share(burn_amount, reserve, total_share_supply) <= reserve,
{
    lemma_mul_inequality(burn_amount, total_share_supply, reserve);
    lemma_div_is_ordered(burn_amount * reserve, total_share_supply * reserve, total_share_supply);
    lemma_div_multiples_vanish(reserve, total_share_supply);
    lemma_div_is_ordered(0, burn_amount * reserve, total_share_supply);
    assert(burn_amount * reserve >= 0) by (nonlinear_arith)
        requires
            burn_amount >= 0,
            reserve >= 0,
    ;
}

/// Sizes a withdrawal: the amounts of both reserves redeemed by burning
/// `burn_amount` shares. The caller must confirm the burn before the
/// reserves are released.
pub fn size_withdrawal(
    burn_amount: u64,
    reserve_a: u64,
    reserve_b: u64,
    total_share_supply: u64,
) -> (res: Result<(u64, u64), AmmError>)
    ensures
        res == withdrawal_result(
            burn_amount as int,
            reserve_a as int,
            reserve_b as int,
            total_share_supply as int,
        ),
        burn_amount <= total_share_supply && total_share_supply > 0 ==> {
            &&& res is Ok
            &&& res->Ok_0.0 <= reserve_a
            &&& res->Ok_0.1 <= reserve_b
        },
{
    if total_share_supply == 0 {
        return Err(AmmError::EmptyPool);
    }
    proof {
        assert((burn_amount as int) * (reserve_a as int) <= u128::MAX) by (nonlinear_arith)
            requires
                burn_amount <= u64::MAX,
                reserve_a <= u64::MAX,
        ;
        assert((burn_amount as int) * (reserve_b as int) <= u128::MAX) by (nonlinear_arith)
            requires
                burn_amount <= u64::MAX,
                reserve_b <= u64::MAX,
        ;
        if burn_amount <= total_share_supply {
            lemma_withdrawal_share_le_reserve(
                burn_amount as int,
                reserve_a as int,
                total_share_supply as int,
            );
            lemma_withdrawal_share_le_reserve(
                burn_amount as int,
                reserve_b as int,
                total_share_supply as int,
            );
        }
    }
    let return_a: u128 = ((burn_amount as u128) * (reserve_a as u128)) / (total_share_supply
        as u128);
    let return_b: u128 = ((burn_amount as u128) * (reserve_b as u128)) / (total_share_supply
        as u128);
    if return_a > (u64::MAX as u128) || return_b > (u64::MAX as u128) {
        Err(AmmError::ArithmeticOverflow)
    } else {
        Ok((return_a as u64, return_b as u64))
    }
}

/// A floor-division bound: whoever holds at most the rounded-down
/// quotient of `x` by `d` holds, scaled back by `d`, at most `x`.
proof fn lemma_le_div_implies_mul_le(m: int, x: int, d: int)
    requires
        0 <= m,
        0 <= x,
        0 < d,
        m <= x / d,
    ensures
        m * d <= x,
{
    lemma_fundamental_div_mod(x, d);
    lemma_mod_bound(x, d);
    lemma_mul_inequality(m, x / d, d);
    assert(d * (x / d) == (x / d) * d) by (nonlinear_arith);
}

/// Law: a deposit into a seeded pool, immediately undone by withdrawing
/// exactly the shares it was issued, redeems at most the amounts that
/// were deposited: rounding always favors the pool, and the burn never
/// takes the share supply below the level it had before the deposit.
pub proof fn lemma_deposit_withdraw_round_trip(
    amount_a: u64,
    amount_b: u64,
    reserve_a: u64,
    reserve_b: u64,
    total_share_supply: u64,
)
    requires
        0 < reserve_a,
        0 < reserve_b,
        0 < total_share_supply,
        seeded_deposit_result(
            amount_a as int,
            amount_b as int,
            reserve_a as int,
            reserve_b as int,
            total_share_supply as int,
        ) is Ok,
    ensures
        ({
            let minted = seeded_deposit_shares(
                amount_a as int,
                amount_b as int,
                reserve_a as int,
                reserve_b as int,
                total_share_supply as int,
            );
            let undone = withdrawal_result(
                minted,
                reserve_a + amount_a,
                reserve_b + amount_b,
                total_share_supply + minted,
            );
            &&& 0 <= minted
            &&& undone is Ok
            &&& undone->Ok_0.0 <= amount_a
            &&& undone->Ok_0.1 <= amount_b
        }),
{
    let a = amount_a as int;
    let b = amount_b as int;
    let ra = reserve_a as int;
    let rb = reserve_b as int;
    let s = total_share_supply as int;
    let m = seeded_deposit_shares(a, b, ra, rb, s);
    assert(a * s >= 0 && b * s >= 0) by (nonlinear_arith)
        requires
            a >= 0,
            b >= 0,
            s > 0,
    ;
    lemma_div_is_ordered(0, a * s, ra);
    lemma_div_is_ordered(0, b * s, rb);
    assert(m <= share_from_asset(a, s, ra) && m <= share_from_asset(b, s, rb) && 0 <= m);
    lemma_le_div_implies_mul_le(m, a * s, ra);
    lemma_le_div_implies_mul_le(m, b * s, rb);
    assert(m * (ra + a) <= a * (s + m)) by (nonlinear_arith)
        requires
            m * ra <= a * s,
            0 <= m,
            0 <= a,
    ;
    assert(m * (rb + b) <= b * (s + m)) by (nonlinear_arith)
        requires
            m * rb <= b * s,
            0 <= m,
            0 <= b,
    ;
    lemma_div_is_ordered(m * (ra + a), a * (s + m), s + m);
    lemma_div_is_ordered(m * (rb + b), b * (s + m), s + m);
    lemma_div_multiples_vanish(a, s + m);
    lemma_div_multiples_vanish(b, s + m);
    assert(a * (s + m) == (s + m) * a && b * (s + m) == (s + m) * b) by (nonlinear_arith);
    assert(withdrawal_share(m, ra + a, s + m) <= a);
    assert(withdrawal_share(m, rb + b, s + m) <= b);
    assert(m * (ra + a) >= 0 && m * (rb + b) >= 0) by (nonlinear_arith)
        requires
            0 <= m,
            0 <= ra + a,
            0 <= rb + b,
    ;
    lemma_div_is_ordered(0, m * (ra + a), s + m);
    lemma_div_is_ordered(0, m * (rb + b), s + m);
}

/// Law: the very first deposit, immediately undone by withdrawing every
/// share it was issued, redeems exactly the deposited amounts and leaves
/// the share supply at zero, never below.
pub proof fn lemma_first_deposit_withdraw_round_trip(amount_a: u64, amount_b: u64)
    requires
        first_deposit_result(amount_a as int, amount_b as int) is Ok,
    ensures
        ({
            let minted = first_deposit_result(amount_a as int, amount_b as int)->Ok_0;
            withdrawal_result(minted as int, amount_a as int, amount_b as int, minted as int)
                == Ok::<(u64, u64), AmmError>((amount_a, amount_b))
        }),
{
    let a = amount_a as int;
    let b = amount_b as int;
    assert(a * b <= u128::MAX) by (nonlinear_arith)
        requires
            0 <= a <= u64::MAX,
            0 <= b <= u64::MAX,
    ;
    crate::math::lemma_sqrt_floor_fits_u64((a * b) as nat);
    let m = first_deposit_result(a, b)->Ok_0 as int;
    assert(m >= 1);
    lemma_div_multiples_vanish(a, m);
    lemma_div_multiples_vanish(b, m);
    assert(m * a == a * m) by (nonlinear_arith);
    assert(m * b == b * m) by (nonlinear_arith);
    assert(withdrawal_share(m, a, m) == a);
    assert(withdrawal_share(m, b, m) == b);
}

} // verus!
