//! The three operations of the pool: provide liquidity, swap, remove
//! liquidity. Each reads the current reserve balances and share supply,
//! computes every amount the operation will move, and returns them; the
//! caller then applies the custody transfers and the mint or burn as one
//! atomic unit, or nothing at all on an error.

use vstd::prelude::*;
use crate::errors::AmmError;
use crate::fee::{deduct_fee, lemma_fee_bounds, net_of};
use crate::liquidity::{deposit_result, size_deposit};
use crate::pool::{check_swap_accounts, swap_account_check, Pool, SwapDirection};
use crate::swap::{price_swap, price_swap_result, swap_preserves_product};
use crate::withdraw::{size_withdrawal, withdrawal_result};

verus! {

/// The amounts a successful deposit asks the collaborators to apply: move
/// the full deposited amounts into the reserves, then mint the shares.
#[derive(Clone, Copy, Debug, PartialEq, Eq, Structural)]
pub struct DepositAmounts {
    /// Shares the mint collaborator must issue to the depositor.
    pub shares_to_mint: u64,
    /// Amount of asset A the transfer collaborator must move into the
    /// pool's A reserve.
    pub deposit_a: u64,
    /// Amount of asset B the transfer collaborator must move into the
    /// pool's B reserve.
    pub deposit_b: u64,
}

/// The amounts a successful swap asks the collaborators to apply: move
/// the gross input into the input reserve, release the output from the
/// output reserve.
#[derive(Clone, Copy, Debug, PartialEq, Eq, Structural)]
pub struct SwapAmounts {
    /// Which of the two valid directions the vault pair selected.
    pub direction: SwapDirection,
    /// The trader's full input, fee included; all of it enters the input
    /// reserve.
    pub gross_input: u64,
    /// The input net of the fee: the part that was actually priced.
    pub net_input: u64,
    /// The quantity released from the output reserve.
    pub output: u64,
}

/// The amounts a successful withdrawal asks the collaborators to apply:
/// burn the shares first, then release both reserve slices.
#[derive(Clone, Copy, Debug, PartialEq, Eq, Structural)]
pub struct WithdrawalAmounts {
    /// Shares the burn collaborator must destroy before anything moves.
    pub burn_shares: u64,
    /// Amount of asset A released to the redeemer.
    pub return_a: u64,
    /// Amount of asset B released to the redeemer.
    pub return_b: u64,
}

/// What providing liquidity returns: the sized share issue together with
/// the full deposited amounts, which are always moved in whole.
pub open spec fn provide_liquidity_result(
    amount_a: u64,
    amount_b: u64,
    reserve_a: u64,
    reserve_b: u64,
    total_share_supply: u64,
) -> Result<DepositAmounts, AmmError> {
    match deposit_result(
        amount_a as int,
        amount_b as int,
        reserve_a as int,
        reserve_b as int,
        total_share_supply as int,
    ) {
        Ok(shares) => Ok(
            DepositAmounts { shares_to_mint: shares, deposit_a: amount_a, deposit_b: amount_b },
        ),
        Err(e) => Err(e),
    }
}

/// What a swap returns: the checks first, then the fee, then pricing with
/// its post-check, composed in that order.
pub open spec fn swap_result(
    pool: Pool,
    input_vault: u64,
    output_vault: u64,
    user_balance: u64,
    amount_in: u64,
    reserve_in: u64,
    reserve_out: u64,
) -> Result<SwapAmounts, AmmError> {
    match swap_account_check(pool, input_vault, output_vault, user_balance, amount_in) {
        Ok(direction) => {
            let net = net_of(amount_in as int) as u64;
            match price_swap_result(reserve_in as int, reserve_out as int, net as int) {
                Ok(output) => Ok(
                    SwapAmounts { direction, gross_input: amount_in, net_input: net, output },
                ),
                Err(e) => Err(e),
            }
        },
        Err(e) => Err(e),
    }
}

/// What removing liquidity returns: the burn echoed back with the two
/// proportional reserve slices it redeems.
pub open spec fn remove_liquidity_result(
    burn_amount: u64,
    reserve_a: u64,
    reserve_b: u64,
    total_share_supply: u64,
) -> Result<WithdrawalAmounts, AmmError> {
    match withdrawal_result(
        burn_amount as int,
        reserve_a as int,
        reserve_b as int,
        total_share_supply as int,
    ) {
        Ok(slices) => Ok(
            WithdrawalAmounts { burn_shares: burn_amount, return_a: slices.0, return_b: slices.1 },
        ),
        Err(e) => Err(e),
    }
}

/// The current collaborator-owned state every operation is computed
/// against: the two reserve balances and the outstanding share supply.
#[derive(Clone, Copy, Debug, PartialEq, Eq, Structural)]
pub struct PoolBalances {
    /// Quantity held in custody for asset A.
    pub reserve_a: u64,
    /// Quantity held in custody for asset B.
    pub reserve_b: u64,
    /// Total outstanding share-token units.
    pub share_supply: u64,
}

/// The closed set of operations a pool supports, one request each.
#[derive(Clone, Copy, Debug, PartialEq, Eq, Structural)]
pub enum Operation {
    /// Deposit both assets in exchange for freshly minted shares.
    Deposit { amount_a: u64, amount_b: u64 },
    /// Trade `amount_in` of the input vault's asset for the other asset.
    Swap { input_vault: u64, output_vault: u64, user_balance: u64, amount_in: u64 },
    /// Burn shares in exchange for proportional slices of both reserves.
    Withdraw { burn_amount: u64 },
}

/// The amounts one operation asks the collaborators to apply.
#[derive(Clone, Copy, Debug, PartialEq, Eq, Structural)]
pub enum Outcome {
    /// Amounts of a sized deposit.
    Deposit(DepositAmounts),
    /// Amounts of a checked and priced swap.
    Swap(SwapAmounts),
    /// Amounts of a sized withdrawal.
    Withdraw(WithdrawalAmounts),
}

/// The reserve the input vault of a swap names, read in swap order:
/// the input reserve first. A vault that is neither of the pool's is
/// mapped arbitrarily; the checks reject it before the reserves matter.
pub open spec fn reserves_in_swap_order(
    pool: Pool,
    balances: PoolBalances,
    input_vault: u64,
) -> (u64, u64) {
    if input_vault == pool.reserve_b_vault {
        (balances.reserve_b, balances.reserve_a)
    } else {
        (balances.reserve_a, balances.reserve_b)
    }
}

/// What executing one operation returns: its handler's result, with the
/// swap handler reading the reserves in the order its vault pair selects.
pub open spec fn execute_result(pool: Pool, balances: PoolBalances, op: Operation) -> Result<
    Outcome,
    AmmError,
> {
    match op {
        Operation::Deposit { amount_a, amount_b } => {
            match provide_liquidity_result(
                amount_a,
                amount_b,
                balances.reserve_a,
                balances.reserve_b,
                balances.share_supply,
            ) {
                Ok(amounts) => Ok(Outcome::Deposit(amounts)),
                Err(e) => Err(e),
            }
        },
        Operation::Swap { input_vault, output_vault, user_balance, amount_in } => {
            let (reserve_in, reserve_out) = reserves_in_swap_order(pool, balances, input_vault);
            match swap_result(
                pool,
                input_vault,
                output_vault,
                user_balance,
                amount_in,
                reserve_in,
                reserve_out,
            ) {
                Ok(amounts) => Ok(Outcome::Swap(amounts)),
                Err(e) => Err(e),
            }
        },
        Operation::Withdraw { burn_amount } => {
            match remove_liquidity_result(
                burn_amount,
                balances.reserve_a,
                balances.reserve_b,
                balances.share_supply,
            ) {
                Ok(amounts) => Ok(Outcome::Withdraw(amounts)),
                Err(e) => Err(e),
            }
        },
    }
}

/// Executes one operation against the pool and the current balances:
/// dispatches to the one handler its variant selects and returns every
/// amount the caller must apply.
pub fn execute(pool: &Pool, balances: &PoolBalances, op: &Operation) -> (res: Result<
    Outcome,
    AmmError,
>)
    ensures
        res == execute_result(*pool, *balances, *op),
{
    match op {
        Operation::Deposit { amount_a, amount_b } => {
            match provide_liquidity(
                *amount_a,
                *amount_b,
                balances.reserve_a,
                balances.reserve_b,
                balances.share_supply,
            ) {
                Ok(amounts) => Ok(Outcome::Deposit(amounts)),
                Err(e) => Err(e),
            }
        },
        Operation::Swap { input_vault, output_vault, user_balance, amount_in } => {
            let (reserve_in, reserve_out): (u64, u64) = if *input_vault
                == pool.reserve_b_vault {
                (balances.reserve_b, balances.reserve_a)
            } else {
                (balances.reserve_a, balances.reserve_b)
            };
            match swap(
                pool,
                *input_vault,
                *output_vault,
                *user_balance,
                *amount_in,
                reserve_in,
                reserve_out,
            ) {
                Ok(amounts) => Ok(Outcome::Swap(amounts)),
                Err(e) => Err(e),
            }
        },
        Operation::Withdraw { burn_amount } => {
            match remove_liquidity(
                *burn_amount,
                balances.reserve_a,
                balances.reserve_b,
                balances.share_supply,
            ) {
                Ok(amounts) => Ok(Outcome::Withdraw(amounts)),
                Err(e) => Err(e),
            }
        },
    }
}

/// Sizes a deposit of both assets against the current reserves and share
/// supply. On success the caller moves the full amounts into the reserves
/// and mints the shares, in that order; on an error nothing moves.
pub fn provide_liquidity(
    amount_a: u64,
    amount_b: u64,
    reserve_a: u64,
    reserve_b: u64,
    total_share_supply: u64,
) -> (res: Result<DepositAmounts, AmmError>)
    ensures
        res == provide_liquidity_result(amount_a, amount_b, reserve_a, reserve_b, total_share_supply),
{
    match size_deposit(amount_a, amount_b, reserve_a, reserve_b, total_share_supply) {
        Ok(shares) => Ok(
            DepositAmounts { shares_to_mint: shares, deposit_a: amount_a, deposit_b: amount_b },
        ),
        Err(e) => Err(e),
    }
}

/// Checks, prices and validates a swap against the pool's vaults and the
/// current reserves. On success the caller moves the gross input into the
/// input reserve and releases the output from the output reserve; on an
/// error nothing moves. The product of the reserves never decreases
/// across a swap this function accepts.
pub fn swap(
    pool: &Pool,
    input_vault: u64,
    output_vault: u64,
    user_balance: u64,
    amount_in: u64,
    reserve_in: u64,
    reserve_out: u64,
) -> (res: Result<SwapAmounts, AmmError>)
    ensures
        res == swap_result(
            *pool,
            input_vault,
            output_vault,
            user_balance,
            amount_in,
            reserve_in,
            reserve_out,
        ),
        res is Ok ==> swap_preserves_product(
            reserve_in as int,
            reserve_out as int,
            res->Ok_0.net_input as int,
        ),
        res is Ok ==> res->Ok_0.output <= reserve_out,
{
    let direction: SwapDirection = match check_swap_accounts(
        pool,
        input_vault,
        output_vault,
        user_balance,
        amount_in,
    ) {
        Ok(d) => d,
        Err(e) => {
            return Err(e);
        },
    };
    proof {
        lemma_fee_bounds(amount_in as int);
    }
    let net: u64 = deduct_fee(amount_in);
    match price_swap(reserve_in, reserve_out, net) {
        Ok(output) => Ok(SwapAmounts { direction, gross_input: amount_in, net_input: net, output }),
        Err(e) => Err(e),
    }
}

/// Sizes a withdrawal of `burn_amount` shares against the current
/// reserves and share supply. On success the caller burns the shares
/// first and only then releases both reserve slices; on an error nothing
/// moves.
pub fn remove_liquidity(
    burn_amount: u64,
    reserve_a: u64,
    reserve_b: u64,
    total_share_supply: u64,
) -> (res: Result<WithdrawalAmounts, AmmError>)
    ensures
        res == remove_liquidity_result(burn_amount, reserve_a, reserve_b, total_share_supply),
        burn_amount <= total_share_supply && total_share_supply > 0 ==> {
            &&& res is Ok
            &&& res->Ok_0.return_a <= reserve_a
            &&& res->Ok_0.return_b <= reserve_b
        },
{
    match size_withdrawal(burn_amount, reserve_a, reserve_b, total_share_supply) {
        Ok(slices) => Ok(
            WithdrawalAmounts { burn_shares: burn_amount, return_a: slices.0, return_b: slices.1 },
        ),
        Err(e) => Err(e),
    }
}

} // verus!
