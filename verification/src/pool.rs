//! The persistent pool record and the account checks a swap must pass
//! before any pricing is computed.

use vstd::prelude::*;
use crate::errors::AmmError;

verus! {

/// Which way a swap crosses the pool.
#[derive(Clone, Copy, Debug, PartialEq, Eq, Structural)]
pub enum SwapDirection {
    /// Asset A enters the pool, asset B leaves it.
    AToB,
    /// Asset B enters the pool, asset A leaves it.
    BToA,
}

/// The persistent record of one two-asset pool. The caller owns it and
/// passes it by reference; the engines only read it.
///
/// The identifying fields never change once the pool is created. The
/// reserve balances and the share supply live outside this record, in
/// collaborator-owned balances, and are handed to the engines as plain
/// values.
#[derive(Clone, Copy, Debug, PartialEq, Eq, Structural)]
pub struct Pool {
    /// Identifier of reserve asset A's token type.
    pub reserve_a_mint: u64,
    /// Identifier of reserve asset B's token type.
    pub reserve_b_mint: u64,
    /// Identifier of the custody balance holding reserve A.
    pub reserve_a_vault: u64,
    /// Identifier of the custody balance holding reserve B.
    pub reserve_b_vault: u64,
    /// Identifier of the fungible share-token type.
    pub share_token_mint: u64,
    /// Derivation value letting the pool authorize custody movements on
    /// its own behalf.
    pub authority_bump: u8,
}

impl Pool {
    /// A pool is well formed when its two assets, its two vaults and its
    /// share token are pairwise distinct identifiers.
    pub open spec fn wf(self) -> bool {
        &&& self.reserve_a_mint != self.reserve_b_mint
        &&& self.reserve_a_vault != self.reserve_b_vault
        &&& self.share_token_mint != self.reserve_a_mint
        &&& self.share_token_mint != self.reserve_b_mint
    }

    /// Creates the record of a new pool from the identifiers of its two
    /// assets, its two custody balances and its share token.
    pub fn new(
        reserve_a_mint: u64,
        reserve_b_mint: u64,
        reserve_a_vault: u64,
        reserve_b_vault: u64,
        share_token_mint: u64,
        authority_bump: u8,
    ) -> (pool: Pool)
        requires
            reserve_a_mint != reserve_b_mint,
            reserve_a_vault != reserve_b_vault,
            share_token_mint != reserve_a_mint,
            share_token_mint != reserve_b_mint,
        ensures
            pool.wf(),
            pool.reserve_a_mint == reserve_a_mint,
            pool.reserve_b_mint == reserve_b_mint,
            pool.reserve_a_vault == reserve_a_vault,
            pool.reserve_b_vault == reserve_b_vault,
            pool.share_token_mint == share_token_mint,
            pool.authority_bump == authority_bump,
    {
        Pool {
            reserve_a_mint,
            reserve_b_mint,
            reserve_a_vault,
            reserve_b_vault,
            share_token_mint,
            authority_bump,
        }
    }
}

/// What the pre-pricing checks of a swap decide: the direction the vault
/// pair selects, `AmountExceedsBalance` when the trader cannot cover the
/// pre-fee input, and `InvalidVault` for any vault pairing that is not
/// one of the pool's two valid directions.
pub open spec fn swap_account_check(
    pool: Pool,
    input_vault: u64,
    output_vault: u64,
    user_balance: u64,
    amount_in: u64,
) -> Result<SwapDirection, AmmError> {
    if amount_in > user_balance {
        Err(AmmError::AmountExceedsBalance)
    } else if input_vault == pool.reserve_a_vault && output_vault == pool.reserve_b_vault {
        Ok(SwapDirection::AToB)
    } else if input_vault == pool.reserve_b_vault && output_vault == pool.reserve_a_vault {
        Ok(SwapDirection::BToA)
    } else {
        Err(AmmError::InvalidVault)
    }
}

/// Runs the checks a swap must pass before pricing: the trader's balance
/// covers the pre-fee input, and the vault pair is one of the pool's two
/// valid directions.
pub fn check_swap_accounts(
    pool: &Pool,
    input_vault: u64,
    output_vault: u64,
    user_balance: u64,
    amount_in: u64,
) -> (res: Result<SwapDirection, AmmError>)
    ensures
        res == swap_account_check(*pool, input_vault, output_vault, user_balance, amount_in),
{
    if amount_in > user_balance {
        Err(AmmError::AmountExceedsBalance)
    } else if input_vault == pool.reserve_a_vault && output_vault == pool.reserve_b_vault {
        Ok(SwapDirection::AToB)
    } else if input_vault == pool.reserve_b_vault && output_vault == pool.reserve_a_vault {
        Ok(SwapDirection::BToA)
    } else {
        Err(AmmError::InvalidVault)
    }
}

/// Law: on a well-formed pool, a swap whose output vault is the same
/// vault as its input vault never passes the checks; it is rejected with
/// `InvalidVault` whenever the balance check lets it get that far.
pub proof fn lemma_same_vault_rejected(
    pool: Pool,
    vault: u64,
    user_balance: u64,
    amount_in: u64,
)
    requires
        pool.wf(),
        amount_in <= user_balance,
    ensures
        swap_account_check(pool, vault, vault, user_balance, amount_in) == Err::<
            SwapDirection,
            AmmError,
        >(AmmError::InvalidVault),
{
}

} // verus!
