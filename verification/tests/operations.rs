use spool_amm::engine::execute;
use spool_amm::engine::Operation;
use spool_amm::engine::Outcome;
use spool_amm::engine::PoolBalances;
use spool_amm::engine::provide_liquidity;
use spool_amm::engine::remove_liquidity;
use spool_amm::engine::swap;
use spool_amm::errors::AmmError;
use spool_amm::pool::check_swap_accounts;
use spool_amm::pool::Pool;
use spool_amm::pool::SwapDirection;

fn sample_pool() -> Pool {
    Pool::new(1, 2, 3, 4, 5, 255)
}

#[test]
fn pool_record_keeps_its_identifiers() {
    let pool = sample_pool();
    assert_eq!(pool.reserve_a_mint, 1);
    assert_eq!(pool.reserve_b_mint, 2);
    assert_eq!(pool.reserve_a_vault, 3);
    assert_eq!(pool.reserve_b_vault, 4);
    assert_eq!(pool.share_token_mint, 5);
    assert_eq!(pool.authority_bump, 255);
}

#[test]
fn checks_select_the_direction_from_the_vault_pair() {
    let pool = sample_pool();
    assert_eq!(check_swap_accounts(&pool, 3, 4, 100, 50), Ok(SwapDirection::AToB));
    assert_eq!(check_swap_accounts(&pool, 4, 3, 100, 50), Ok(SwapDirection::BToA));
}

#[test]
fn checks_reject_a_swap_back_into_the_input_vault() {
    // The output vault is the input vault's own reserve: never a valid
    // direction, in either position.
    let pool = sample_pool();
    assert_eq!(check_swap_accounts(&pool, 3, 3, 100, 50), Err(AmmError::InvalidVault));
    assert_eq!(check_swap_accounts(&pool, 4, 4, 100, 50), Err(AmmError::InvalidVault));
}

#[test]
fn checks_reject_foreign_vaults() {
    let pool = sample_pool();
    assert_eq!(check_swap_accounts(&pool, 9, 4, 100, 50), Err(AmmError::InvalidVault));
    assert_eq!(check_swap_accounts(&pool, 3, 9, 100, 50), Err(AmmError::InvalidVault));
}

#[test]
fn checks_reject_an_input_beyond_the_balance() {
    let pool = sample_pool();
    assert_eq!(
        check_swap_accounts(&pool, 3, 4, 49, 50),
        Err(AmmError::AmountExceedsBalance)
    );
}

#[test]
fn swap_composes_checks_fee_and_pricing() {
    let pool = sample_pool();
    // Gross 1000 leaves 970 net of the 3% fee; pricing against reserves
    // 500 and 2000 gives floor(500 * 2000 / 1470) = 680, and
    // 1470 * (2000 - 680) = 1_940_400 >= 1_000_000 passes the post-check.
    let amounts = swap(&pool, 3, 4, 1000, 1000, 500, 2000).unwrap();
    assert_eq!(amounts.direction, SwapDirection::AToB);
    assert_eq!(amounts.gross_input, 1000);
    assert_eq!(amounts.net_input, 970);
    assert_eq!(amounts.output, 680);
}

#[test]
fn swap_rejects_before_pricing() {
    let pool = sample_pool();
    assert_eq!(swap(&pool, 3, 3, 1000, 1000, 500, 2000), Err(AmmError::InvalidVault));
    assert_eq!(
        swap(&pool, 3, 4, 999, 1000, 500, 2000),
        Err(AmmError::AmountExceedsBalance)
    );
}

#[test]
fn swap_surfaces_the_post_check_failure() {
    let pool = sample_pool();
    // Net input 970 against balanced reserves of 1000 floors the output
    // to 507, and 1970 * (1000 - 507) = 971_210 < 1_000_000: the product
    // would shrink, so the swap is rejected after pricing.
    assert_eq!(
        swap(&pool, 3, 4, 1000, 1000, 1000, 1000),
        Err(AmmError::InvariantViolation)
    );
    // The same on a tiny pool: net 1 against reserves 2 and 2 floors the
    // output to 1, and 3 * 1 = 3 < 4: rejected.
    assert_eq!(swap(&pool, 3, 4, 5, 1, 2, 2), Err(AmmError::InvariantViolation));
}

#[test]
fn provide_liquidity_returns_the_full_amounts_to_move() {
    let amounts = provide_liquidity(100, 300, 1000, 2000, 100).unwrap();
    assert_eq!(amounts.shares_to_mint, 10);
    assert_eq!(amounts.deposit_a, 100);
    assert_eq!(amounts.deposit_b, 300);
    assert_eq!(
        provide_liquidity(10, 10, 0, 0, 0),
        Err(AmmError::LiquidityTooLow)
    );
}

#[test]
fn remove_liquidity_returns_the_burn_and_both_slices() {
    let amounts = remove_liquidity(10, 1100, 2300, 110).unwrap();
    assert_eq!(amounts.burn_shares, 10);
    assert_eq!(amounts.return_a, 100);
    assert_eq!(amounts.return_b, 209);
    assert_eq!(remove_liquidity(10, 0, 0, 0), Err(AmmError::EmptyPool));
}

#[test]
fn execute_dispatches_each_operation_to_its_handler() {
    let pool = sample_pool();
    let balances = PoolBalances { reserve_a: 1000, reserve_b: 2000, share_supply: 100 };
    let deposit = execute(&pool, &balances, &Operation::Deposit { amount_a: 100, amount_b: 300 });
    match deposit {
        Ok(Outcome::Deposit(amounts)) => assert_eq!(amounts.shares_to_mint, 10),
        other => panic!("expected a deposit outcome, got {:?}", other),
    }
    let withdraw = execute(&pool, &balances, &Operation::Withdraw { burn_amount: 10 });
    match withdraw {
        Ok(Outcome::Withdraw(amounts)) => {
            assert_eq!(amounts.return_a, 100);
            assert_eq!(amounts.return_b, 200);
        }
        other => panic!("expected a withdrawal outcome, got {:?}", other),
    }
}

#[test]
fn execute_reads_the_reserves_in_the_order_the_vaults_select() {
    let pool = sample_pool();
    let balances = PoolBalances { reserve_a: 500, reserve_b: 2000, share_supply: 100 };
    // Asset A in: reserves are read as (500, 2000).
    let a_in = Operation::Swap { input_vault: 3, output_vault: 4, user_balance: 1000, amount_in: 1000 };
    match execute(&pool, &balances, &a_in) {
        Ok(Outcome::Swap(amounts)) => {
            assert_eq!(amounts.direction, SwapDirection::AToB);
            assert_eq!(amounts.output, 680);
        }
        other => panic!("expected a swap outcome, got {:?}", other),
    }
    // Asset B in: the same request the other way reads (2000, 500) and is
    // rejected by the post-check, since 970 in against 2000 floors the
    // output to 336 and 2970 * (500 - 336) = 487_080 < 1_000_000.
    let b_in = Operation::Swap { input_vault: 4, output_vault: 3, user_balance: 1000, amount_in: 1000 };
    assert_eq!(execute(&pool, &balances, &b_in), Err(AmmError::InvariantViolation));
}
