use spool_amm::errors::AmmError;
use spool_amm::liquidity::size_deposit;
use spool_amm::liquidity::size_first_deposit;
use spool_amm::liquidity::size_seeded_deposit;
use spool_amm::liquidity::MINIMUM_LIQUIDITY;
use spool_amm::math::isqrt;

#[test]
fn isqrt_exact_squares_and_neighbors() {
    assert_eq!(isqrt(0), 0);
    assert_eq!(isqrt(1), 1);
    assert_eq!(isqrt(3), 1);
    assert_eq!(isqrt(4), 2);
    assert_eq!(isqrt(99), 9);
    assert_eq!(isqrt(100), 10);
    assert_eq!(isqrt(1_000_000_000_000), 1_000_000);
    assert_eq!(isqrt(u128::MAX), u64::MAX);
}

#[test]
fn first_deposit_below_the_floor_is_rejected() {
    // product = 100, sqrt = 10 <= 1000: the anti-inflation floor holds.
    assert_eq!(size_first_deposit(10, 10), Err(AmmError::LiquidityTooLow));
    // Exactly at the floor is still rejected: issuance would be zero.
    assert_eq!(size_first_deposit(1000, 1000), Err(AmmError::LiquidityTooLow));
    assert_eq!(size_first_deposit(0, u64::MAX), Err(AmmError::LiquidityTooLow));
}

#[test]
fn first_deposit_above_the_floor_withholds_the_minimum() {
    // sqrt(10^12) = 10^6; issued = 10^6 - 1000 = 999_000.
    assert_eq!(size_first_deposit(1_000_000, 1_000_000), Ok(999_000));
    assert_eq!(MINIMUM_LIQUIDITY, 1000);
}

#[test]
fn first_deposit_at_largest_amounts() {
    // sqrt((2^64 - 1)^2) = 2^64 - 1.
    assert_eq!(size_first_deposit(u64::MAX, u64::MAX), Ok(u64::MAX - 1000));
}

#[test]
fn seeded_deposit_prices_at_the_less_favorable_rate() {
    // 100 is 10% of reserve A, 300 is 15% of reserve B: only 10% of the
    // supply is issued, never 15%.
    assert_eq!(size_seeded_deposit(100, 300, 1000, 2000, 100), Ok(10));
    // The symmetric imbalance prices the same way.
    assert_eq!(size_seeded_deposit(150, 200, 1000, 2000, 100), Ok(10));
}

#[test]
fn seeded_deposit_against_an_empty_reserve_is_an_arithmetic_error() {
    assert_eq!(size_seeded_deposit(5, 5, 0, 10, 7), Err(AmmError::ArithmeticOverflow));
    assert_eq!(size_seeded_deposit(5, 5, 10, 0, 7), Err(AmmError::ArithmeticOverflow));
}

#[test]
fn seeded_deposit_overflowing_the_share_width_is_an_arithmetic_error() {
    // Both implied shares are (2^64 - 1)^2, far beyond the share width.
    assert_eq!(
        size_seeded_deposit(u64::MAX, u64::MAX, 1, 1, u64::MAX),
        Err(AmmError::ArithmeticOverflow)
    );
}

#[test]
fn deposit_dispatches_on_the_share_supply() {
    // An empty pool takes the first-deposit branch.
    assert_eq!(size_deposit(10, 10, 0, 0, 0), Err(AmmError::LiquidityTooLow));
    assert_eq!(size_deposit(1_000_000, 1_000_000, 0, 0, 0), Ok(999_000));
    // A seeded pool prices proportionally.
    assert_eq!(size_deposit(100, 300, 1000, 2000, 100), Ok(10));
}
