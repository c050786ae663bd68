//! The error taxonomy shared by every engine of the crate.
//!
//! Every failure is fatal for the whole requested operation: the caller
//! must apply no transfer, mint or burn once an error is returned.

use vstd::prelude::*;

verus! {

/// Why an operation was rejected.
#[derive(Clone, Copy, Debug, PartialEq, Eq, Structural)]
pub enum AmmError {
    /// A multiply, add, subtract or divide would leave the representable
    /// range, or a division by zero was attempted (for example against an
    /// empty reserve).
    ArithmeticOverflow,
    /// The very first deposit is below the anti-inflation floor.
    LiquidityTooLow,
    /// The swap's vault pair does not match the pool's two reserve vaults
    /// in either valid direction.
    InvalidVault,
    /// The requested input amount exceeds the trader's available balance.
    AmountExceedsBalance,
    /// The post-swap product check failed: pricing arithmetic would have
    /// let the constant product decrease.
    InvariantViolation,
    /// A withdrawal was attempted while no shares are outstanding.
    EmptyPool,
}

} // verus!
