//! Accounting core of a two-asset constant-product automated market maker.
//!
//! The crate decides how many pool-share tokens to mint or burn, how a
//! swap's output amount is priced, and how proportional reserves are
//! returned on withdrawal. It only computes amounts and validates
//! invariants; the caller owns the custody balances and applies the
//! resulting transfers, mints and burns.

pub mod engine;
pub mod errors;
pub mod fee;
pub mod liquidity;
pub mod math;
pub mod pool;
pub mod swap;
pub mod withdraw;
