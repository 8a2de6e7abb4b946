//! A reward vault: per-user accrual of a fixed reward quantum, a cooldown
//! gate that promotes pending rewards into a withdrawable bucket, and a
//! key-less authority for releasing funds from a custodial pool.

use vstd::prelude::*;

pub mod authority;
pub mod errors;
pub mod issuer;
pub mod ledger;
pub mod promoter;
pub mod vault;
pub mod withdraw;

verus! {

/// Fixed reward granted per accepted review, in base units (6 decimals).
pub const QUANTUM: u64 = 5_000_000_000;

/// Seconds that must elapse since the last promotion before pending
/// rewards become withdrawable.
pub const COOLDOWN_SECONDS: i64 = 300;

} // verus!
