//! Accounting engine of a two-asset liquidity pool: proportional ownership of
//! pooled reserves, deposits bounded by caller caps, proportional withdrawals,
//! and a time-weighted price accumulator refreshed before every change.
use vstd::prelude::*;

pub mod add_liquidity;
pub mod convert;
pub mod create_amm;
pub mod laws;
pub mod math;
pub mod oracle;
pub mod proposal;
pub mod remove_liquidity;
pub mod state;

verus! {

/// Basis-point scale: `BPS_SCALE` stands for 100%.
pub const BPS_SCALE: u64 = 10_000;

} // verus!
