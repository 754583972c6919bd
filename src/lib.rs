//! An escrow-backed order market: order lifecycle, fee tiers and the fund
//! arithmetic that settles each transition, with contracts proved by Verus.
pub mod types;
pub mod config;
pub mod fees;
pub mod funds;
pub mod market;
pub mod laws;
