//! The fee tier resolver: a seller's lifetime volume picks the fee rate.
use vstd::prelude::*;
use crate::types::MarketState;

verus! {

/// The rate in basis points for a seller with lifetime volume `v`: the rate of
/// the highest tier whose threshold `v` reaches, else the base rate.
pub open spec fn fee_rate_for(m: MarketState, v: u64) -> u16 {
    if v >= m.tier3_volume {
        m.tier3_fee
    } else if v >= m.tier2_volume {
        m.tier2_fee
    } else if v >= m.tier1_volume {
        m.tier1_fee
    } else {
        m.fee_percentage
    }
}

/// Resolves the fee rate, in basis points, that applies to a seller with the
/// given lifetime volume under the current configuration.
pub fn get_seller_fee_percentage(market_state: &MarketState, lifetime_volume: u64) -> (r: u16)
    ensures
        r == fee_rate_for(*market_state, lifetime_volume),
{
    if lifetime_volume >= market_state.tier3_volume {
        market_state.tier3_fee
    } else if lifetime_volume >= market_state.tier2_volume {
        market_state.tier2_fee
    } else if lifetime_volume >= market_state.tier1_volume {
        market_state.tier1_fee
    } else {
        market_state.fee_percentage
    }
}

} // verus!
