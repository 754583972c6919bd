//! Market configuration: the defaults and the administrator's updates.
use vstd::prelude::*;
use crate::types::{ErrorCode, Identity, MarketState, same_identity};

verus! {

/// The value that an optional update leaves: the new one where given.
pub open spec fn updated<T>(new: Option<T>, current: T) -> T {
    match new {
        Some(v) => v,
        None => current,
    }
}

/// The configuration of a new market administered by `authority`: deposit
/// 21%, base fee 500 bps, tiers at 10,000, 50,000 and 100,000 tokens (six
/// decimals) with 360, 270 and 200 bps, and a minimum order of 10 tokens.
pub fn initialize(authority: Identity) -> (r: MarketState)
    ensures
        r == (MarketState {
            authority,
            order_counter: 0,
            deposit_percentage: 21,
            fee_percentage: 500,
            fee_recipient: authority,
            tier1_volume: 10_000_000_000,
            tier1_fee: 360,
            tier2_volume: 50_000_000_000,
            tier2_fee: 270,
            tier3_volume: 100_000_000_000,
            tier3_fee: 200,
            min_order_value: 10_000_000,
        }),
{
    MarketState {
        authority,
        order_counter: 0,
        deposit_percentage: 21,
        fee_percentage: 500,
        fee_recipient: authority,
        tier1_volume: 10_000_000_000,
        tier1_fee: 360,
        tier2_volume: 50_000_000_000,
        tier2_fee: 270,
        tier3_volume: 100_000_000_000,
        tier3_fee: 200,
        min_order_value: 10_000_000,
    }
}

/// The authority overwrites each parameter that is given and keeps the others;
/// anyone else is refused and nothing changes.
pub fn update_params(
    market_state: &mut MarketState,
    caller: Identity,
    deposit_percentage: Option<u8>,
    fee_percentage: Option<u16>,
    fee_recipient: Option<Identity>,
    tier1_volume: Option<u64>,
    tier1_fee: Option<u16>,
    tier2_volume: Option<u64>,
    tier2_fee: Option<u16>,
    tier3_volume: Option<u64>,
    tier3_fee: Option<u16>,
    min_order_value: Option<u64>,
) -> (r: Result<(), ErrorCode>)
    ensures
        r is Err <==> caller != old(market_state).authority,
        r matches Err(e) ==> e == ErrorCode::Unauthorized && *final(market_state) == *old(
            market_state,
        ),
        r is Ok ==> *final(market_state) == (MarketState {
            authority: old(market_state).authority,
            order_counter: old(market_state).order_counter,
            deposit_percentage: updated(deposit_percentage, old(market_state).deposit_percentage),
            fee_percentage: updated(fee_percentage, old(market_state).fee_percentage),
            fee_recipient: updated(fee_recipient, old(market_state).fee_recipient),
            tier1_volume: updated(tier1_volume, old(market_state).tier1_volume),
            tier1_fee: updated(tier1_fee, old(market_state).tier1_fee),
            tier2_volume: updated(tier2_volume, old(market_state).tier2_volume),
            tier2_fee: updated(tier2_fee, old(market_state).tier2_fee),
            tier3_volume: updated(tier3_volume, old(market_state).tier3_volume),
            tier3_fee: updated(tier3_fee, old(market_state).tier3_fee),
            min_order_value: updated(min_order_value, old(market_state).min_order_value),
        }),
{
    if !same_identity(caller, market_state.authority) {
        return Err(ErrorCode::Unauthorized);
    }
    if let Some(v) = deposit_percentage {
        market_state.deposit_percentage = v;
    }
    if let Some(v) = fee_percentage {
        market_state.fee_percentage = v;
    }
    if let Some(v) = fee_recipient {
        market_state.fee_recipient = v;
    }
    if let Some(v) = tier1_volume {
        market_state.tier1_volume = v;
    }
    if let Some(v) = tier1_fee {
        market_state.tier1_fee = v;
    }
    if let Some(v) = tier2_volume {
        market_state.tier2_volume = v;
    }
    if let Some(v) = tier2_fee {
        market_state.tier2_fee = v;
    }
    if let Some(v) = tier3_volume {
        market_state.tier3_volume = v;
    }
    if let Some(v) = tier3_fee {
        market_state.tier3_fee = v;
    }
    if let Some(v) = min_order_value {
        market_state.min_order_value = v;
    }
    Ok(())
}

} // verus!
