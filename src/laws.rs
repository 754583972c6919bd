//! Laws of the market, stated over the spec functions that the operations'
//! contracts use, and proved.
use vstd::prelude::*;
use crate::types::{ErrorCode, Identity, MarketState, Order, OrderStatus, OrderType, SellerStats};
use crate::fees::fee_rate_for;
use crate::funds::{
    retained_of, completion_fee, completion_seller_payment, dispute_paid, dispute_platform_fee,
    dispute_seller_payment, dispute_buyer_refund,
};
use crate::market::{
    take_sell_order_failure, accept_buy_order_failure, complete_order_failure,
    cancel_order_failure, resolve_dispute_failure,
};

verus! {

/// Completion pays out exactly what escrow holds: the fee and the seller's
/// payment add up to the order's value plus its deposit.
pub proof fn completion_conserves_funds(total: u64, deposit: u64, fee_bps: u16)
    ensures
        completion_fee(total as int, fee_bps as int) + completion_seller_payment(
            total as int,
            deposit as int,
            fee_bps as int,
        ) == total + deposit,
{
}

/// A dispute settled at any percentage from 0 to 100 pays out exactly what
/// escrow holds: seller, buyer and platform together receive the order's value
/// plus its deposit, and the paid portion never exceeds the value.
pub proof fn dispute_conserves_funds(total: u64, deposit: u64, pct: u8, fee_bps: u16)
    requires
        pct <= 100,
    ensures
        dispute_seller_payment(total as int, deposit as int, pct as int, fee_bps as int)
            + dispute_buyer_refund(total as int, deposit as int, pct as int)
            + dispute_platform_fee(total as int, deposit as int, pct as int, fee_bps as int)
            == total + deposit,
        0 <= dispute_paid(total as int, pct as int) <= total,
{
    assert(0 <= total * pct / 100 <= total) by (nonlinear_arith)
        requires
            pct <= 100,
    ;
}

/// Taking `taken` of a sell order's capacity `max` keeps the deposit scaled by
/// `taken / max`, rounded down, and releases the rest: the two parts add up to
/// the deposit, neither is negative, and a full take releases nothing.
pub proof fn deposit_release_is_proportional(deposit: u64, taken: u64, max: u64)
    requires
        0 < taken <= max,
    ensures
        retained_of(deposit as int, taken as int, max as int) == (deposit * taken) / (max as int),
        0 <= retained_of(deposit as int, taken as int, max as int) <= deposit,
        taken == max ==> retained_of(deposit as int, taken as int, max as int) == deposit,
{
    assert(0 <= deposit * taken / (max as int) <= deposit) by (nonlinear_arith)
        requires
            0 < taken <= max,
    ;
    if taken == max {
        assert(deposit * taken / (max as int) == deposit) by (nonlinear_arith)
            requires
                taken == max,
                0 < max,
        ;
    }
}

/// With ascending volume thresholds and descending rates, a larger lifetime
/// volume never pays a higher fee rate.
pub proof fn fee_rate_is_monotonic(m: MarketState, v1: u64, v2: u64)
    requires
        v1 < v2,
        m.tier1_volume <= m.tier2_volume <= m.tier3_volume,
        m.fee_percentage >= m.tier1_fee >= m.tier2_fee >= m.tier3_fee,
    ensures
        fee_rate_for(m, v1) >= fee_rate_for(m, v2),
{
}

/// A completed or cancelled order refuses every further lifecycle operation.
/// Addressed by its own id, it is refused for its status (dispute resolution
/// first checks that the caller is the authority).
pub proof fn settled_orders_refuse_transitions(
    m: MarketState,
    o: Order,
    s: SellerStats,
    caller: Identity,
    order_id: u64,
    xnm_amount: u64,
    eth_address: Seq<char>,
    now: i64,
    pct: u8,
)
    requires
        o.status == OrderStatus::Completed || o.status == OrderStatus::Cancelled,
    ensures
        take_sell_order_failure(m, o, s, order_id, xnm_amount, eth_address, now) is Some,
        accept_buy_order_failure(m, o, s, order_id, now) is Some,
        complete_order_failure(m, o, s, caller, order_id) is Some,
        cancel_order_failure(o, caller, order_id) is Some,
        resolve_dispute_failure(m, o, s, caller, order_id, pct) is Some,
        o.id == order_id ==> {
            &&& take_sell_order_failure(m, o, s, order_id, xnm_amount, eth_address, now) == Some(
                ErrorCode::OrderNotOpen,
            )
            &&& accept_buy_order_failure(m, o, s, order_id, now) == Some(ErrorCode::OrderNotOpen)
            &&& complete_order_failure(m, o, s, caller, order_id) == Some(
                ErrorCode::InvalidOrderStatus,
            )
            &&& cancel_order_failure(o, caller, order_id) == Some(ErrorCode::OrderNotCancellable)
            &&& caller == m.authority ==> resolve_dispute_failure(m, o, s, caller, order_id, pct)
                == Some(ErrorCode::InvalidOrderStatus)
        },
{
}

/// Only the order's buyer completes it, only its owner cancels it, and only
/// the authority resolves disputes: anyone else is refused as unauthorized
/// once the order is found in the status the operation needs.
pub proof fn only_entitled_callers_act(
    m: MarketState,
    o: Order,
    s: SellerStats,
    caller: Identity,
    pct: u8,
)
    ensures
        o.status == OrderStatus::InProgress && o.buyer != Some(caller) ==> complete_order_failure(
            m,
            o,
            s,
            caller,
            o.id,
        ) == Some(ErrorCode::Unauthorized),
        o.status == OrderStatus::Open && o.order_type == OrderType::Buy && o.buyer != Some(caller)
            ==> cancel_order_failure(o, caller, o.id) == Some(ErrorCode::Unauthorized),
        o.status == OrderStatus::Open && o.order_type == OrderType::Sell && o.seller != Some(
            caller,
        ) ==> cancel_order_failure(o, caller, o.id) == Some(ErrorCode::Unauthorized),
        caller != m.authority ==> resolve_dispute_failure(m, o, s, caller, o.id, pct) == Some(
            ErrorCode::Unauthorized,
        ),
{
}

} // verus!
