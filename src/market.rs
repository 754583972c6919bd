//! The order lifecycle: each operation validates a request against the
//! configuration and the order, computes the amounts, and returns the
//! transfers that the ledger must make. A refused request changes nothing.
use vstd::prelude::*;
use vstd::utf8::encode_utf8;
use crate::types::{
    ErrorCode, Holder, Identity, MarketState, Order, OrderStatus, OrderType, SellerStats,
    Transfer, into_escrow, out_of_escrow, nonzero, lemma_escrow_sums_concat,
    lemma_escrow_sums_single, same_identity,
};
use crate::fees::{fee_rate_for, get_seller_fee_percentage};
use crate::funds::{
    fits, dispute_fits, dispute_paid, dispute_platform_fee, dispute_seller_payment,
    dispute_buyer_refund, dispute_split, retained_of, retained_deposit, completion_fits,
    completion_fee, completion_seller_payment, completion_payout, deposit_fits, deposit_of,
    deposit_for,
};

verus! {

/// A delivery address is accepted when it is 42 bytes long and starts with "0x".
pub open spec fn eth_address_ok(s: Seq<char>) -> bool {
    let b = encode_utf8(s);
    b.len() == 42 && b[0] == 48u8 && b[1] == 120u8
}

/// Checks the shape of a delivery address.
pub fn valid_eth_address(eth_address: &String) -> (r: bool)
    ensures
        r == eth_address_ok(eth_address@),
{
    let b = eth_address.as_str().as_bytes();
    b.len() == 42 && b[0] == 48u8 && b[1] == 120u8
}

/// The number of seconds in a day.
pub const SECONDS_PER_DAY: i64 = 86400;

/// The deadline `days` days after `now`, in seconds.
pub open spec fn deadline_of(now: i64, days: u8) -> int {
    now + days * SECONDS_PER_DAY
}

/// The deadline `days` days after `now`, or `None` where it does not fit.
pub fn deadline_after(now: i64, days: u8) -> (r: Option<i64>)
    ensures
        r is Some <==> deadline_of(now, days) <= i64::MAX,
        r matches Some(d) ==> d == deadline_of(now, days),
{
    let span = (days as i64) * SECONDS_PER_DAY;
    now.checked_add(span)
}

/// Seller statistics after one of the seller's orders settles with `added`
/// credited to lifetime volume.
pub open spec fn settled_stats(s: SellerStats, added: int) -> SellerStats {
    SellerStats {
        lifetime_volume: (s.lifetime_volume + added) as u64,
        active_orders: if s.active_orders == 0 {
            0
        } else {
            (s.active_orders - 1) as u32
        },
        completed_orders: (s.completed_orders + 1) as u32,
        ..s
    }
}

/// Why `resolve_dispute` refuses a request, in the order the checks are made.
pub open spec fn resolve_dispute_failure(
    m: MarketState,
    o: Order,
    s: SellerStats,
    caller: Identity,
    order_id: u64,
    pct: u8,
) -> Option<ErrorCode> {
    let rate = fee_rate_for(m, s.lifetime_volume) as int;
    if caller != m.authority {
        Some(ErrorCode::Unauthorized)
    } else if o.id != order_id {
        Some(ErrorCode::InvalidOrderId)
    } else if o.status != OrderStatus::InProgress {
        Some(ErrorCode::InvalidOrderStatus)
    } else if pct > 100 {
        Some(ErrorCode::InvalidPercentage)
    } else if !dispute_fits(o.total_value as int, o.deposit_amount as int, pct as int, rate) {
        Some(ErrorCode::MathOverflow)
    } else if !fits(s.lifetime_volume + dispute_paid(o.total_value as int, pct as int)) {
        Some(ErrorCode::MathOverflow)
    } else if s.completed_orders == u32::MAX {
        Some(ErrorCode::MathOverflow)
    } else {
        None
    }
}

/// The transfers out of escrow that settle a dispute: the platform's fee, the
/// seller's payment and the buyer's refund, each only where it is not zero.
pub open spec fn dispute_transfers(o: Order, pct: u8, rate: u16) -> Seq<Transfer> {
    let (t, d, p, f) = (o.total_value as int, o.deposit_amount as int, pct as int, rate as int);
    nonzero(
        Transfer {
            from: Holder::Escrow,
            to: Holder::FeeRecipient,
            amount: dispute_platform_fee(t, d, p, f) as u64,
        },
    ) + nonzero(
        Transfer {
            from: Holder::Escrow,
            to: Holder::Seller,
            amount: dispute_seller_payment(t, d, p, f) as u64,
        },
    ) + nonzero(
        Transfer { from: Holder::Escrow, to: Holder::Buyer, amount: dispute_buyer_refund(t, d, p) as u64 },
    )
}

/// Settles an order in progress at the completion percentage that the
/// authority declares: the paid portion goes to the seller net of the tiered
/// fee, the rest of the value back to the buyer, and the forfeited part of the
/// deposit is split between the platform and the buyer.
pub fn resolve_dispute(
    market_state: &MarketState,
    order: &mut Order,
    seller_stats: &mut SellerStats,
    caller: Identity,
    order_id: u64,
    completion_percentage: u8,
) -> (r: Result<Vec<Transfer>, ErrorCode>)
    requires
        old(order).wf(),
    ensures
        final(order).wf(),
        match r {
            Ok(ts) => {
                let rate = fee_rate_for(*market_state, old(seller_stats).lifetime_volume);
                &&& resolve_dispute_failure(
                    *market_state,
                    *old(order),
                    *old(seller_stats),
                    caller,
                    order_id,
                    completion_percentage,
                ) is None
                &&& ts@ == dispute_transfers(*old(order), completion_percentage, rate)
                &&& *final(order) == (Order {
                    status: OrderStatus::PartiallyCompleted,
                    completion_percentage,
                    ..*old(order)
                })
                &&& *final(seller_stats) == settled_stats(
                    *old(seller_stats),
                    dispute_paid(old(order).total_value as int, completion_percentage as int),
                )
                &&& old(order).held() + into_escrow(ts@) == final(order).held() + out_of_escrow(
                    ts@,
                )
            },
            Err(e) => {
                &&& resolve_dispute_failure(
                    *market_state,
                    *old(order),
                    *old(seller_stats),
                    caller,
                    order_id,
                    completion_percentage,
                ) == Some(e)
                &&& *final(order) == *old(order)
                &&& *final(seller_stats) == *old(seller_stats)
            },
        },
{
    if !same_identity(caller, market_state.authority) {
        return Err(ErrorCode::Unauthorized);
    }
    if order.id != order_id {
        return Err(ErrorCode::InvalidOrderId);
    }
    if order.status != OrderStatus::InProgress {
        return Err(ErrorCode::InvalidOrderStatus);
    }
    if completion_percentage > 100 {
        return Err(ErrorCode::InvalidPercentage);
    }
    let rate = get_seller_fee_percentage(market_state, seller_stats.lifetime_volume);
    let split = match dispute_split(
        order.total_value,
        order.deposit_amount,
        completion_percentage,
        rate,
    ) {
        Ok(s) => s,
        Err(e) => {
            return Err(e);
        },
    };
    let volume = match seller_stats.lifetime_volume.checked_add(split.paid_portion) {
        Some(v) => v,
        None => {
            return Err(ErrorCode::MathOverflow);
        },
    };
    let completed = match seller_stats.completed_orders.checked_add(1) {
        Some(v) => v,
        None => {
            return Err(ErrorCode::MathOverflow);
        },
    };
    let mut ts: Vec<Transfer> = Vec::new();
    let t1 = Transfer { from: Holder::Escrow, to: Holder::FeeRecipient, amount: split.platform_fee };
    let t2 = Transfer { from: Holder::Escrow, to: Holder::Seller, amount: split.seller_payment };
    let t3 = Transfer { from: Holder::Escrow, to: Holder::Buyer, amount: split.buyer_refund };
    if t1.amount > 0 {
        ts.push(t1);
    }
    if t2.amount > 0 {
        ts.push(t2);
    }
    if t3.amount > 0 {
        ts.push(t3);
    }
    proof {
        assert(ts@ =~= nonzero(t1) + nonzero(t2) + nonzero(t3));
        lemma_escrow_sums_concat(nonzero(t1), nonzero(t2));
        lemma_escrow_sums_concat(nonzero(t1) + nonzero(t2), nonzero(t3));
        lemma_escrow_sums_single(t1);
        lemma_escrow_sums_single(t2);
        lemma_escrow_sums_single(t3);
    }
    order.status = OrderStatus::PartiallyCompleted;
    order.completion_percentage = completion_percentage;
    seller_stats.lifetime_volume = volume;
    seller_stats.active_orders = seller_stats.active_orders.saturating_sub(1);
    seller_stats.completed_orders = completed;
    Ok(ts)
}

/// Why `take_sell_order` refuses a request, in the order the checks are made.
pub open spec fn take_sell_order_failure(
    m: MarketState,
    o: Order,
    s: SellerStats,
    order_id: u64,
    xnm_amount: u64,
    eth_address: Seq<char>,
    now: i64,
) -> Option<ErrorCode> {
    let payment = xnm_amount * o.price;
    if o.id != order_id {
        Some(ErrorCode::InvalidOrderId)
    } else if o.status != OrderStatus::Open {
        Some(ErrorCode::OrderNotOpen)
    } else if o.order_type != OrderType::Sell {
        Some(ErrorCode::WrongOrderType)
    } else if xnm_amount < o.min_xnm_amount || xnm_amount > o.max_xnm_amount {
        Some(ErrorCode::InvalidAmount)
    } else if !eth_address_ok(eth_address) {
        Some(ErrorCode::InvalidEthAddress)
    } else if !fits(payment) {
        Some(ErrorCode::MathOverflow)
    } else if payment < m.min_order_value {
        Some(ErrorCode::OrderTooSmall)
    } else if deadline_of(now, o.completion_days) > i64::MAX {
        Some(ErrorCode::MathOverflow)
    } else if s.active_orders == u32::MAX {
        Some(ErrorCode::MathOverflow)
    } else {
        None
    }
}

/// The transfers when a buyer takes `xnm_amount` of a sell order: the payment
/// into escrow, and the part of the deposit that the smaller fill no longer
/// needs back to the seller where it is not zero.
pub open spec fn take_transfers(o: Order, xnm_amount: u64) -> Seq<Transfer> {
    let retained = retained_of(
        o.deposit_amount as int,
        xnm_amount as int,
        o.max_xnm_amount as int,
    );
    seq![
        Transfer {
            from: Holder::Buyer,
            to: Holder::Escrow,
            amount: (xnm_amount * o.price) as u64,
        },
    ] + nonzero(
        Transfer {
            from: Holder::Escrow,
            to: Holder::Seller,
            amount: (o.deposit_amount - retained) as u64,
        },
    )
}

/// A buyer takes `xnm_amount` of an open sell order, within the seller's
/// range, and pays for it; the deposit shrinks in proportion to the fill and
/// the order is in progress until the deadline.
pub fn take_sell_order(
    market_state: &MarketState,
    order: &mut Order,
    seller_stats: &mut SellerStats,
    buyer: Identity,
    order_id: u64,
    xnm_amount: u64,
    eth_address: String,
    now: i64,
) -> (r: Result<Vec<Transfer>, ErrorCode>)
    requires
        old(order).wf(),
    ensures
        final(order).wf(),
        match r {
            Ok(ts) => {
                let retained = retained_of(
                    old(order).deposit_amount as int,
                    xnm_amount as int,
                    old(order).max_xnm_amount as int,
                );
                &&& take_sell_order_failure(
                    *market_state,
                    *old(order),
                    *old(seller_stats),
                    order_id,
                    xnm_amount,
                    eth_address@,
                    now,
                ) is None
                &&& ts@ == take_transfers(*old(order), xnm_amount)
                &&& *final(order) == (Order {
                    buyer: Some(buyer),
                    xnm_amount,
                    eth_address,
                    status: OrderStatus::InProgress,
                    total_value: (xnm_amount * old(order).price) as u64,
                    deposit_amount: retained as u64,
                    deadline: deadline_of(now, old(order).completion_days) as i64,
                    ..*old(order)
                })
                &&& *final(seller_stats) == (SellerStats {
                    active_orders: (old(seller_stats).active_orders + 1) as u32,
                    ..*old(seller_stats)
                })
                &&& old(order).held() + into_escrow(ts@) == final(order).held() + out_of_escrow(
                    ts@,
                )
            },
            Err(e) => {
                &&& take_sell_order_failure(
                    *market_state,
                    *old(order),
                    *old(seller_stats),
                    order_id,
                    xnm_amount,
                    eth_address@,
                    now,
                ) == Some(e)
                &&& *final(order) == *old(order)
                &&& *final(seller_stats) == *old(seller_stats)
            },
        },
{
    if order.id != order_id {
        return Err(ErrorCode::InvalidOrderId);
    }
    if order.status != OrderStatus::Open {
        return Err(ErrorCode::OrderNotOpen);
    }
    if order.order_type != OrderType::Sell {
        return Err(ErrorCode::WrongOrderType);
    }
    if xnm_amount < order.min_xnm_amount || xnm_amount > order.max_xnm_amount {
        return Err(ErrorCode::InvalidAmount);
    }
    if !valid_eth_address(&eth_address) {
        return Err(ErrorCode::InvalidEthAddress);
    }
    let payment = match xnm_amount.checked_mul(order.price) {
        Some(v) => v,
        None => {
            return Err(ErrorCode::MathOverflow);
        },
    };
    if payment < market_state.min_order_value {
        return Err(ErrorCode::OrderTooSmall);
    }
    let deadline = match deadline_after(now, order.completion_days) {
        Some(d) => d,
        None => {
            return Err(ErrorCode::MathOverflow);
        },
    };
    let active = match seller_stats.active_orders.checked_add(1) {
        Some(v) => v,
        None => {
            return Err(ErrorCode::MathOverflow);
        },
    };
    let retained = retained_deposit(order.deposit_amount, xnm_amount, order.max_xnm_amount);
    let released = order.deposit_amount - retained;
    let t1 = Transfer { from: Holder::Buyer, to: Holder::Escrow, amount: payment };
    let t2 = Transfer { from: Holder::Escrow, to: Holder::Seller, amount: released };
    let mut ts: Vec<Transfer> = Vec::new();
    ts.push(t1);
    if released > 0 {
        ts.push(t2);
    }
    proof {
        assert(ts@ =~= seq![t1] + nonzero(t2));
        lemma_escrow_sums_concat(seq![t1], nonzero(t2));
        lemma_escrow_sums_single(t1);
        lemma_escrow_sums_single(t2);
    }
    order.buyer = Some(buyer);
    order.xnm_amount = xnm_amount;
    order.eth_address = eth_address;
    order.status = OrderStatus::InProgress;
    order.total_value = payment;
    order.deposit_amount = retained;
    order.deadline = deadline;
    seller_stats.active_orders = active;
    Ok(ts)
}

/// Why `complete_order` refuses a request, in the order the checks are made.
pub open spec fn complete_order_failure(
    m: MarketState,
    o: Order,
    s: SellerStats,
    caller: Identity,
    order_id: u64,
) -> Option<ErrorCode> {
    let rate = fee_rate_for(m, s.lifetime_volume) as int;
    if o.id != order_id {
        Some(ErrorCode::InvalidOrderId)
    } else if o.status != OrderStatus::InProgress {
        Some(ErrorCode::InvalidOrderStatus)
    } else if o.buyer != Some(caller) {
        Some(ErrorCode::Unauthorized)
    } else if !completion_fits(o.total_value as int, o.deposit_amount as int, rate) {
        Some(ErrorCode::MathOverflow)
    } else if !fits(s.lifetime_volume + o.total_value) {
        Some(ErrorCode::MathOverflow)
    } else if s.completed_orders == u32::MAX {
        Some(ErrorCode::MathOverflow)
    } else {
        None
    }
}

/// The transfers out of escrow on completion: the fee where it is not zero,
/// then the seller's payment.
pub open spec fn completion_transfers(o: Order, rate: u16) -> Seq<Transfer> {
    let (t, d, f) = (o.total_value as int, o.deposit_amount as int, rate as int);
    nonzero(
        Transfer { from: Holder::Escrow, to: Holder::FeeRecipient, amount: completion_fee(t, f) as u64 },
    ) + seq![
        Transfer {
            from: Holder::Escrow,
            to: Holder::Seller,
            amount: completion_seller_payment(t, d, f) as u64,
        },
    ]
}

/// The buyer confirms delivery: the seller is paid the order's value net of the
/// fee of the seller's current tier, plus the whole deposit.
pub fn complete_order(
    market_state: &MarketState,
    order: &mut Order,
    seller_stats: &mut SellerStats,
    caller: Identity,
    order_id: u64,
) -> (r: Result<Vec<Transfer>, ErrorCode>)
    requires
        old(order).wf(),
    ensures
        final(order).wf(),
        match r {
            Ok(ts) => {
                let rate = fee_rate_for(*market_state, old(seller_stats).lifetime_volume);
                &&& complete_order_failure(
                    *market_state,
                    *old(order),
                    *old(seller_stats),
                    caller,
                    order_id,
                ) is None
                &&& ts@ == completion_transfers(*old(order), rate)
                &&& *final(order) == (Order {
                    status: OrderStatus::Completed,
                    completion_percentage: 100,
                    ..*old(order)
                })
                &&& *final(seller_stats) == settled_stats(
                    *old(seller_stats),
                    old(order).total_value as int,
                )
                &&& old(order).held() + into_escrow(ts@) == final(order).held() + out_of_escrow(
                    ts@,
                )
            },
            Err(e) => {
                &&& complete_order_failure(
                    *market_state,
                    *old(order),
                    *old(seller_stats),
                    caller,
                    order_id,
                ) == Some(e)
                &&& *final(order) == *old(order)
                &&& *final(seller_stats) == *old(seller_stats)
            },
        },
{
    if order.id != order_id {
        return Err(ErrorCode::InvalidOrderId);
    }
    if order.status != OrderStatus::InProgress {
        return Err(ErrorCode::InvalidOrderStatus);
    }
    let is_buyer = match order.buyer {
        Some(b) => same_identity(b, caller),
        None => false,
    };
    if !is_buyer {
        return Err(ErrorCode::Unauthorized);
    }
    let rate = get_seller_fee_percentage(market_state, seller_stats.lifetime_volume);
    let payout = match completion_payout(order.total_value, order.deposit_amount, rate) {
        Ok(p) => p,
        Err(e) => {
            return Err(e);
        },
    };
    let volume = match seller_stats.lifetime_volume.checked_add(order.total_value) {
        Some(v) => v,
        None => {
            return Err(ErrorCode::MathOverflow);
        },
    };
    let completed = match seller_stats.completed_orders.checked_add(1) {
        Some(v) => v,
        None => {
            return Err(ErrorCode::MathOverflow);
        },
    };
    let t1 = Transfer { from: Holder::Escrow, to: Holder::FeeRecipient, amount: payout.fee };
    let t2 = Transfer { from: Holder::Escrow, to: Holder::Seller, amount: payout.seller_payment };
    let mut ts: Vec<Transfer> = Vec::new();
    if payout.fee > 0 {
        ts.push(t1);
    }
    ts.push(t2);
    proof {
        assert(ts@ =~= nonzero(t1) + seq![t2]);
        lemma_escrow_sums_concat(nonzero(t1), seq![t2]);
        lemma_escrow_sums_single(t1);
        lemma_escrow_sums_single(t2);
    }
    order.status = OrderStatus::Completed;
    order.completion_percentage = 100;
    seller_stats.lifetime_volume = volume;
    seller_stats.active_orders = seller_stats.active_orders.saturating_sub(1);
    seller_stats.completed_orders = completed;
    Ok(ts)
}

/// Why `cancel_order` refuses a request, in the order the checks are made.
pub open spec fn cancel_order_failure(o: Order, caller: Identity, order_id: u64) -> Option<
    ErrorCode,
> {
    if o.id != order_id {
        Some(ErrorCode::InvalidOrderId)
    } else if o.status != OrderStatus::Open {
        Some(ErrorCode::OrderNotCancellable)
    } else if o.order_type == OrderType::Buy && o.buyer != Some(caller) {
        Some(ErrorCode::Unauthorized)
    } else if o.order_type == OrderType::Sell && o.seller != Some(caller) {
        Some(ErrorCode::Unauthorized)
    } else {
        None
    }
}

/// The refund of a cancelled order: the payment back to the buyer of a buy
/// order, the deposit back to the seller of a sell order.
pub open spec fn cancel_transfer(o: Order) -> Transfer {
    match o.order_type {
        OrderType::Buy => Transfer { from: Holder::Escrow, to: Holder::Buyer, amount: o.total_value },
        OrderType::Sell => Transfer {
            from: Holder::Escrow,
            to: Holder::Seller,
            amount: o.deposit_amount,
        },
    }
}

/// The owner withdraws an open order and gets back what it put in escrow.
pub fn cancel_order(order: &mut Order, caller: Identity, order_id: u64) -> (r: Result<
    Vec<Transfer>,
    ErrorCode,
>)
    requires
        old(order).wf(),
    ensures
        final(order).wf(),
        match r {
            Ok(ts) => {
                &&& cancel_order_failure(*old(order), caller, order_id) is None
                &&& ts@ == seq![cancel_transfer(*old(order))]
                &&& *final(order) == (Order { status: OrderStatus::Cancelled, ..*old(order) })
                &&& old(order).held() + into_escrow(ts@) == final(order).held() + out_of_escrow(
                    ts@,
                )
            },
            Err(e) => {
                &&& cancel_order_failure(*old(order), caller, order_id) == Some(e)
                &&& *final(order) == *old(order)
            },
        },
{
    if order.id != order_id {
        return Err(ErrorCode::InvalidOrderId);
    }
    if order.status != OrderStatus::Open {
        return Err(ErrorCode::OrderNotCancellable);
    }
    let t = match order.order_type {
        OrderType::Buy => {
            let owns = match order.buyer {
                Some(b) => same_identity(b, caller),
                None => false,
            };
            if !owns {
                return Err(ErrorCode::Unauthorized);
            }
            Transfer { from: Holder::Escrow, to: Holder::Buyer, amount: order.total_value }
        },
        OrderType::Sell => {
            let owns = match order.seller {
                Some(s) => same_identity(s, caller),
                None => false,
            };
            if !owns {
                return Err(ErrorCode::Unauthorized);
            }
            Transfer { from: Holder::Escrow, to: Holder::Seller, amount: order.deposit_amount }
        },
    };
    let mut ts: Vec<Transfer> = Vec::new();
    ts.push(t);
    proof {
        assert(ts@ =~= seq![t]);
        lemma_escrow_sums_single(t);
    }
    order.status = OrderStatus::Cancelled;
    Ok(ts)
}

/// The longest time, in days, that an order may take to complete.
pub const MAX_COMPLETION_DAYS: u8 = 180;

/// Whether a completion time in days is accepted.
pub open spec fn days_ok(days: u8) -> bool {
    0 < days <= MAX_COMPLETION_DAYS
}

/// Why `create_buy_order` refuses a request, in the order the checks are made.
pub open spec fn create_buy_order_failure(
    m: MarketState,
    xnm_amount: u64,
    price: u64,
    deadline_days: u8,
    eth_address: Seq<char>,
) -> Option<ErrorCode> {
    let value = xnm_amount * price;
    if xnm_amount == 0 {
        Some(ErrorCode::InvalidAmount)
    } else if price == 0 {
        Some(ErrorCode::InvalidPrice)
    } else if !days_ok(deadline_days) {
        Some(ErrorCode::InvalidDeadline)
    } else if !eth_address_ok(eth_address) {
        Some(ErrorCode::InvalidEthAddress)
    } else if !fits(value) {
        Some(ErrorCode::MathOverflow)
    } else if value < m.min_order_value {
        Some(ErrorCode::OrderTooSmall)
    } else if m.order_counter == u64::MAX {
        Some(ErrorCode::MathOverflow)
    } else {
        None
    }
}

/// A buyer opens an order for a fixed amount at a price and pays its whole
/// value into escrow. The order takes the next id.
pub fn create_buy_order(
    market_state: &mut MarketState,
    buyer: Identity,
    xnm_amount: u64,
    price: u64,
    deadline_days: u8,
    eth_address: String,
    now: i64,
) -> (r: Result<(Order, Vec<Transfer>), ErrorCode>)
    ensures
        match r {
            Ok((o, ts)) => {
                &&& create_buy_order_failure(
                    *old(market_state),
                    xnm_amount,
                    price,
                    deadline_days,
                    eth_address@,
                ) is None
                &&& *final(market_state) == (MarketState {
                    order_counter: (old(market_state).order_counter + 1) as u64,
                    ..*old(market_state)
                })
                &&& o == (Order {
                    id: old(market_state).order_counter,
                    order_type: OrderType::Buy,
                    buyer: Some(buyer),
                    seller: None,
                    xnm_amount,
                    min_xnm_amount: 0,
                    max_xnm_amount: 0,
                    price,
                    created_at: now,
                    deadline: 0,
                    completion_days: deadline_days,
                    eth_address,
                    status: OrderStatus::Open,
                    total_value: (xnm_amount * price) as u64,
                    deposit_amount: 0,
                    completion_percentage: 0,
                })
                &&& o.wf()
                &&& ts@ == seq![
                    Transfer { from: Holder::Buyer, to: Holder::Escrow, amount: o.total_value },
                ]
                &&& into_escrow(ts@) == o.held() && out_of_escrow(ts@) == 0
            },
            Err(e) => {
                &&& create_buy_order_failure(
                    *old(market_state),
                    xnm_amount,
                    price,
                    deadline_days,
                    eth_address@,
                ) == Some(e)
                &&& *final(market_state) == *old(market_state)
            },
        },
{
    if xnm_amount == 0 {
        return Err(ErrorCode::InvalidAmount);
    }
    if price == 0 {
        return Err(ErrorCode::InvalidPrice);
    }
    if deadline_days == 0 || deadline_days > MAX_COMPLETION_DAYS {
        return Err(ErrorCode::InvalidDeadline);
    }
    if !valid_eth_address(&eth_address) {
        return Err(ErrorCode::InvalidEthAddress);
    }
    let value = match xnm_amount.checked_mul(price) {
        Some(v) => v,
        None => {
            return Err(ErrorCode::MathOverflow);
        },
    };
    if value < market_state.min_order_value {
        return Err(ErrorCode::OrderTooSmall);
    }
    let id = market_state.order_counter;
    let next = match id.checked_add(1) {
        Some(v) => v,
        None => {
            return Err(ErrorCode::MathOverflow);
        },
    };
    let t = Transfer { from: Holder::Buyer, to: Holder::Escrow, amount: value };
    let mut ts: Vec<Transfer> = Vec::new();
    ts.push(t);
    proof {
        assert(ts@ =~= seq![t]);
        lemma_escrow_sums_single(t);
    }
    market_state.order_counter = next;
    let order = Order {
        id,
        order_type: OrderType::Buy,
        buyer: Some(buyer),
        seller: None,
        xnm_amount,
        min_xnm_amount: 0,
        max_xnm_amount: 0,
        price,
        created_at: now,
        deadline: 0,
        completion_days: deadline_days,
        eth_address,
        status: OrderStatus::Open,
        total_value: value,
        deposit_amount: 0,
        completion_percentage: 0,
    };
    Ok((order, ts))
}

/// Why `create_sell_order` refuses a request, in the order the checks are made.
pub open spec fn create_sell_order_failure(
    m: MarketState,
    min_xnm_amount: u64,
    max_xnm_amount: u64,
    price: u64,
    days_to_complete: u8,
) -> Option<ErrorCode> {
    let least = min_xnm_amount * price;
    let most = max_xnm_amount * price;
    if min_xnm_amount == 0 || max_xnm_amount < min_xnm_amount {
        Some(ErrorCode::InvalidAmount)
    } else if price == 0 {
        Some(ErrorCode::InvalidPrice)
    } else if !days_ok(days_to_complete) {
        Some(ErrorCode::InvalidDeadline)
    } else if !fits(least) {
        Some(ErrorCode::MathOverflow)
    } else if least < m.min_order_value {
        Some(ErrorCode::OrderTooSmall)
    } else if !fits(most) || !deposit_fits(most, m.deposit_percentage as int) {
        Some(ErrorCode::MathOverflow)
    } else if m.order_counter == u64::MAX {
        Some(ErrorCode::MathOverflow)
    } else {
        None
    }
}

/// The statistics record of a seller once it has taken part in the market,
/// `active` counting the orders that it opens with.
pub open spec fn joined_stats(s: SellerStats, seller: Identity, active: u32) -> SellerStats {
    if s.is_initialized {
        s
    } else {
        SellerStats {
            seller,
            lifetime_volume: 0,
            active_orders: active,
            completed_orders: 0,
            is_initialized: true,
        }
    }
}

/// A seller offers between `min_xnm_amount` and `max_xnm_amount` at a price,
/// and escrows the deposit on the largest fill. The order takes the next id.
pub fn create_sell_order(
    market_state: &mut MarketState,
    seller_stats: &mut SellerStats,
    seller: Identity,
    min_xnm_amount: u64,
    max_xnm_amount: u64,
    price: u64,
    days_to_complete: u8,
    now: i64,
) -> (r: Result<(Order, Vec<Transfer>), ErrorCode>)
    ensures
        match r {
            Ok((o, ts)) => {
                let deposit = deposit_of(
                    max_xnm_amount * price,
                    old(market_state).deposit_percentage as int,
                );
                &&& create_sell_order_failure(
                    *old(market_state),
                    min_xnm_amount,
                    max_xnm_amount,
                    price,
                    days_to_complete,
                ) is None
                &&& *final(market_state) == (MarketState {
                    order_counter: (old(market_state).order_counter + 1) as u64,
                    ..*old(market_state)
                })
                &&& o == (Order {
                    id: old(market_state).order_counter,
                    order_type: OrderType::Sell,
                    buyer: None,
                    seller: Some(seller),
                    xnm_amount: 0,
                    min_xnm_amount,
                    max_xnm_amount,
                    price,
                    created_at: now,
                    deadline: 0,
                    completion_days: days_to_complete,
                    eth_address: o.eth_address,
                    status: OrderStatus::Open,
                    total_value: 0,
                    deposit_amount: deposit as u64,
                    completion_percentage: 0,
                })
                &&& o.eth_address@ == Seq::<char>::empty()
                &&& o.wf()
                &&& *final(seller_stats) == joined_stats(*old(seller_stats), seller, 0)
                &&& ts@ == seq![
                    Transfer { from: Holder::Seller, to: Holder::Escrow, amount: o.deposit_amount },
                ]
                &&& into_escrow(ts@) == o.held() && out_of_escrow(ts@) == 0
            },
            Err(e) => {
                &&& create_sell_order_failure(
                    *old(market_state),
                    min_xnm_amount,
                    max_xnm_amount,
                    price,
                    days_to_complete,
                ) == Some(e)
                &&& *final(market_state) == *old(market_state)
                &&& *final(seller_stats) == *old(seller_stats)
            },
        },
{
    if min_xnm_amount == 0 || max_xnm_amount < min_xnm_amount {
        return Err(ErrorCode::InvalidAmount);
    }
    if price == 0 {
        return Err(ErrorCode::InvalidPrice);
    }
    if days_to_complete == 0 || days_to_complete > MAX_COMPLETION_DAYS {
        return Err(ErrorCode::InvalidDeadline);
    }
    let least = match min_xnm_amount.checked_mul(price) {
        Some(v) => v,
        None => {
            return Err(ErrorCode::MathOverflow);
        },
    };
    if least < market_state.min_order_value {
        return Err(ErrorCode::OrderTooSmall);
    }
    let most = match max_xnm_amount.checked_mul(price) {
        Some(v) => v,
        None => {
            return Err(ErrorCode::MathOverflow);
        },
    };
    let deposit = match deposit_for(most, market_state.deposit_percentage) {
        Ok(d) => d,
        Err(e) => {
            return Err(e);
        },
    };
    let id = market_state.order_counter;
    let next = match id.checked_add(1) {
        Some(v) => v,
        None => {
            return Err(ErrorCode::MathOverflow);
        },
    };
    let t = Transfer { from: Holder::Seller, to: Holder::Escrow, amount: deposit };
    let mut ts: Vec<Transfer> = Vec::new();
    ts.push(t);
    proof {
        assert(ts@ =~= seq![t]);
        lemma_escrow_sums_single(t);
    }
    market_state.order_counter = next;
    if !seller_stats.is_initialized {
        *seller_stats = SellerStats {
            seller,
            lifetime_volume: 0,
            active_orders: 0,
            completed_orders: 0,
            is_initialized: true,
        };
    }
    let order = Order {
        id,
        order_type: OrderType::Sell,
        buyer: None,
        seller: Some(seller),
        xnm_amount: 0,
        min_xnm_amount,
        max_xnm_amount,
        price,
        created_at: now,
        deadline: 0,
        completion_days: days_to_complete,
        eth_address: String::new(),
        status: OrderStatus::Open,
        total_value: 0,
        deposit_amount: deposit,
        completion_percentage: 0,
    };
    Ok((order, ts))
}

/// Why `accept_buy_order` refuses a request, in the order the checks are made.
pub open spec fn accept_buy_order_failure(
    m: MarketState,
    o: Order,
    s: SellerStats,
    order_id: u64,
    now: i64,
) -> Option<ErrorCode> {
    if o.id != order_id {
        Some(ErrorCode::InvalidOrderId)
    } else if o.status != OrderStatus::Open {
        Some(ErrorCode::OrderNotOpen)
    } else if o.order_type != OrderType::Buy {
        Some(ErrorCode::WrongOrderType)
    } else if !deposit_fits(o.total_value as int, m.deposit_percentage as int) {
        Some(ErrorCode::MathOverflow)
    } else if deadline_of(now, o.completion_days) > i64::MAX {
        Some(ErrorCode::MathOverflow)
    } else if s.is_initialized && s.active_orders == u32::MAX {
        Some(ErrorCode::MathOverflow)
    } else {
        None
    }
}

/// A seller accepts an open buy order and escrows the deposit on its value;
/// the order is in progress until the deadline.
pub fn accept_buy_order(
    market_state: &MarketState,
    order: &mut Order,
    seller_stats: &mut SellerStats,
    seller: Identity,
    order_id: u64,
    now: i64,
) -> (r: Result<Vec<Transfer>, ErrorCode>)
    requires
        old(order).wf(),
    ensures
        final(order).wf(),
        match r {
            Ok(ts) => {
                let deposit = deposit_of(
                    old(order).total_value as int,
                    market_state.deposit_percentage as int,
                );
                &&& accept_buy_order_failure(
                    *market_state,
                    *old(order),
                    *old(seller_stats),
                    order_id,
                    now,
                ) is None
                &&& ts@ == seq![
                    Transfer { from: Holder::Seller, to: Holder::Escrow, amount: deposit as u64 },
                ]
                &&& *final(order) == (Order {
                    seller: Some(seller),
                    status: OrderStatus::InProgress,
                    deposit_amount: deposit as u64,
                    deadline: deadline_of(now, old(order).completion_days) as i64,
                    ..*old(order)
                })
                &&& *final(seller_stats) == if old(seller_stats).is_initialized {
                    SellerStats {
                        active_orders: (old(seller_stats).active_orders + 1) as u32,
                        ..*old(seller_stats)
                    }
                } else {
                    joined_stats(*old(seller_stats), seller, 1)
                }
                &&& old(order).held() + into_escrow(ts@) == final(order).held() + out_of_escrow(
                    ts@,
                )
            },
            Err(e) => {
                &&& accept_buy_order_failure(
                    *market_state,
                    *old(order),
                    *old(seller_stats),
                    order_id,
                    now,
                ) == Some(e)
                &&& *final(order) == *old(order)
                &&& *final(seller_stats) == *old(seller_stats)
            },
        },
{
    if order.id != order_id {
        return Err(ErrorCode::InvalidOrderId);
    }
    if order.status != OrderStatus::Open {
        return Err(ErrorCode::OrderNotOpen);
    }
    if order.order_type != OrderType::Buy {
        return Err(ErrorCode::WrongOrderType);
    }
    let deposit = match deposit_for(order.total_value, market_state.deposit_percentage) {
        Ok(d) => d,
        Err(e) => {
            return Err(e);
        },
    };
    let deadline = match deadline_after(now, order.completion_days) {
        Some(d) => d,
        None => {
            return Err(ErrorCode::MathOverflow);
        },
    };
    let stats = if seller_stats.is_initialized {
        let active = match seller_stats.active_orders.checked_add(1) {
            Some(v) => v,
            None => {
                return Err(ErrorCode::MathOverflow);
            },
        };
        SellerStats { active_orders: active, ..*seller_stats }
    } else {
        SellerStats {
            seller,
            lifetime_volume: 0,
            active_orders: 1,
            completed_orders: 0,
            is_initialized: true,
        }
    };
    let t = Transfer { from: Holder::Seller, to: Holder::Escrow, amount: deposit };
    let mut ts: Vec<Transfer> = Vec::new();
    ts.push(t);
    proof {
        assert(ts@ =~= seq![t]);
        lemma_escrow_sums_single(t);
    }
    order.seller = Some(seller);
    order.status = OrderStatus::InProgress;
    order.deposit_amount = deposit;
    order.deadline = deadline;
    *seller_stats = stats;
    Ok(ts)
}

} // verus!
