//! Fund arithmetic: deposits, the partial-fill release, and the completion
//! and dispute payouts. Every step is checked; none wraps or saturates.
use vstd::prelude::*;
use crate::types::ErrorCode;

verus! {

/// Whether `x` is a value of the token's unsigned amount type.
pub open spec fn fits(x: int) -> bool {
    0 <= x <= u64::MAX
}

/// The deposit owed on a notional `value` at a deposit ratio in percent.
pub open spec fn deposit_of(value: int, ratio: int) -> int {
    value * ratio / 100
}

/// Whether the deposit of `value` at `ratio` can be computed without overflow.
pub open spec fn deposit_fits(value: int, ratio: int) -> bool {
    fits(value * ratio)
}

/// The deposit kept in escrow when `taken` of a sell order's `max` capacity is
/// bought: the deposit scaled by `taken / max`, rounded down.
pub open spec fn retained_of(deposit: int, taken: int, max: int) -> int {
    deposit * taken / max
}

/// The payout on completion of an order worth `total` with `deposit` held, at
/// a fee rate of `fee_bps`.
#[derive(Clone, Copy, Debug, PartialEq, Eq, Structural)]
pub struct CompletionPayout {
    /// The platform's fee, sent to the fee recipient.
    pub fee: u64,
    /// The proceeds net of fee plus the whole deposit, sent to the seller.
    pub seller_payment: u64,
}

pub open spec fn completion_fee(total: int, fee_bps: int) -> int {
    total * fee_bps / 10000
}

pub open spec fn completion_seller_payment(total: int, deposit: int, fee_bps: int) -> int {
    total - completion_fee(total, fee_bps) + deposit
}

/// Whether every checked step of the completion payout stays in range.
pub open spec fn completion_fits(total: int, deposit: int, fee_bps: int) -> bool {
    &&& fits(total * fee_bps)
    &&& completion_fee(total, fee_bps) <= total
    &&& fits(completion_seller_payment(total, deposit, fee_bps))
}

/// The payout when a dispute is settled at a completion percentage.
#[derive(Clone, Copy, Debug, PartialEq, Eq, Structural)]
pub struct DisputeSplit {
    /// The part of the order's value paid for what was delivered.
    pub paid_portion: u64,
    /// The fee on the paid portion plus the platform's half of the forfeit.
    pub platform_fee: u64,
    /// The paid portion net of fee plus the deposit that is not forfeited.
    pub seller_payment: u64,
    /// The unpaid part of the value plus the buyer's half of the forfeit.
    pub buyer_refund: u64,
}

pub open spec fn dispute_paid(total: int, pct: int) -> int {
    total * pct / 100
}

pub open spec fn dispute_forfeit(deposit: int, pct: int) -> int {
    deposit * (100 - pct) / 100
}

pub open spec fn dispute_platform_share(deposit: int, pct: int) -> int {
    dispute_forfeit(deposit, pct) * 50 / 100
}

pub open spec fn dispute_regular_fee(total: int, pct: int, fee_bps: int) -> int {
    dispute_paid(total, pct) * fee_bps / 10000
}

pub open spec fn dispute_platform_fee(total: int, deposit: int, pct: int, fee_bps: int) -> int {
    dispute_regular_fee(total, pct, fee_bps) + dispute_platform_share(deposit, pct)
}

pub open spec fn dispute_seller_payment(total: int, deposit: int, pct: int, fee_bps: int) -> int {
    dispute_paid(total, pct) - dispute_regular_fee(total, pct, fee_bps) + (deposit
        - dispute_forfeit(deposit, pct))
}

pub open spec fn dispute_buyer_refund(total: int, deposit: int, pct: int) -> int {
    (total - dispute_paid(total, pct)) + (dispute_forfeit(deposit, pct) - dispute_platform_share(
        deposit,
        pct,
    ))
}

/// Whether every checked step of the dispute payout stays in range.
pub open spec fn dispute_fits(total: int, deposit: int, pct: int, fee_bps: int) -> bool {
    &&& fits(total * pct)
    &&& fits(deposit * (100 - pct))
    &&& fits(dispute_forfeit(deposit, pct) * 50)
    &&& fits(dispute_paid(total, pct) * fee_bps)
    &&& fits(dispute_platform_fee(total, deposit, pct, fee_bps))
    &&& dispute_regular_fee(total, pct, fee_bps) <= dispute_paid(total, pct)
    &&& fits(dispute_seller_payment(total, deposit, pct, fee_bps))
    &&& fits(dispute_buyer_refund(total, deposit, pct))
}

/// The deposit owed on `value` at `ratio` percent, or `MathOverflow`.
pub fn deposit_for(value: u64, ratio: u8) -> (r: Result<u64, ErrorCode>)
    ensures
        r is Ok <==> deposit_fits(value as int, ratio as int),
        r matches Ok(d) ==> d == deposit_of(value as int, ratio as int),
        r matches Err(e) ==> e == ErrorCode::MathOverflow,
{
    match value.checked_mul(ratio as u64) {
        Some(v) => Ok(v / 100),
        None => Err(ErrorCode::MathOverflow),
    }
}

/// The part of a sell order's deposit that stays in escrow when `taken` of its
/// `max` capacity is bought, computed exactly and rounded down.
pub fn retained_deposit(deposit: u64, taken: u64, max: u64) -> (r: u64)
    requires
        0 < max,
        taken <= max,
    ensures
        r == retained_of(deposit as int, taken as int, max as int),
        r <= deposit,
{
    let d = deposit as u128;
    let t = taken as u128;
    proof {
        assert(d * t <= u64::MAX * u64::MAX) by (nonlinear_arith)
            requires
                d <= u64::MAX,
                t <= u64::MAX,
        ;
        assert(d * t / (max as int) <= d) by (nonlinear_arith)
            requires
                t <= max,
                0 < max,
                0 <= d,
        ;
    }
    let r = (d * t) / (max as u128);
    r as u64
}

/// The fee and the seller's payment when an order worth `total`, with
/// `deposit` held, completes at `fee_bps`; `MathOverflow` where a step does
/// not fit.
pub fn completion_payout(total: u64, deposit: u64, fee_bps: u16) -> (r: Result<
    CompletionPayout,
    ErrorCode,
>)
    ensures
        r is Ok <==> completion_fits(total as int, deposit as int, fee_bps as int),
        r matches Ok(p) ==> p.fee == completion_fee(total as int, fee_bps as int)
            && p.seller_payment == completion_seller_payment(
            total as int,
            deposit as int,
            fee_bps as int,
        ),
        r matches Err(e) ==> e == ErrorCode::MathOverflow,
{
    let fee = match total.checked_mul(fee_bps as u64) {
        Some(v) => v / 10000,
        None => {
            return Err(ErrorCode::MathOverflow);
        },
    };
    let net = match total.checked_sub(fee) {
        Some(v) => v,
        None => {
            return Err(ErrorCode::MathOverflow);
        },
    };
    let seller_payment = match net.checked_add(deposit) {
        Some(v) => v,
        None => {
            return Err(ErrorCode::MathOverflow);
        },
    };
    Ok(CompletionPayout { fee, seller_payment })
}

/// The payout of a dispute settled at `pct` percent completion, for an order
/// worth `total` with `deposit` held, at `fee_bps`; `MathOverflow` where a step
/// does not fit.
pub fn dispute_split(total: u64, deposit: u64, pct: u8, fee_bps: u16) -> (r: Result<
    DisputeSplit,
    ErrorCode,
>)
    requires
        pct <= 100,
    ensures
        r is Ok <==> dispute_fits(total as int, deposit as int, pct as int, fee_bps as int),
        r matches Ok(s) ==> {
            &&& s.paid_portion == dispute_paid(total as int, pct as int)
            &&& s.platform_fee == dispute_platform_fee(
                total as int,
                deposit as int,
                pct as int,
                fee_bps as int,
            )
            &&& s.seller_payment == dispute_seller_payment(
                total as int,
                deposit as int,
                pct as int,
                fee_bps as int,
            )
            &&& s.buyer_refund == dispute_buyer_refund(total as int, deposit as int, pct as int)
        },
        r matches Err(e) ==> e == ErrorCode::MathOverflow,
{
    let paid = match total.checked_mul(pct as u64) {
        Some(v) => v / 100,
        None => {
            return Err(ErrorCode::MathOverflow);
        },
    };
    proof {
        assert(total * pct / 100 <= total) by (nonlinear_arith)
            requires
                pct <= 100,
        ;
    }
    let unpaid = total - paid;
    let forfeit = match deposit.checked_mul((100 - pct) as u64) {
        Some(v) => v / 100,
        None => {
            return Err(ErrorCode::MathOverflow);
        },
    };
    proof {
        assert(deposit * (100 - pct) / 100 <= deposit) by (nonlinear_arith)
            requires
                pct <= 100,
        ;
    }
    let kept = deposit - forfeit;
    let platform_share = match forfeit.checked_mul(50) {
        Some(v) => v / 100,
        None => {
            return Err(ErrorCode::MathOverflow);
        },
    };
    let compensation = forfeit - platform_share;
    let regular_fee = match paid.checked_mul(fee_bps as u64) {
        Some(v) => v / 10000,
        None => {
            return Err(ErrorCode::MathOverflow);
        },
    };
    let platform_fee = match regular_fee.checked_add(platform_share) {
        Some(v) => v,
        None => {
            return Err(ErrorCode::MathOverflow);
        },
    };
    let net = match paid.checked_sub(regular_fee) {
        Some(v) => v,
        None => {
            return Err(ErrorCode::MathOverflow);
        },
    };
    let seller_payment = match net.checked_add(kept) {
        Some(v) => v,
        None => {
            return Err(ErrorCode::MathOverflow);
        },
    };
    let buyer_refund = match unpaid.checked_add(compensation) {
        Some(v) => v,
        None => {
            return Err(ErrorCode::MathOverflow);
        },
    };
    Ok(DisputeSplit { paid_portion: paid, platform_fee, seller_payment, buyer_refund })
}

} // verus!
