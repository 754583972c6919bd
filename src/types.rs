//! The records of the market: configuration, orders, seller statistics, and
//! the transfers that an operation asks the ledger to make.
use vstd::prelude::*;

verus! {

/// A 256-bit account identity, held as its high and low 128-bit halves.
#[derive(Clone, Copy, Debug, PartialEq, Eq, Structural)]
pub struct Identity {
    pub hi: u128,
    pub lo: u128,
}

/// Whether an order was opened by a buyer or by a seller.
#[derive(Clone, Copy, Debug, PartialEq, Eq, Structural)]
pub enum OrderType {
    Buy,
    Sell,
}

/// The lifecycle state of an order.
#[derive(Clone, Copy, Debug, PartialEq, Eq, Structural)]
pub enum OrderStatus {
    Open,
    InProgress,
    Completed,
    PartiallyCompleted,
    Cancelled,
    Refunded,
    Disputed,
}

/// Why an operation was refused. A refused operation changes nothing.
#[derive(Clone, Copy, Debug, PartialEq, Eq, Structural)]
pub enum ErrorCode {
    Unauthorized,
    InvalidOrderId,
    InvalidAmount,
    InvalidPrice,
    InvalidDeadline,
    InvalidEthAddress,
    MathOverflow,
    OrderNotOpen,
    InvalidOrderStatus,
    OrderNotCancellable,
    WrongOrderType,
    InvalidPercentage,
    OrderTooSmall,
}

/// The market's global parameters. Fee rates are in basis points, the deposit
/// ratio in percent, volumes and order values in the payment token's minor unit.
#[derive(Clone, Copy, Debug, PartialEq, Eq, Structural)]
pub struct MarketState {
    pub authority: Identity,
    pub order_counter: u64,
    pub deposit_percentage: u8,
    pub fee_percentage: u16,
    pub fee_recipient: Identity,
    pub tier1_volume: u64,
    pub tier1_fee: u16,
    pub tier2_volume: u64,
    pub tier2_fee: u16,
    pub tier3_volume: u64,
    pub tier3_fee: u16,
    pub min_order_value: u64,
}

/// One order. `buyer` is unset on an open sell order, `seller` on an open buy
/// order; `min_xnm_amount` and `max_xnm_amount` bound what a buyer may take
/// from a sell order.
#[derive(Clone, Debug)]
pub struct Order {
    pub id: u64,
    pub order_type: OrderType,
    pub buyer: Option<Identity>,
    pub seller: Option<Identity>,
    pub xnm_amount: u64,
    pub min_xnm_amount: u64,
    pub max_xnm_amount: u64,
    pub price: u64,
    pub created_at: i64,
    pub deadline: i64,
    pub completion_days: u8,
    pub eth_address: String,
    pub status: OrderStatus,
    pub total_value: u64,
    pub deposit_amount: u64,
    pub completion_percentage: u8,
}

/// What the market knows of one seller.
#[derive(Clone, Copy, Debug, PartialEq, Eq, Structural)]
pub struct SellerStats {
    pub seller: Identity,
    pub lifetime_volume: u64,
    pub active_orders: u32,
    pub completed_orders: u32,
    pub is_initialized: bool,
}

/// A token account that takes part in a transfer, by its role in the order.
#[derive(Clone, Copy, Debug, PartialEq, Eq, Structural)]
pub enum Holder {
    Escrow,
    Buyer,
    Seller,
    FeeRecipient,
}

/// A movement of `amount` payment tokens that the ledger must perform.
#[derive(Clone, Copy, Debug, PartialEq, Eq, Structural)]
pub struct Transfer {
    pub from: Holder,
    pub to: Holder,
    pub amount: u64,
}

/// A status reached once a counterparty has been matched.
pub open spec fn is_matched(s: OrderStatus) -> bool {
    s == OrderStatus::InProgress || s == OrderStatus::Completed || s
        == OrderStatus::PartiallyCompleted
}

impl Order {
    /// The order's invariant: the owner's side is always set, the counterparty
    /// is set exactly from matching on, and an open order holds only the
    /// owner's funds in escrow.
    pub open spec fn wf(&self) -> bool {
        &&& self.completion_percentage <= 100
        &&& match self.order_type {
            OrderType::Buy => {
                &&& self.buyer is Some
                &&& self.status == OrderStatus::Open ==> self.seller is None
                    && self.deposit_amount == 0
                &&& is_matched(self.status) ==> self.seller is Some
            },
            OrderType::Sell => {
                &&& self.seller is Some
                &&& 0 < self.min_xnm_amount <= self.max_xnm_amount
                &&& self.status == OrderStatus::Open ==> self.buyer is None && self.total_value
                    == 0
                &&& is_matched(self.status) ==> self.buyer is Some
            },
        }
    }

    /// Checks the order's invariant.
    pub fn is_well_formed(&self) -> (r: bool)
        ensures
            r == self.wf(),
    {
        let matched = self.status == OrderStatus::InProgress || self.status
            == OrderStatus::Completed || self.status == OrderStatus::PartiallyCompleted;
        let open = self.status == OrderStatus::Open;
        if self.completion_percentage > 100 {
            return false;
        }
        match self.order_type {
            OrderType::Buy => {
                self.buyer.is_some() && (!open || (self.seller.is_none() && self.deposit_amount
                    == 0)) && (!matched || self.seller.is_some())
            },
            OrderType::Sell => {
                self.seller.is_some() && 0 < self.min_xnm_amount && self.min_xnm_amount
                    <= self.max_xnm_amount && (!open || (self.buyer.is_none() && self.total_value
                    == 0)) && (!matched || self.buyer.is_some())
            },
        }
    }

    /// The funds that escrow holds for this order: the payment and the deposit
    /// while the order is live, nothing once it is settled.
    pub open spec fn held(&self) -> int {
        if self.status == OrderStatus::Open || self.status == OrderStatus::InProgress {
            self.total_value + self.deposit_amount
        } else {
            0
        }
    }
}

/// The sum of the transfers into escrow.
pub open spec fn into_escrow(ts: Seq<Transfer>) -> int
    decreases ts.len(),
{
    if ts.len() == 0 {
        0
    } else {
        into_escrow(ts.drop_last()) + if ts.last().to == Holder::Escrow {
            ts.last().amount as int
        } else {
            0
        }
    }
}

/// The sum of the transfers out of escrow.
pub open spec fn out_of_escrow(ts: Seq<Transfer>) -> int
    decreases ts.len(),
{
    if ts.len() == 0 {
        0
    } else {
        out_of_escrow(ts.drop_last()) + if ts.last().from == Holder::Escrow {
            ts.last().amount as int
        } else {
            0
        }
    }
}

/// The transfer `t`, or nothing where it would move no funds.
pub open spec fn nonzero(t: Transfer) -> Seq<Transfer> {
    if t.amount > 0 {
        seq![t]
    } else {
        Seq::empty()
    }
}

/// The escrow sums of a sequence of transfers add up over its parts.
pub proof fn lemma_escrow_sums_concat(a: Seq<Transfer>, b: Seq<Transfer>)
    ensures
        into_escrow(a + b) == into_escrow(a) + into_escrow(b),
        out_of_escrow(a + b) == out_of_escrow(a) + out_of_escrow(b),
    decreases b.len(),
{
    if b.len() == 0 {
        assert(a + b =~= a);
    } else {
        lemma_escrow_sums_concat(a, b.drop_last());
        assert((a + b).drop_last() =~= a + b.drop_last());
        assert((a + b).last() == b.last());
    }
}

/// The escrow sums of a single transfer.
pub proof fn lemma_escrow_sums_single(t: Transfer)
    ensures
        into_escrow(seq![t]) == if t.to == Holder::Escrow {
            t.amount as int
        } else {
            0
        },
        out_of_escrow(seq![t]) == if t.from == Holder::Escrow {
            t.amount as int
        } else {
            0
        },
        into_escrow(nonzero(t)) == if t.to == Holder::Escrow {
            t.amount as int
        } else {
            0
        },
        out_of_escrow(nonzero(t)) == if t.from == Holder::Escrow {
            t.amount as int
        } else {
            0
        },
{
    assert(seq![t].drop_last() =~= Seq::<Transfer>::empty());
    assert(into_escrow(Seq::<Transfer>::empty()) == 0);
    assert(out_of_escrow(Seq::<Transfer>::empty()) == 0);
}

/// Whether two identities are the same account.
pub fn same_identity(a: Identity, b: Identity) -> (r: bool)
    ensures
        r == (a == b),
{
    a == b
}

} // verus!
