use hash_market::config::{initialize, update_params};
use hash_market::fees::get_seller_fee_percentage;
use hash_market::funds::{completion_payout, deposit_for, dispute_split, retained_deposit};
use hash_market::market::{
    accept_buy_order, cancel_order, complete_order, create_buy_order, create_sell_order,
    resolve_dispute, take_sell_order, valid_eth_address,
};
use hash_market::types::{
    ErrorCode, Holder, Identity, MarketState, Order, OrderStatus, OrderType, SellerStats, Transfer,
};

const ADMIN: Identity = Identity { hi: 1, lo: 1 };
const SELLER: Identity = Identity { hi: 2, lo: 2 };
const BUYER: Identity = Identity { hi: 3, lo: 3 };
const STRANGER: Identity = Identity { hi: 4, lo: 4 };
const NOW: i64 = 1_700_000_000;

fn address() -> String {
    format!("0x{}", "ab".repeat(20))
}

fn fresh_stats() -> SellerStats {
    SellerStats {
        seller: Identity { hi: 0, lo: 0 },
        lifetime_volume: 0,
        active_orders: 0,
        completed_orders: 0,
        is_initialized: false,
    }
}

fn escrow_in(ts: &[Transfer]) -> u64 {
    ts.iter().filter(|t| t.to == Holder::Escrow).map(|t| t.amount).sum()
}

fn escrow_out(ts: &[Transfer]) -> u64 {
    ts.iter().filter(|t| t.from == Holder::Escrow).map(|t| t.amount).sum()
}

fn sell_order(m: &mut MarketState, stats: &mut SellerStats) -> Order {
    let (o, _) = create_sell_order(m, stats, SELLER, 100, 1000, 1_000_000, 7, NOW).unwrap();
    o
}

fn taken_order(m: &mut MarketState, stats: &mut SellerStats, amount: u64) -> Order {
    let mut o = sell_order(m, stats);
    let o_id = o.id;
    take_sell_order(m, &mut o, stats, BUYER, o_id, amount, address(), NOW).unwrap();
    o
}

#[test]
fn initialize_sets_defaults() {
    let m = initialize(ADMIN);
    assert_eq!(m.authority, ADMIN);
    assert_eq!(m.fee_recipient, ADMIN);
    assert_eq!(m.order_counter, 0);
    assert_eq!(m.deposit_percentage, 21);
    assert_eq!(m.fee_percentage, 500);
    assert_eq!((m.tier1_volume, m.tier1_fee), (10_000_000_000, 360));
    assert_eq!((m.tier2_volume, m.tier2_fee), (50_000_000_000, 270));
    assert_eq!((m.tier3_volume, m.tier3_fee), (100_000_000_000, 200));
    assert_eq!(m.min_order_value, 10_000_000);
}

#[test]
fn scenario_sell_take_complete() {
    let mut m = initialize(ADMIN);
    let mut stats = fresh_stats();
    let (mut o, ts) =
        create_sell_order(&mut m, &mut stats, SELLER, 100, 1000, 1_000_000, 7, NOW).unwrap();
    assert_eq!(o.deposit_amount, 210_000_000);
    assert_eq!(ts, vec![Transfer { from: Holder::Seller, to: Holder::Escrow, amount: 210_000_000 }]);
    assert!(stats.is_initialized);
    assert_eq!(stats.seller, SELLER);

    let o_id = o.id;
    let ts = take_sell_order(&m, &mut o, &mut stats, BUYER, o_id, 400, address(), NOW).unwrap();
    assert_eq!(o.deposit_amount, 84_000_000);
    assert_eq!(o.total_value, 400_000_000);
    assert_eq!(o.status, OrderStatus::InProgress);
    assert_eq!(o.buyer, Some(BUYER));
    assert_eq!(o.deadline, NOW + 7 * 86400);
    assert_eq!(
        ts,
        vec![
            Transfer { from: Holder::Buyer, to: Holder::Escrow, amount: 400_000_000 },
            Transfer { from: Holder::Escrow, to: Holder::Seller, amount: 126_000_000 },
        ]
    );
    assert_eq!(stats.active_orders, 1);

    let o_id = o.id;
    let ts = complete_order(&m, &mut o, &mut stats, BUYER, o_id).unwrap();
    assert_eq!(
        ts,
        vec![
            Transfer { from: Holder::Escrow, to: Holder::FeeRecipient, amount: 20_000_000 },
            Transfer { from: Holder::Escrow, to: Holder::Seller, amount: 464_000_000 },
        ]
    );
    assert_eq!(o.status, OrderStatus::Completed);
    assert_eq!(o.completion_percentage, 100);
    assert_eq!(stats.lifetime_volume, 400_000_000);
    assert_eq!(stats.active_orders, 0);
    assert_eq!(stats.completed_orders, 1);
}

#[test]
fn buy_order_accept_complete_conserves() {
    let mut m = initialize(ADMIN);
    let mut stats = fresh_stats();
    let (mut o, ts) = create_buy_order(&mut m, BUYER, 50, 2_000_000, 30, address(), NOW).unwrap();
    assert_eq!(o.order_type, OrderType::Buy);
    assert_eq!(o.total_value, 100_000_000);
    assert_eq!(o.id, 0);
    assert_eq!(m.order_counter, 1);
    let mut held = escrow_in(&ts);
    assert_eq!(held, 100_000_000);

    let o_id = o.id;
    let ts = accept_buy_order(&m, &mut o, &mut stats, SELLER, o_id, NOW).unwrap();
    assert_eq!(o.deposit_amount, 21_000_000);
    assert_eq!(o.seller, Some(SELLER));
    assert_eq!(stats.active_orders, 1);
    assert_eq!(stats.seller, SELLER);
    held += escrow_in(&ts);

    let o_id = o.id;
    let ts = complete_order(&m, &mut o, &mut stats, BUYER, o_id).unwrap();
    assert_eq!(escrow_out(&ts), held);
    assert_eq!(ts[0].amount, 5_000_000);
    assert_eq!(ts[1].amount, 116_000_000);
}

#[test]
fn dispute_split_conserves_and_splits_forfeit() {
    let mut m = initialize(ADMIN);
    let mut stats = fresh_stats();
    let mut o = taken_order(&mut m, &mut stats, 400);
    let o_id = o.id;
    let ts = resolve_dispute(&m, &mut o, &mut stats, ADMIN, o_id, 60).unwrap();
    // paid 240,000,000; fee 12,000,000; forfeit 33,600,000 split 16,800,000 each
    assert_eq!(
        ts,
        vec![
            Transfer { from: Holder::Escrow, to: Holder::FeeRecipient, amount: 28_800_000 },
            Transfer { from: Holder::Escrow, to: Holder::Seller, amount: 278_400_000 },
            Transfer { from: Holder::Escrow, to: Holder::Buyer, amount: 176_800_000 },
        ]
    );
    assert_eq!(escrow_out(&ts), 400_000_000 + 84_000_000);
    assert_eq!(o.status, OrderStatus::PartiallyCompleted);
    assert_eq!(o.completion_percentage, 60);
    assert_eq!(stats.lifetime_volume, 240_000_000);
    assert_eq!(stats.completed_orders, 1);
}

#[test]
fn dispute_conserves_over_many_inputs() {
    for total in [0u64, 1, 7, 99, 1_000_003, 400_000_000] {
        for deposit in [0u64, 1, 3, 84_000_001] {
            for pct in [0u8, 1, 33, 50, 99, 100] {
                for fee in [0u16, 1, 200, 500, 10000] {
                    let s = dispute_split(total, deposit, pct, fee).unwrap();
                    assert_eq!(
                        s.seller_payment + s.buyer_refund + s.platform_fee,
                        total + deposit
                    );
                }
            }
        }
    }
}

#[test]
fn dispute_at_zero_percent_refunds_buyer() {
    let s = dispute_split(400_000_000, 84_000_000, 0, 500).unwrap();
    assert_eq!(s.paid_portion, 0);
    assert_eq!(s.seller_payment, 0);
    assert_eq!(s.platform_fee, 42_000_000);
    assert_eq!(s.buyer_refund, 442_000_000);
}

#[test]
fn completion_payout_exact() {
    let p = completion_payout(400_000_000, 84_000_000, 500).unwrap();
    assert_eq!(p.fee, 20_000_000);
    assert_eq!(p.seller_payment, 464_000_000);
    assert_eq!(completion_payout(100, 0, 20000), Err(ErrorCode::MathOverflow));
    assert_eq!(completion_payout(u64::MAX, 0, 2), Err(ErrorCode::MathOverflow));
    assert_eq!(completion_payout(u64::MAX, 1, 0), Err(ErrorCode::MathOverflow));
}

#[test]
fn deposit_formulas_exact() {
    assert_eq!(deposit_for(1_000_000_000, 21), Ok(210_000_000));
    assert_eq!(deposit_for(99, 21), Ok(20));
    assert_eq!(deposit_for(u64::MAX, 2), Err(ErrorCode::MathOverflow));
    assert_eq!(retained_deposit(210_000_000, 400, 1000), 84_000_000);
    assert_eq!(retained_deposit(10, 1, 3), 3);
    assert_eq!(retained_deposit(u64::MAX, u64::MAX, u64::MAX), u64::MAX);
}

#[test]
fn deposit_release_is_proportional_for_every_fill() {
    let d: u64 = 210_000_007;
    let max: u64 = 1000;
    for a in 1..=max {
        let r = retained_deposit(d, a, max);
        assert_eq!(r as u128, (d as u128 * a as u128) / max as u128);
        assert!(r <= d);
    }
    assert_eq!(retained_deposit(d, max, max), d);
}

#[test]
fn full_take_releases_nothing() {
    let mut m = initialize(ADMIN);
    let mut stats = fresh_stats();
    let mut o = sell_order(&mut m, &mut stats);
    let o_id = o.id;
    let ts = take_sell_order(&m, &mut o, &mut stats, BUYER, o_id, 1000, address(), NOW).unwrap();
    assert_eq!(ts.len(), 1);
    assert_eq!(o.deposit_amount, 210_000_000);
}

#[test]
fn fee_tiers() {
    let m = initialize(ADMIN);
    assert_eq!(get_seller_fee_percentage(&m, 0), 500);
    assert_eq!(get_seller_fee_percentage(&m, 9_999_999_999), 500);
    assert_eq!(get_seller_fee_percentage(&m, 10_000_000_000), 360);
    assert_eq!(get_seller_fee_percentage(&m, 50_000_000_000), 270);
    assert_eq!(get_seller_fee_percentage(&m, 100_000_000_000), 200);
    assert_eq!(get_seller_fee_percentage(&m, u64::MAX), 200);
}

#[test]
fn fee_tiers_are_monotonic() {
    let m = initialize(ADMIN);
    let vols = [0u64, 1, 9_999_999_999, 10_000_000_000, 49_999_999_999, 50_000_000_000,
        99_999_999_999, 100_000_000_000, u64::MAX];
    for w in vols.windows(2) {
        assert!(get_seller_fee_percentage(&m, w[0]) >= get_seller_fee_percentage(&m, w[1]));
    }
}

#[test]
fn completion_uses_tier_at_completion_time() {
    let mut m = initialize(ADMIN);
    let mut stats = fresh_stats();
    let mut o = taken_order(&mut m, &mut stats, 400);
    stats.lifetime_volume = 100_000_000_000;
    let o_id = o.id;
    let ts = complete_order(&m, &mut o, &mut stats, BUYER, o_id).unwrap();
    assert_eq!(ts[0].amount, 8_000_000);
    assert_eq!(ts[1].amount, 476_000_000);
}

#[test]
fn settled_orders_refuse_everything() {
    let mut m = initialize(ADMIN);
    let mut stats = fresh_stats();
    let mut o = taken_order(&mut m, &mut stats, 400);
    let o_id = o.id;
    complete_order(&m, &mut o, &mut stats, BUYER, o_id).unwrap();
    let before = (o.clone(), stats);
    let id = o.id;
    assert_eq!(complete_order(&m, &mut o, &mut stats, BUYER, id), Err(ErrorCode::InvalidOrderStatus));
    assert_eq!(
        take_sell_order(&m, &mut o, &mut stats, BUYER, id, 400, address(), NOW),
        Err(ErrorCode::OrderNotOpen)
    );
    assert_eq!(accept_buy_order(&m, &mut o, &mut stats, SELLER, id, NOW), Err(ErrorCode::OrderNotOpen));
    assert_eq!(cancel_order(&mut o, SELLER, id), Err(ErrorCode::OrderNotCancellable));
    assert_eq!(
        resolve_dispute(&m, &mut o, &mut stats, ADMIN, id, 50),
        Err(ErrorCode::InvalidOrderStatus)
    );
    assert_eq!(o.status, before.0.status);
    assert_eq!(o.deposit_amount, before.0.deposit_amount);
    assert_eq!(stats, before.1);

    let (mut c, _) = create_buy_order(&mut m, BUYER, 50, 2_000_000, 30, address(), NOW).unwrap();
    let c_id = c.id;
    cancel_order(&mut c, BUYER, c_id).unwrap();
    let c_id = c.id;
    assert_eq!(cancel_order(&mut c, BUYER, c_id), Err(ErrorCode::OrderNotCancellable));
    let c_id = c.id;
    assert_eq!(accept_buy_order(&m, &mut c, &mut stats, SELLER, c_id, NOW), Err(ErrorCode::OrderNotOpen));
    assert_eq!(c.status, OrderStatus::Cancelled);
}

#[test]
fn only_buyer_completes() {
    let mut m = initialize(ADMIN);
    let mut stats = fresh_stats();
    let mut o = taken_order(&mut m, &mut stats, 400);
    let o_id = o.id;
    assert_eq!(complete_order(&m, &mut o, &mut stats, SELLER, o_id), Err(ErrorCode::Unauthorized));
    let o_id = o.id;
    assert_eq!(complete_order(&m, &mut o, &mut stats, STRANGER, o_id), Err(ErrorCode::Unauthorized));
    assert_eq!(o.status, OrderStatus::InProgress);
}

#[test]
fn only_owner_cancels() {
    let mut m = initialize(ADMIN);
    let mut stats = fresh_stats();
    let mut s = sell_order(&mut m, &mut stats);
    let s_id = s.id;
    assert_eq!(cancel_order(&mut s, BUYER, s_id), Err(ErrorCode::Unauthorized));
    let s_id = s.id;
    let ts = cancel_order(&mut s, SELLER, s_id).unwrap();
    assert_eq!(ts, vec![Transfer { from: Holder::Escrow, to: Holder::Seller, amount: 210_000_000 }]);
    assert_eq!(s.status, OrderStatus::Cancelled);

    let (mut b, _) = create_buy_order(&mut m, BUYER, 50, 2_000_000, 30, address(), NOW).unwrap();
    let b_id = b.id;
    assert_eq!(cancel_order(&mut b, SELLER, b_id), Err(ErrorCode::Unauthorized));
    let b_id = b.id;
    let ts = cancel_order(&mut b, BUYER, b_id).unwrap();
    assert_eq!(ts, vec![Transfer { from: Holder::Escrow, to: Holder::Buyer, amount: 100_000_000 }]);
}

#[test]
fn only_authority_resolves_and_updates() {
    let mut m = initialize(ADMIN);
    let mut stats = fresh_stats();
    let mut o = taken_order(&mut m, &mut stats, 400);
    let o_id = o.id;
    assert_eq!(resolve_dispute(&m, &mut o, &mut stats, BUYER, o_id, 50), Err(ErrorCode::Unauthorized));
    let before = m;
    assert_eq!(
        update_params(&mut m, STRANGER, Some(30), None, None, None, None, None, None, None, None, None),
        Err(ErrorCode::Unauthorized)
    );
    assert_eq!(m, before);
}

#[test]
fn update_params_overwrites_given_fields() {
    let mut m = initialize(ADMIN);
    update_params(
        &mut m, ADMIN, Some(30), None, Some(STRANGER), None, Some(300), None, None, None, None,
        Some(5),
    )
    .unwrap();
    assert_eq!(m.deposit_percentage, 30);
    assert_eq!(m.fee_percentage, 500);
    assert_eq!(m.fee_recipient, STRANGER);
    assert_eq!(m.tier1_fee, 300);
    assert_eq!(m.tier1_volume, 10_000_000_000);
    assert_eq!(m.min_order_value, 5);
    assert_eq!(m.authority, ADMIN);
}

#[test]
fn create_buy_order_errors() {
    let mut m = initialize(ADMIN);
    assert_eq!(create_buy_order(&mut m, BUYER, 0, 1_000_000, 7, address(), NOW).err(), Some(ErrorCode::InvalidAmount));
    assert_eq!(create_buy_order(&mut m, BUYER, 10, 0, 7, address(), NOW).err(), Some(ErrorCode::InvalidPrice));
    assert_eq!(create_buy_order(&mut m, BUYER, 10, 1_000_000, 0, address(), NOW).err(), Some(ErrorCode::InvalidDeadline));
    assert_eq!(create_buy_order(&mut m, BUYER, 10, 1_000_000, 181, address(), NOW).err(), Some(ErrorCode::InvalidDeadline));
    assert!(create_buy_order(&mut m, BUYER, 10, 1_000_000, 180, address(), NOW).is_ok());
    assert_eq!(create_buy_order(&mut m, BUYER, 10, 1_000_000, 7, String::new(), NOW).err(), Some(ErrorCode::InvalidEthAddress));
    assert_eq!(create_buy_order(&mut m, BUYER, 10, 1_000_000, 7, format!("1x{}", "ab".repeat(20)), NOW).err(), Some(ErrorCode::InvalidEthAddress));
    assert_eq!(create_buy_order(&mut m, BUYER, u64::MAX, 2, 7, address(), NOW).err(), Some(ErrorCode::MathOverflow));
    assert_eq!(create_buy_order(&mut m, BUYER, 9, 1_000_000, 7, address(), NOW).err(), Some(ErrorCode::OrderTooSmall));
    m.order_counter = u64::MAX;
    assert_eq!(create_buy_order(&mut m, BUYER, 10, 1_000_000, 7, address(), NOW).err(), Some(ErrorCode::MathOverflow));
    assert_eq!(m.order_counter, u64::MAX);
}

#[test]
fn create_sell_order_errors() {
    let mut m = initialize(ADMIN);
    let mut st = fresh_stats();
    assert_eq!(create_sell_order(&mut m, &mut st, SELLER, 0, 10, 1_000_000, 7, NOW).err(), Some(ErrorCode::InvalidAmount));
    assert_eq!(create_sell_order(&mut m, &mut st, SELLER, 20, 10, 1_000_000, 7, NOW).err(), Some(ErrorCode::InvalidAmount));
    assert_eq!(create_sell_order(&mut m, &mut st, SELLER, 10, 20, 0, 7, NOW).err(), Some(ErrorCode::InvalidPrice));
    assert_eq!(create_sell_order(&mut m, &mut st, SELLER, 10, 20, 1_000_000, 200, NOW).err(), Some(ErrorCode::InvalidDeadline));
    assert_eq!(create_sell_order(&mut m, &mut st, SELLER, 5, 20, 1_000_000, 7, NOW).err(), Some(ErrorCode::OrderTooSmall));
    assert_eq!(create_sell_order(&mut m, &mut st, SELLER, u64::MAX, u64::MAX, 2, 7, NOW).err(), Some(ErrorCode::MathOverflow));
    assert_eq!(create_sell_order(&mut m, &mut st, SELLER, 10_000_000, u64::MAX / 2, 2, 7, NOW).err(), Some(ErrorCode::MathOverflow));
    assert!(!st.is_initialized);
    assert_eq!(m.order_counter, 0);
}

#[test]
fn take_sell_order_errors() {
    let mut m = initialize(ADMIN);
    let mut st = fresh_stats();
    let mut o = sell_order(&mut m, &mut st);
    let id = o.id;
    assert_eq!(take_sell_order(&m, &mut o, &mut st, BUYER, id + 1, 400, address(), NOW), Err(ErrorCode::InvalidOrderId));
    assert_eq!(take_sell_order(&m, &mut o, &mut st, BUYER, id, 99, address(), NOW), Err(ErrorCode::InvalidAmount));
    assert_eq!(take_sell_order(&m, &mut o, &mut st, BUYER, id, 1001, address(), NOW), Err(ErrorCode::InvalidAmount));
    assert_eq!(take_sell_order(&m, &mut o, &mut st, BUYER, id, 400, "0xab".to_string(), NOW), Err(ErrorCode::InvalidEthAddress));
    assert_eq!(take_sell_order(&m, &mut o, &mut st, BUYER, id, 400, address(), i64::MAX), Err(ErrorCode::MathOverflow));
    m.min_order_value = 500_000_000;
    assert_eq!(take_sell_order(&m, &mut o, &mut st, BUYER, id, 400, address(), NOW), Err(ErrorCode::OrderTooSmall));
    assert_eq!(o.status, OrderStatus::Open);
    assert_eq!(o.deposit_amount, 210_000_000);
    assert_eq!(st.active_orders, 0);

    let (mut b, _) = create_buy_order(&mut m, BUYER, 500, 2_000_000, 30, address(), NOW).unwrap();
    let b_id = b.id;
    assert_eq!(take_sell_order(&m, &mut b, &mut st, BUYER, b_id, 500, address(), NOW), Err(ErrorCode::WrongOrderType));
    let o_id = o.id;
    assert_eq!(accept_buy_order(&m, &mut o, &mut st, SELLER, o_id, NOW), Err(ErrorCode::WrongOrderType));
    let b_id = b.id;
    assert_eq!(accept_buy_order(&m, &mut b, &mut st, SELLER, b_id + 7, NOW), Err(ErrorCode::InvalidOrderId));
}

#[test]
fn resolve_dispute_errors() {
    let mut m = initialize(ADMIN);
    let mut st = fresh_stats();
    let mut o = taken_order(&mut m, &mut st, 400);
    let o_id = o.id;
    assert_eq!(resolve_dispute(&m, &mut o, &mut st, ADMIN, o_id, 101), Err(ErrorCode::InvalidPercentage));
    let o_id = o.id;
    assert_eq!(resolve_dispute(&m, &mut o, &mut st, ADMIN, o_id + 1, 50), Err(ErrorCode::InvalidOrderId));
    st.lifetime_volume = u64::MAX;
    let o_id = o.id;
    assert_eq!(resolve_dispute(&m, &mut o, &mut st, ADMIN, o_id, 50), Err(ErrorCode::MathOverflow));
    assert_eq!(o.status, OrderStatus::InProgress);
    let mut open = sell_order(&mut m, &mut st);
    let open_id = open.id;
    assert_eq!(resolve_dispute(&m, &mut open, &mut st, ADMIN, open_id, 50), Err(ErrorCode::InvalidOrderStatus));
}

#[test]
fn eth_address_shape() {
    assert!(valid_eth_address(&address()));
    assert!(!valid_eth_address(&format!("0x{}", "ab".repeat(21))));
    assert!(!valid_eth_address(&format!("0X{}", "ab".repeat(20))));
    assert!(!valid_eth_address(&String::new()));
}
