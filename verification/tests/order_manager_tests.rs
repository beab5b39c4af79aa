use hyper_liquid_connector::numeric::decimal::{Decimal, Digits};
use hyper_liquid_connector::trading::order_manager::{OrderEvent, OrderManager, UpdateOutcome};
use hyper_liquid_connector::trading::types::{
    NewOrder, OrderActionType, OrderStatus, OrderType, Side,
};

fn d(text: &str) -> Decimal {
    Decimal::from_str(text).expect("a decimal")
}

fn new_order(symbol: &str, side: Side, price: &str, size: &str) -> NewOrder {
    NewOrder {
        symbol: symbol.to_string(),
        side,
        order_type: OrderType::Limit,
        price: Digits::from_decimal(&d(price)),
        size: d(size),
        client_id: Some("tag".to_string()),
    }
}

#[test]
fn order_ledger_add_creates_pending_order() {
    let mut ledger = OrderManager::new();
    assert!(ledger.is_empty());
    ledger.add_order_with(7, 1000, new_order("BTC", Side::Buy, "100", "2"));
    assert_eq!(ledger.len(), 1);
    let order = ledger.get_order(&7).expect("the order is in the ledger");
    assert_eq!(order.id, 7);
    assert_eq!(order.status, OrderStatus::Pending);
    assert_eq!(order.filled_size.raw(), 0);
    assert_eq!(order.remaining_size.raw(), d("2").raw());
    assert_eq!(order.size.raw(), d("2").raw());
    assert_eq!(order.created_at, 1000);
    assert_eq!(order.updated_at, 1000);
    assert_eq!(order.client_id.as_deref(), Some("tag"));
    let events = ledger.drain_events();
    assert_eq!(events.len(), 1);
    assert!(matches!(&events[0], OrderEvent::OrderPlaced(o) if o.id == 7));
    assert!(ledger.drain_events().is_empty());
}

#[test]
fn order_ledger_add_gives_fresh_identities() {
    let mut ledger = OrderManager::new();
    let a = ledger.add_order(new_order("BTC", Side::Buy, "100", "1"));
    let b = ledger.add_order(new_order("BTC", Side::Sell, "101", "1"));
    assert_ne!(a, b);
    assert_eq!(ledger.len(), 2);
    assert!(ledger.get_order(&a).is_some());
    assert!(ledger.get_order(&b).is_some());
}

#[test]
fn order_ledger_add_under_a_held_identity_replaces() {
    let mut ledger = OrderManager::new();
    ledger.add_order_with(1, 10, new_order("BTC", Side::Buy, "100", "1"));
    ledger.add_order_with(2, 11, new_order("ETH", Side::Buy, "50", "1"));
    ledger.add_order_with(1, 12, new_order("SOL", Side::Sell, "20", "3"));
    assert_eq!(ledger.len(), 2);
    let order = ledger.get_order(&1).unwrap();
    assert_eq!(order.symbol, "SOL");
    assert_eq!(order.created_at, 12);
}

#[test]
fn order_ledger_sizes_add_up_after_every_update() {
    let mut ledger = OrderManager::new();
    ledger.add_order_with(1, 0, new_order("BTC", Side::Buy, "100", "2"));
    let steps: Vec<(OrderStatus, Option<&str>)> = vec![
        (OrderStatus::Submitted, None),
        (OrderStatus::PartiallyFilled, Some("0.5")),
        (OrderStatus::PartiallyFilled, Some("1.25")),
        (OrderStatus::Filled, Some("2")),
    ];
    for (i, (status, filled)) in steps.into_iter().enumerate() {
        let outcome = ledger.update_order_at(1, status, filled.map(d), 100 + i as i64);
        assert_eq!(outcome, UpdateOutcome::Applied);
        let order = ledger.get_order(&1).unwrap();
        assert_eq!(order.filled_size.raw() + order.remaining_size.raw(), order.size.raw());
        assert!(order.filled_size.raw() >= 0 && order.remaining_size.raw() >= 0);
        assert_eq!(order.status, status);
        assert_eq!(order.updated_at, 100 + i as i64);
    }
    let order = ledger.get_order(&1).unwrap();
    assert_eq!(order.remaining_size.raw(), 0);
    assert_eq!(order.filled_size.raw(), d("2").raw());
}

#[test]
fn order_ledger_update_emits_updated_and_filled() {
    let mut ledger = OrderManager::new();
    ledger.add_order_with(1, 0, new_order("BTC", Side::Buy, "100", "2"));
    let _ = ledger.drain_events();
    assert_eq!(ledger.update_order_at(1, OrderStatus::Submitted, None, 1), UpdateOutcome::Applied);
    let events = ledger.drain_events();
    assert_eq!(events.len(), 1);
    assert!(matches!(&events[0], OrderEvent::OrderUpdated(o) if o.status == OrderStatus::Submitted));
    assert_eq!(
        ledger.update_order_at(1, OrderStatus::Filled, Some(d("2")), 2),
        UpdateOutcome::Applied
    );
    let events = ledger.drain_events();
    assert_eq!(events.len(), 2);
    assert!(matches!(&events[0], OrderEvent::OrderUpdated(o) if o.status == OrderStatus::Filled));
    assert!(matches!(&events[1], OrderEvent::OrderFilled(o) if o.id == 1));
}

#[test]
fn order_ledger_rejects_what_the_lifecycle_forbids() {
    let mut ledger = OrderManager::new();
    ledger.add_order_with(1, 0, new_order("BTC", Side::Buy, "100", "2"));
    let _ = ledger.drain_events();
    // pending orders are not filled before they are submitted
    assert_eq!(
        ledger.update_order_at(1, OrderStatus::Filled, Some(d("2")), 1),
        UpdateOutcome::InvalidTransition
    );
    assert_eq!(
        ledger.update_order_at(1, OrderStatus::PartiallyFilled, None, 1),
        UpdateOutcome::InvalidTransition
    );
    assert_eq!(ledger.update_order_at(1, OrderStatus::Pending, None, 1), UpdateOutcome::InvalidTransition);
    assert_eq!(ledger.update_order_at(1, OrderStatus::Submitted, None, 1), UpdateOutcome::Applied);
    assert_eq!(
        ledger.update_order_at(1, OrderStatus::Submitted, None, 2),
        UpdateOutcome::InvalidTransition
    );
    assert_eq!(ledger.update_order_at(1, OrderStatus::Pending, None, 2), UpdateOutcome::InvalidTransition);
    assert_eq!(ledger.update_order_at(1, OrderStatus::Cancelled, None, 3), UpdateOutcome::Applied);
    // terminal states are absorbing
    for status in [
        OrderStatus::Pending,
        OrderStatus::Submitted,
        OrderStatus::PartiallyFilled,
        OrderStatus::Filled,
        OrderStatus::Cancelled,
        OrderStatus::Rejected,
    ] {
        assert_eq!(ledger.update_order_at(1, status, None, 4), UpdateOutcome::InvalidTransition);
    }
    let order = ledger.get_order(&1).unwrap();
    assert_eq!(order.status, OrderStatus::Cancelled);
    assert_eq!(order.updated_at, 3);
}

#[test]
fn order_ledger_pending_may_be_cancelled_or_rejected_directly() {
    let mut ledger = OrderManager::new();
    ledger.add_order_with(1, 0, new_order("BTC", Side::Buy, "100", "2"));
    ledger.add_order_with(2, 0, new_order("BTC", Side::Buy, "100", "2"));
    assert_eq!(ledger.update_order_at(1, OrderStatus::Cancelled, None, 1), UpdateOutcome::Applied);
    assert_eq!(ledger.update_order_at(2, OrderStatus::Rejected, None, 1), UpdateOutcome::Applied);
}

#[test]
fn order_ledger_rejects_bad_fills_and_unknown_orders() {
    let mut ledger = OrderManager::new();
    ledger.add_order_with(1, 0, new_order("BTC", Side::Buy, "100", "2"));
    assert_eq!(ledger.update_order_at(1, OrderStatus::Submitted, None, 1), UpdateOutcome::Applied);
    let _ = ledger.drain_events();
    assert_eq!(
        ledger.update_order_at(1, OrderStatus::PartiallyFilled, Some(d("2.5")), 2),
        UpdateOutcome::InvalidFill
    );
    assert_eq!(
        ledger.update_order_at(1, OrderStatus::PartiallyFilled, Some(d("-0.1")), 2),
        UpdateOutcome::InvalidFill
    );
    assert_eq!(
        ledger.update_order_at(99, OrderStatus::Submitted, None, 2),
        UpdateOutcome::UnknownOrder
    );
    assert_eq!(ledger.update_order(98, OrderStatus::Submitted, None), UpdateOutcome::UnknownOrder);
    assert!(ledger.drain_events().is_empty());
    let order = ledger.get_order(&1).unwrap();
    assert_eq!(order.status, OrderStatus::Submitted);
    assert_eq!(order.filled_size.raw(), 0);
    assert_eq!(order.updated_at, 1);
}

#[test]
fn order_ledger_cancel_queues_action_and_event() {
    let mut ledger = OrderManager::new();
    ledger.add_order_with(1, 0, new_order("BTC", Side::Buy, "100", "2"));
    let _ = ledger.drain_events();
    ledger.cancel_order(1);
    let actions = ledger.drain_pending_actions();
    assert_eq!(actions.len(), 1);
    assert_eq!(actions[0].action_type, OrderActionType::Cancel);
    assert_eq!(actions[0].order_id, Some(1));
    assert!(actions[0].order.is_none());
    assert!(ledger.drain_pending_actions().is_empty());
    let events = ledger.drain_events();
    assert!(matches!(events.as_slice(), [OrderEvent::OrderCancelled(1)]));
    // the order itself waits for the exchange
    assert_eq!(ledger.get_order(&1).unwrap().status, OrderStatus::Pending);
}

#[test]
fn order_ledger_cancel_all_takes_working_orders_in_order() {
    let mut ledger = OrderManager::new();
    ledger.add_order_with(1, 0, new_order("BTC", Side::Buy, "100", "1"));
    ledger.add_order_with(2, 0, new_order("ETH", Side::Buy, "50", "1"));
    ledger.add_order_with(3, 0, new_order("BTC", Side::Sell, "101", "1"));
    ledger.add_order_with(4, 0, new_order("BTC", Side::Sell, "102", "1"));
    assert_eq!(ledger.update_order_at(4, OrderStatus::Rejected, None, 1), UpdateOutcome::Applied);
    let _ = ledger.drain_events();
    ledger.cancel_all_orders(Some("BTC"));
    let ids: Vec<u128> = ledger.drain_pending_actions().iter().filter_map(|a| a.order_id).collect();
    assert_eq!(ids, vec![1, 3]);
    let events = ledger.drain_events();
    assert!(matches!(
        events.as_slice(),
        [OrderEvent::OrderCancelled(1), OrderEvent::OrderCancelled(3)]
    ));
    ledger.cancel_all_orders(None);
    let ids: Vec<u128> = ledger.drain_pending_actions().iter().filter_map(|a| a.order_id).collect();
    assert_eq!(ids, vec![1, 2, 3]);
}

#[test]
fn order_ledger_active_orders_and_counts() {
    let mut ledger = OrderManager::new();
    ledger.add_order_with(1, 0, new_order("BTC", Side::Buy, "100", "1"));
    ledger.add_order_with(2, 0, new_order("ETH", Side::Buy, "50", "1"));
    ledger.add_order_with(3, 0, new_order("BTC", Side::Sell, "101", "1"));
    ledger.add_order_with(4, 0, new_order("BTC", Side::Buy, "99", "1"));
    assert_eq!(ledger.update_order_at(1, OrderStatus::Submitted, None, 1), UpdateOutcome::Applied);
    assert_eq!(
        ledger.update_order_at(1, OrderStatus::PartiallyFilled, Some(d("0.5")), 2),
        UpdateOutcome::Applied
    );
    assert_eq!(ledger.update_order_at(4, OrderStatus::Cancelled, None, 2), UpdateOutcome::Applied);
    let all: Vec<u128> = ledger.get_active_orders(None).iter().map(|o| o.id).collect();
    assert_eq!(all, vec![1, 2, 3]);
    let btc: Vec<u128> = ledger.get_active_orders(Some("BTC")).iter().map(|o| o.id).collect();
    assert_eq!(btc, vec![1, 3]);
    let sells: Vec<u128> =
        ledger.get_orders_by_side("BTC", Side::Sell).iter().map(|o| o.id).collect();
    assert_eq!(sells, vec![3]);
    assert_eq!(ledger.get_order_count("BTC"), (1, 1));
    assert_eq!(ledger.get_order_count("ETH"), (1, 0));
    assert_eq!(ledger.get_order_count("SOL"), (0, 0));
    assert!(ledger.get_active_orders(Some("SOL")).is_empty());
}

#[test]
fn order_ledger_exposure_is_remaining_times_price_by_side() {
    let mut ledger = OrderManager::new();
    ledger.add_order_with(1, 0, new_order("BTC", Side::Buy, "100", "2"));
    ledger.add_order_with(2, 0, new_order("BTC", Side::Buy, "99", "1"));
    ledger.add_order_with(3, 0, new_order("BTC", Side::Sell, "101", "3"));
    ledger.add_order_with(4, 0, new_order("ETH", Side::Sell, "50", "3"));
    assert_eq!(ledger.update_order_at(1, OrderStatus::Submitted, None, 1), UpdateOutcome::Applied);
    assert_eq!(
        ledger.update_order_at(1, OrderStatus::PartiallyFilled, Some(d("0.5")), 2),
        UpdateOutcome::Applied
    );
    let (buy, sell) = ledger.get_total_exposure("BTC").expect("the sums are in range");
    // buys: 1.5 * 100 + 1 * 99 = 249; sells: 3 * 101 = 303
    assert_eq!(buy.to_short_string(), "249");
    assert_eq!(sell.to_short_string(), "303");
    let whole = |d: Digits| rust_decimal::Decimal::from_i128_with_scale(d.mantissa(), d.scale());
    assert_eq!(whole(buy), rust_decimal::Decimal::from(249));
    assert_eq!(whole(sell), rust_decimal::Decimal::from(303));
    let (none_buy, none_sell) = ledger.get_total_exposure("SOL").unwrap();
    assert_eq!(whole(none_buy), rust_decimal::Decimal::ZERO);
    assert_eq!(whole(none_sell), rust_decimal::Decimal::ZERO);
    // a price with places beyond the eighth counts to its last place
    let mut fine = new_order("SOL", Side::Buy, "1", "3");
    fine.price = Digits::new(50_061_725, 9).expect("in range");
    ledger.add_order_with(5, 0, fine);
    let (fine_buy, _) = ledger.get_total_exposure("SOL").unwrap();
    assert_eq!(fine_buy.to_short_string(), "0.150185175");
}

#[test]
fn order_ledger_exposure_out_of_range_is_none() {
    let mut ledger = OrderManager::new();
    ledger.add_order_with(1, 0, new_order("BTC", Side::Buy, "10000000000", "10000000000"));
    let (buy, _) = ledger.get_total_exposure("BTC").expect("a hundred million million millions");
    assert_eq!(buy.to_short_string(), "100000000000000000000");
    let mut huge = new_order("BTC", Side::Buy, "1", "10");
    huge.price = Digits::new(79_228_162_514_264_337_593_543_950_335, 0).expect("in range");
    ledger.add_order_with(2, 0, huge);
    assert!(ledger.get_total_exposure("BTC").is_none());
    assert!(ledger.get_total_exposure("ETH").is_some());
}

#[test]
fn order_status_lifecycle_predicates() {
    assert!(OrderStatus::Pending.is_active());
    assert!(OrderStatus::Submitted.is_active());
    assert!(OrderStatus::PartiallyFilled.is_active());
    assert!(OrderStatus::Filled.is_terminal());
    assert!(OrderStatus::Cancelled.is_terminal());
    assert!(OrderStatus::Rejected.is_terminal());
    assert!(!OrderStatus::Filled.is_active());
    assert!(OrderStatus::PartiallyFilled.can_become(OrderStatus::PartiallyFilled));
    assert!(OrderStatus::Submitted.can_become(OrderStatus::Filled));
    assert!(!OrderStatus::Pending.can_become(OrderStatus::Filled));
    assert!(!OrderStatus::Filled.can_become(OrderStatus::Cancelled));
}
