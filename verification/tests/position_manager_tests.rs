use hyper_liquid_connector::numeric::decimal::{Decimal, Notional};
use hyper_liquid_connector::trading::position_manager::{
    LedgerOutcome, PositionEvent, PositionManager,
};
use hyper_liquid_connector::trading::types::{Fill, RiskLimits, Side};

fn pd(text: &str) -> Decimal {
    Decimal::from_str(text).expect("a decimal")
}

fn money(text: &str) -> i128 {
    Notional::from_decimal(&pd(text)).raw()
}

fn fill(symbol: &str, side: Side, price: &str, size: &str) -> Fill {
    Fill {
        id: 1,
        order_id: 2,
        symbol: symbol.to_string(),
        side,
        price: pd(price),
        size: pd(size),
        fee: pd("0.01"),
        timestamp: 0,
    }
}

fn apply(ledger: &mut PositionManager, side: Side, price: &str, size: &str) {
    assert_eq!(ledger.process_fill_at(&fill("BTC", side, price, size), 1), LedgerOutcome::Applied);
}

#[test]
fn position_opens_at_the_fill_price() {
    let mut ledger = PositionManager::new();
    assert!(ledger.is_empty());
    apply(&mut ledger, Side::Buy, "100", "5");
    let p = ledger.get_position("BTC").unwrap();
    assert_eq!(p.size.raw(), pd("5").raw());
    assert_eq!(p.entry_price.raw(), pd("100").raw());
    assert_eq!(p.mark_price.raw(), pd("100").raw());
    assert_eq!(p.unrealized_pnl.raw(), 0);
    assert_eq!(p.realized_pnl.raw(), 0);
    assert_eq!(p.updated_at, 1);
    assert_eq!(ledger.len(), 1);
    assert_eq!(ledger.get_total_fees().raw(), money("0.01"));
    let events = ledger.drain_events();
    assert_eq!(events.len(), 2);
    assert!(matches!(&events[0], PositionEvent::FillProcessed(f) if f.symbol == "BTC"));
    assert!(matches!(&events[1], PositionEvent::PositionUpdated(p) if p.size.raw() == pd("5").raw()));
}

#[test]
fn position_flip_takes_fill_price_as_entry() {
    let mut ledger = PositionManager::new();
    apply(&mut ledger, Side::Buy, "100", "5");
    let _ = ledger.drain_events();
    apply(&mut ledger, Side::Sell, "110", "8");
    let p = ledger.get_position("BTC").unwrap();
    assert_eq!(p.size.raw(), pd("-3").raw());
    assert_eq!(p.entry_price.raw(), pd("110").raw());
    // realized on the five that were closed: (110 - 100) * 5 = 50
    assert_eq!(p.realized_pnl.raw(), money("50"));
    assert_eq!(ledger.get_realized_pnl().raw(), money("50"));
    assert_eq!(p.unrealized_pnl.raw(), 0);
    let events = ledger.drain_events();
    assert_eq!(events.len(), 3);
    assert!(matches!(&events[0], PositionEvent::PnlRealized(n) if n.raw() == money("50")));
    assert!(matches!(&events[1], PositionEvent::FillProcessed(_)));
    assert!(matches!(&events[2], PositionEvent::PositionUpdated(_)));
}

#[test]
fn position_add_takes_volume_weighted_entry() {
    let mut ledger = PositionManager::new();
    apply(&mut ledger, Side::Buy, "100", "1");
    apply(&mut ledger, Side::Buy, "110", "3");
    let p = ledger.get_position("BTC").unwrap();
    assert_eq!(p.size.raw(), pd("4").raw());
    // (100 * 1 + 110 * 3) / 4 = 107.5
    assert_eq!(p.entry_price.raw(), pd("107.5").raw());
    assert_eq!(p.mark_price.raw(), pd("110").raw());
    // (110 - 107.5) * 4 = 10
    assert_eq!(p.unrealized_pnl.raw(), money("10"));
    assert_eq!(p.realized_pnl.raw(), 0);
}

#[test]
fn position_weighted_entry_rounds_toward_zero() {
    let mut ledger = PositionManager::new();
    apply(&mut ledger, Side::Buy, "1", "1");
    apply(&mut ledger, Side::Buy, "2", "2");
    let p = ledger.get_position("BTC").unwrap();
    // (1 + 4) / 3 = 1.66666666...
    assert_eq!(p.entry_price.raw(), 166_666_666);
}

#[test]
fn position_reduction_keeps_entry_and_realizes() {
    let mut ledger = PositionManager::new();
    apply(&mut ledger, Side::Buy, "100", "5");
    apply(&mut ledger, Side::Sell, "110", "2");
    let p = ledger.get_position("BTC").unwrap();
    assert_eq!(p.size.raw(), pd("3").raw());
    assert_eq!(p.entry_price.raw(), pd("100").raw());
    assert_eq!(p.realized_pnl.raw(), money("20"));
    // (110 - 100) * 3 = 30 still open
    assert_eq!(p.unrealized_pnl.raw(), money("30"));
}

#[test]
fn position_close_clears_entry_and_open_profit() {
    let mut ledger = PositionManager::new();
    apply(&mut ledger, Side::Sell, "100", "5");
    apply(&mut ledger, Side::Buy, "90", "5");
    let p = ledger.get_position("BTC").unwrap();
    assert_eq!(p.size.raw(), 0);
    assert_eq!(p.entry_price.raw(), 0);
    assert_eq!(p.unrealized_pnl.raw(), 0);
    // short from 100 closed at 90: (90 - 100) * -1 * 5 = 50
    assert_eq!(p.realized_pnl.raw(), money("50"));
    assert_eq!(p.mark_price.raw(), pd("90").raw());
}

#[test]
fn realized_pnl_is_the_sum_over_reducing_fills() {
    let mut ledger = PositionManager::new();
    apply(&mut ledger, Side::Buy, "100", "10");
    apply(&mut ledger, Side::Sell, "105", "4"); // +20
    apply(&mut ledger, Side::Buy, "95", "2"); // no profit realized; entry becomes (600 + 190) / 8
    let entry = ledger.get_position("BTC").unwrap().entry_price.raw();
    assert_eq!(entry, pd("98.75").raw());
    apply(&mut ledger, Side::Sell, "90", "8"); // (90 - 98.75) * 8 = -70
    let p = ledger.get_position("BTC").unwrap();
    assert_eq!(p.size.raw(), 0);
    assert_eq!(p.realized_pnl.raw(), money("20") + money("-70"));
    assert_eq!(ledger.get_realized_pnl().raw(), money("-50"));
}

#[test]
fn realized_pnl_does_not_depend_on_how_a_fill_is_split() {
    let mut whole = PositionManager::new();
    apply(&mut whole, Side::Buy, "100", "5");
    apply(&mut whole, Side::Sell, "110", "8");

    let mut parts = PositionManager::new();
    apply(&mut parts, Side::Buy, "100", "5");
    apply(&mut parts, Side::Sell, "110", "3");
    apply(&mut parts, Side::Sell, "110", "2");
    apply(&mut parts, Side::Sell, "110", "3");

    let a = whole.get_position("BTC").unwrap();
    let b = parts.get_position("BTC").unwrap();
    assert_eq!(a.size.raw(), b.size.raw());
    assert_eq!(a.realized_pnl.raw(), b.realized_pnl.raw());
    assert_eq!(a.entry_price.raw(), b.entry_price.raw());
    assert_eq!(a.unrealized_pnl.raw(), b.unrealized_pnl.raw());
    assert_eq!(whole.get_realized_pnl().raw(), parts.get_realized_pnl().raw());
}

#[test]
fn mark_price_changes_open_profit_only() {
    let mut ledger = PositionManager::new();
    apply(&mut ledger, Side::Buy, "100", "2");
    let _ = ledger.drain_events();
    assert_eq!(ledger.update_mark_prices_at("BTC", pd("103"), 9), LedgerOutcome::Applied);
    let p = ledger.get_position("BTC").unwrap();
    assert_eq!(p.size.raw(), pd("2").raw());
    assert_eq!(p.entry_price.raw(), pd("100").raw());
    assert_eq!(p.mark_price.raw(), pd("103").raw());
    assert_eq!(p.unrealized_pnl.raw(), money("6"));
    assert_eq!(p.updated_at, 9);
    assert_eq!(ledger.drain_events().len(), 1);
    assert_eq!(ledger.update_mark_prices_at("ETH", pd("1"), 9), LedgerOutcome::NoPosition);
    assert_eq!(ledger.update_mark_prices("SOL", pd("1")), LedgerOutcome::NoPosition);
    assert!(ledger.drain_events().is_empty());
    assert_eq!(ledger.get_total_unrealized_pnl().unwrap().raw(), money("6"));
    assert_eq!(ledger.get_total_pnl().unwrap().raw(), money("6"));
    assert_eq!(ledger.get_position_value("BTC").unwrap().raw(), money("206"));
    assert_eq!(ledger.get_position_value("ETH").unwrap().raw(), 0);
    assert_eq!(ledger.get_net_exposure().unwrap().raw(), money("206"));
}

#[test]
fn update_position_sets_what_the_account_reports() {
    let mut ledger = PositionManager::new();
    assert_eq!(
        ledger.update_position_at("ETH".to_string(), pd("-2"), pd("50"), pd("48"), 3),
        LedgerOutcome::Applied
    );
    let p = ledger.get_position("ETH").unwrap();
    assert_eq!(p.size.raw(), pd("-2").raw());
    assert_eq!(p.entry_price.raw(), pd("50").raw());
    // (48 - 50) * -2 = 4
    assert_eq!(p.unrealized_pnl.raw(), money("4"));
    assert_eq!(
        ledger.update_position_at("ETH".to_string(), pd("0"), pd("50"), pd("48"), 4),
        LedgerOutcome::Applied
    );
    let p = ledger.get_position("ETH").unwrap();
    assert_eq!(p.size.raw(), 0);
    assert_eq!(p.entry_price.raw(), 0);
    assert_eq!(p.unrealized_pnl.raw(), 0);
    assert_eq!(ledger.get_net_exposure().unwrap().raw(), 0);
    assert_eq!(ledger.get_all_positions().len(), 1);
}

#[test]
fn ledger_refuses_what_it_cannot_hold() {
    let mut ledger = PositionManager::new();
    assert_eq!(
        ledger.process_fill_at(&fill("BTC", Side::Buy, "10000000000", "10000000000"), 1),
        LedgerOutcome::Applied
    );
    // the size would leave the range of a decimal
    assert_eq!(
        ledger.process_fill_at(&fill("BTC", Side::Buy, "1", "1"), 2),
        LedgerOutcome::OutOfRange
    );
    let p = ledger.get_position("BTC").unwrap();
    assert_eq!(p.size.raw(), pd("10000000000").raw());
    assert_eq!(p.updated_at, 1);
    // open profit of 10^10 * 10^10 is beyond the range of money
    assert_eq!(ledger.update_mark_prices_at("BTC", pd("0"), 3), LedgerOutcome::OutOfRange);
    assert_eq!(
        ledger.update_position_at("X".to_string(), pd("10000000000"), pd("0"), pd("10000000000"), 3),
        LedgerOutcome::OutOfRange
    );
    assert!(ledger.get_position("X").is_none());
    assert!(ledger.get_position_value("BTC").is_none());
    assert!(ledger.get_net_exposure().is_none());
}

#[test]
fn check_risk_limits_follows_size_then_loss() {
    let mut ledger = PositionManager::new();
    let limits = RiskLimits {
        max_position_size: pd("10"),
        max_daily_loss: pd("100"),
        max_order_size: pd("5"),
        max_orders_per_side: 3,
    };
    apply(&mut ledger, Side::Buy, "100", "8");
    assert!(ledger.check_risk_limits(&limits, "BTC", pd("2")).is_ok());
    assert_eq!(
        ledger.check_risk_limits(&limits, "BTC", pd("2.5")),
        Err("Position size 10.5 would exceed limit 10".to_string())
    );
    assert!(ledger.check_risk_limits(&limits, "BTC", pd("-18")).is_ok());
    assert!(ledger.check_risk_limits(&limits, "BTC", pd("-18.5")).is_err());
    assert!(ledger.check_risk_limits(&limits, "ETH", pd("10")).is_ok());
    // lose 200 on the position: realized -200
    apply(&mut ledger, Side::Sell, "75", "8");
    assert_eq!(
        ledger.check_risk_limits(&limits, "BTC", pd("1")),
        Err("Daily loss -200 exceeds limit 100".to_string())
    );
}

#[test]
fn default_risk_limits() {
    let limits = RiskLimits::default();
    assert_eq!(limits.max_position_size.raw(), pd("100").raw());
    assert_eq!(limits.max_daily_loss.raw(), pd("1000").raw());
    assert_eq!(limits.max_order_size.raw(), pd("10").raw());
    assert_eq!(limits.max_orders_per_side, 5);
}
