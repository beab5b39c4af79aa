use hyper_liquid_connector::model::hl_msgs::{OrderBookData, PriceLevel};
use hyper_liquid_connector::numeric::decimal::{Decimal, Digits};
use hyper_liquid_connector::strategies::base_strategy::{StrategyConfig, TradingStrategy};
use hyper_liquid_connector::strategies::market_making::{MarketMakingConfig, MarketMakingStrategy};
use hyper_liquid_connector::trading::order_book::OrderBook;
use hyper_liquid_connector::trading::types::{
    Fill, Order, OrderAction, OrderActionType, OrderStatus, OrderType, Position, Side,
};
use hyper_liquid_connector::numeric::decimal::Notional;

fn md(text: &str) -> Decimal {
    Decimal::from_str(text).expect("a decimal")
}

fn book(bid: &str, ask: &str) -> OrderBook {
    let mut book = OrderBook::new_at("HYPE".to_string(), 0);
    let data = OrderBookData {
        coin: "HYPE".to_string(),
        time: 1,
        levels: vec![
            vec![PriceLevel { px: bid.to_string(), sz: "1".to_string(), n: 1 }],
            vec![PriceLevel { px: ask.to_string(), sz: "1".to_string(), n: 1 }],
        ],
    };
    book.update_from_tob_at(&data, 0);
    book
}

fn working_order(id: u128, status: OrderStatus) -> Order {
    Order {
        id,
        client_id: None,
        symbol: "HYPE".to_string(),
        side: Side::Buy,
        order_type: OrderType::Limit,
        price: Digits::from_decimal(&md("99")),
        size: md("1"),
        filled_size: md("0"),
        remaining_size: md("1"),
        status,
        created_at: 0,
        updated_at: 0,
    }
}

fn stood(text: &str) -> rust_decimal::Decimal {
    text.parse().expect("a decimal")
}

fn held(d: Digits) -> rust_decimal::Decimal {
    rust_decimal::Decimal::from_i128_with_scale(d.mantissa(), d.scale())
}

fn all(texts: &[&str]) -> Vec<rust_decimal::Decimal> {
    texts.iter().map(|t| stood(t)).collect()
}

fn prices(actions: &[OrderAction], side: Side) -> Vec<rust_decimal::Decimal> {
    actions
        .iter()
        .filter_map(|a| a.order.as_ref())
        .filter(|o| o.side == side)
        .map(|o| held(o.price))
        .collect()
}

#[test]
fn default_market_making_config() {
    let config = MarketMakingConfig::default();
    assert_eq!(config.spread_bps, 20);
    assert_eq!(config.order_size.raw(), md("1").raw());
    assert_eq!(config.max_orders_per_side, 3);
    assert_eq!(config.inventory_target.raw(), 0);
    assert_eq!(config.inventory_skew_factor.raw(), md("0.1").raw());
    assert_eq!(config.min_edge_bps, 5);
    assert_eq!(config.order_refresh_interval_ms, 1000);
    assert_eq!(config.base_config.symbol, "HYPE");
    assert_eq!(config.base_config.name, "base_strategy");
    assert!(!config.base_config.enabled);
    let base = StrategyConfig::default();
    assert_eq!(base.name, "base_strategy");
}

#[test]
fn quote_ladder_has_three_rungs_per_side() {
    let strategy = MarketMakingStrategy::new_at(MarketMakingConfig::default(), 10_000_000);
    let actions = strategy.generate_actions_at(&book("99.9", "100.1"), 10_000_000);
    assert_eq!(actions.len(), 6);
    assert!(actions.iter().all(|a| a.action_type == OrderActionType::Place));
    assert!(actions.iter().all(|a| a.order_id.is_none()));
    let bids = prices(&actions, Side::Buy);
    let asks = prices(&actions, Side::Sell);
    // spread 100 * 20 / 10000 = 0.2, half 0.1, rung 0.05
    assert_eq!(bids, all(&["99.9", "99.85", "99.8"]));
    assert_eq!(asks, all(&["100.1", "100.15", "100.2"]));
    assert!(bids.windows(2).all(|w| w[0] > w[1]));
    assert!(asks.windows(2).all(|w| w[0] < w[1]));
    for a in &actions {
        let o = a.order.as_ref().unwrap();
        assert_eq!(o.size.raw(), md("1").raw());
        assert_eq!(o.symbol, "HYPE");
        assert_eq!(o.order_type, OrderType::Limit);
    }
    // the bids come first, then the asks
    let sides: Vec<Side> = actions.iter().map(|a| a.order.as_ref().unwrap().side).collect();
    assert_eq!(sides, vec![Side::Buy, Side::Buy, Side::Buy, Side::Sell, Side::Sell, Side::Sell]);
    let tags: Vec<String> =
        actions.iter().map(|a| a.order.as_ref().unwrap().client_id.clone().unwrap()).collect();
    assert_eq!(tags, vec!["mm_buy_0", "mm_buy_1", "mm_buy_2", "mm_sell_0", "mm_sell_1", "mm_sell_2"]);
}

#[test]
fn quote_spread_takes_the_larger_of_spread_and_edge() {
    let mut config = MarketMakingConfig::default();
    config.spread_bps = 5;
    config.min_edge_bps = 40;
    let strategy = MarketMakingStrategy::new_at(config, 0);
    // 100 * 40 / 10000 = 0.4
    assert_eq!(strategy.calculate_spread(md("100")).map(held), Some(stood("0.4")));
}

#[test]
fn inventory_widens_and_shifts_the_quotes() {
    let mut strategy = MarketMakingStrategy::new_at(MarketMakingConfig::default(), 0);
    strategy.current_inventory = md("2");
    // skew 2 * 0.1 = 0.2; spread 0.2 + 0.2 = 0.4; half 0.2; rung 0.1
    assert_eq!(strategy.calculate_spread(md("100")).map(held), Some(stood("0.4")));
    let actions = strategy.generate_orders(md("100"));
    assert_eq!(
        prices(&actions, Side::Buy),
        all(&["99.6", "99.5", "99.4"])
    );
    assert_eq!(
        prices(&actions, Side::Sell),
        all(&["100", "100.1", "100.2"])
    );
    strategy.current_inventory = md("-2");
    let actions = strategy.generate_orders(md("100"));
    assert_eq!(
        prices(&actions, Side::Buy),
        all(&["100", "99.9", "99.8"])
    );
    assert_eq!(
        prices(&actions, Side::Sell),
        all(&["100.4", "100.5", "100.6"])
    );
}

#[test]
fn no_quotes_without_fair_price_or_when_disabled() {
    let mut strategy = MarketMakingStrategy::new_at(MarketMakingConfig::default(), 10_000_000);
    let empty = OrderBook::new_at("HYPE".to_string(), 0);
    assert!(strategy.generate_actions_at(&empty, 10_000_000).is_empty());
    assert!(strategy.calculate_fair_price(&empty).is_none());
    assert_eq!(
        strategy.calculate_fair_price(&book("99", "101")).map(|d| d.raw()),
        Some(md("100").raw())
    );
    strategy.set_enabled(false);
    assert!(!strategy.is_enabled());
    assert!(strategy.generate_actions_at(&book("99.9", "100.1"), 10_000_000).is_empty());
    strategy.set_enabled(true);
    assert_eq!(strategy.generate_actions_at(&book("99.9", "100.1"), 10_000_000).len(), 6);
    assert_eq!(strategy.get_name(), "base_strategy");
}

#[test]
fn no_quotes_when_the_ladder_leaves_the_range() {
    let mut config = MarketMakingConfig::default();
    config.spread_bps = 4_000_000_000;
    let strategy = MarketMakingStrategy::new_at(config, 10_000_000);
    assert!(strategy.calculate_spread(md("10000000000")).is_none());
    assert!(strategy.generate_orders(md("10000000000")).is_empty());
    let mut zero = MarketMakingConfig::default();
    zero.max_orders_per_side = 0;
    let strategy = MarketMakingStrategy::new_at(zero, 10_000_000);
    assert!(strategy.generate_orders(md("100")).is_empty());
}

#[test]
fn refresh_gate_waits_for_time_or_a_move() {
    let mut strategy = MarketMakingStrategy::new_at(MarketMakingConfig::default(), 10_000_000);
    // a new strategy counts its last refresh as an hour past
    assert_eq!(strategy.last_order_time, 10_000_000 - 3_600_000);
    assert!(strategy.should_refresh_orders_at(md("100"), 10_000_000));
    let first = strategy.on_market_data_at(&book("99.9", "100.1"), 10_000_000);
    assert_eq!(first.len(), 6);
    assert_eq!(strategy.last_price.map(|d| d.raw()), Some(md("100").raw()));
    assert_eq!(strategy.last_order_time, 10_000_000);
    // nothing moved and the interval has not passed
    assert!(strategy.on_market_data_at(&book("99.9", "100.1"), 10_000_500).is_empty());
    assert!(strategy.on_market_data_at(&book("99.9", "100.1"), 10_001_000).is_empty());
    assert_eq!(strategy.last_order_time, 10_000_000);
    // a move of exactly 0.1% is not more than 0.1%
    assert!(!strategy.should_refresh_orders_at(md("100.1"), 10_000_500));
    assert!(strategy.should_refresh_orders_at(md("100.10000001"), 10_000_500));
    assert!(strategy.should_refresh_orders_at(md("99.89999999"), 10_000_500));
    let moved = strategy.on_market_data_at(&book("100.2", "100.4"), 10_000_500);
    assert_eq!(moved.len(), 6);
    assert_eq!(strategy.last_price.map(|d| d.raw()), Some(md("100.3").raw()));
    // the interval has passed
    assert!(strategy.should_refresh_orders_at(md("100.3"), 10_001_501));
    assert_eq!(strategy.generate_actions_at(&book("100.2", "100.4"), 10_001_501).len(), 6);
    strategy.update_last_price_at(md("5"), 77);
    assert_eq!(strategy.last_order_time, 77);
    strategy.update_last_price(md("6"));
    assert_eq!(strategy.last_price.map(|d| d.raw()), Some(md("6").raw()));
}

#[test]
fn refresh_cancels_tracked_orders_before_the_new_ladder() {
    let mut strategy = MarketMakingStrategy::new_at(MarketMakingConfig::default(), 10_000_000);
    let _ = strategy.on_order_update(&working_order(11, OrderStatus::Submitted));
    let _ = strategy.on_order_update(&working_order(12, OrderStatus::PartiallyFilled));
    let _ = strategy.on_order_update(&working_order(13, OrderStatus::Pending));
    let _ = strategy.on_order_update(&working_order(14, OrderStatus::Submitted));
    let _ = strategy.on_order_update(&working_order(11, OrderStatus::Filled));
    assert_eq!(strategy.active_orders.len(), 2);
    let cancels = strategy.cancel_all_orders();
    let ids: Vec<u128> = cancels.iter().filter_map(|a| a.order_id).collect();
    assert_eq!(ids, vec![12, 14]);
    let actions = strategy.generate_actions_at(&book("99.9", "100.1"), 10_000_000);
    assert_eq!(actions.len(), 8);
    assert_eq!(actions[0].action_type, OrderActionType::Cancel);
    assert_eq!(actions[0].order_id, Some(12));
    assert_eq!(actions[1].action_type, OrderActionType::Cancel);
    assert_eq!(actions[1].order_id, Some(14));
    assert!(actions[2..].iter().all(|a| a.action_type == OrderActionType::Place));
    let _ = strategy.on_order_update(&working_order(12, OrderStatus::Cancelled));
    let _ = strategy.on_order_update(&working_order(14, OrderStatus::Rejected));
    assert!(strategy.active_orders.is_empty());
    let _ = strategy.on_order_update(&working_order(15, OrderStatus::Submitted));
    strategy.set_enabled(false);
    assert!(strategy.active_orders.is_empty());
}

#[test]
fn strategy_follows_fills_and_positions() {
    let mut strategy = MarketMakingStrategy::new_at(MarketMakingConfig::default(), 0);
    let buy = Fill {
        id: 1,
        order_id: 1,
        symbol: "HYPE".to_string(),
        side: Side::Buy,
        price: md("100"),
        size: md("2"),
        fee: md("0"),
        timestamp: 0,
    };
    assert!(strategy.on_fill(&buy).is_empty());
    assert_eq!(strategy.current_inventory.raw(), md("2").raw());
    let sell = Fill { side: Side::Sell, size: md("5"), ..buy.clone() };
    assert!(strategy.on_fill(&sell).is_empty());
    assert_eq!(strategy.current_inventory.raw(), md("-3").raw());
    let position = Position {
        symbol: "HYPE".to_string(),
        size: md("7"),
        entry_price: md("1"),
        mark_price: md("1"),
        unrealized_pnl: Notional::zero(),
        realized_pnl: Notional::zero(),
        updated_at: 0,
    };
    assert!(strategy.on_position_update(&position).is_empty());
    assert_eq!(strategy.current_inventory.raw(), md("7").raw());
    let other = Position { symbol: "BTC".to_string(), size: md("9"), ..position.clone() };
    let _ = strategy.on_position_update(&other);
    assert_eq!(strategy.current_inventory.raw(), md("7").raw());
    // an inventory that no decimal holds is not taken
    strategy.current_inventory = md("10000000000");
    let _ = strategy.on_fill(&buy);
    assert_eq!(strategy.current_inventory.raw(), md("10000000000").raw());
}

#[test]
fn strategy_answers_market_data_through_the_trait() {
    let mut strategy = MarketMakingStrategy::new(MarketMakingConfig::default());
    let actions = strategy.on_market_data(&book("99.9", "100.1"));
    assert_eq!(actions.len(), 6);
    assert!(strategy.on_market_data(&book("99.9", "100.1")).is_empty());
    let again = strategy.generate_actions_sync(&book("99.9", "100.1"));
    assert!(again.is_empty());
}

#[test]
fn quotes_are_the_formula_to_the_last_place() {
    let strategy = MarketMakingStrategy::new_at(MarketMakingConfig::default(), 0);
    // the stated example: rates 5 and 20, fair 100, inventory 1, factor 0.1
    let mut config = MarketMakingConfig::default();
    config.spread_bps = 5;
    config.min_edge_bps = 20;
    let mut stated = MarketMakingStrategy::new_at(config, 0);
    stated.current_inventory = md("1");
    assert_eq!(stated.calculate_spread(md("100")).map(held), Some(stood("0.3")));
    // 20 basis points of 0.00001 are 0.00000002: a rung is 0.000000005
    assert_eq!(strategy.calculate_spread(md("0.00001")).map(held), Some(stood("0.00000002")));
    let actions = strategy.generate_orders(md("0.00001"));
    assert_eq!(prices(&actions, Side::Buy), all(&["0.00000999", "0.000009985", "0.00000998"]));
    assert_eq!(prices(&actions, Side::Sell), all(&["0.00001001", "0.000010015", "0.00001002"]));
    // 20 basis points of 0.00000001 are 0.00000000002
    assert_eq!(
        strategy.calculate_spread(md("0.00000001")).map(held),
        Some(stood("0.00000000002"))
    );
    let tiny = strategy.generate_orders(md("0.00000001"));
    assert_eq!(
        prices(&tiny, Side::Buy),
        all(&["0.00000000999", "0.000000009985", "0.00000000998"])
    );
    // a fair price with a place in the eighth
    assert_eq!(
        strategy.calculate_spread(md("100.00000001")).map(held),
        Some(stood("0.20000000002"))
    );
    // an everyday fair price of five places: the rung has nine
    assert_eq!(strategy.calculate_spread(md("100.12345")).map(held), Some(stood("0.2002469")));
    let everyday = strategy.generate_orders(md("100.12345"));
    assert_eq!(
        prices(&everyday, Side::Buy),
        all(&["100.02332655", "99.973264825", "99.9232031"])
    );
    assert_eq!(
        prices(&everyday, Side::Sell),
        all(&["100.22357345", "100.273635175", "100.3236969"])
    );
    // a book whose best prices use the eighth place
    let quoted = strategy.generate_actions_at(&book("99.00000001", "101.00000001"), 10_000_000);
    assert_eq!(quoted.len(), 6);
    assert_eq!(
        prices(&quoted, Side::Buy),
        all(&["99.90000000999", "99.850000009985", "99.80000000998"])
    );
    // an inventory shift with places beyond the eighth
    let mut leaning = MarketMakingStrategy::new_at(MarketMakingConfig::default(), 0);
    leaning.current_inventory = md("0.00000001");
    assert_eq!(leaning.calculate_spread(md("100")).map(held), Some(stood("0.200000001")));
    let shifted = leaning.generate_orders(md("100"));
    assert_eq!(
        prices(&shifted, Side::Buy),
        all(&["99.8999999985", "99.84999999825", "99.799999998"])
    );
    // every price is held with eighteen places, the spread with sixteen
    let price = shifted[0].order.as_ref().expect("an order").price;
    assert_eq!((price.mantissa(), price.scale()), (99_899_999_998_500_000_000, 18));
    let spread = leaning.calculate_spread(md("100")).expect("a spread");
    assert_eq!((spread.mantissa(), spread.scale()), (2_000_000_010_000_000, 16));
    // the ladder is the same whether the decimal crate computes it
    for (fair, inventory) in [("100.12345", "0.3"), ("0.5", "-7.25"), ("31415.92653589", "1")] {
        let mut s = MarketMakingStrategy::new_at(MarketMakingConfig::default(), 0);
        s.current_inventory = md(inventory);
        let skew = stood(inventory) * stood("0.1");
        let spread = stood("20") * stood(fair) / stood("10000") + skew.abs();
        let ladder = s.generate_orders(md(fair));
        let bids = prices(&ladder, Side::Buy);
        let asks = prices(&ladder, Side::Sell);
        for i in 0..3 {
            let steps = rust_decimal::Decimal::from(i as u32) * (spread / stood("4"));
            assert_eq!(bids[i], stood(fair) - spread / stood("2") - skew - steps);
            assert_eq!(asks[i], stood(fair) + spread / stood("2") - skew + steps);
        }
    }
}
