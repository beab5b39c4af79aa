use hyper_liquid_connector::model::hl_msgs::{OrderBookData, PriceLevel, TobMsg};
use hyper_liquid_connector::numeric::decimal::{Decimal, Digits};
use hyper_liquid_connector::trading::order_book::OrderBook;

fn lv(px: &str, sz: &str) -> PriceLevel {
    PriceLevel { px: px.to_string(), sz: sz.to_string(), n: 1 }
}

fn snapshot(bids: Vec<PriceLevel>, asks: Vec<PriceLevel>) -> OrderBookData {
    OrderBookData { coin: "HYPE".to_string(), time: 1_700_000_000_000, levels: vec![bids, asks] }
}

fn held(d: Option<Digits>) -> Option<rust_decimal::Decimal> {
    d.map(|d| rust_decimal::Decimal::from_i128_with_scale(d.mantissa(), d.scale()))
}

fn stood(text: &str) -> rust_decimal::Decimal {
    text.parse().expect("a decimal")
}

fn raw(text: &str) -> i64 {
    Decimal::from_str(text).expect("a decimal").raw()
}

fn raws(levels: &[(Decimal, Decimal)]) -> Vec<(i64, i64)> {
    levels.iter().map(|l| (l.0.raw(), l.1.raw())).collect()
}

#[test]
fn order_book_starts_empty() {
    let book = OrderBook::new_at("HYPE".to_string(), 42);
    assert_eq!(book.symbol().as_str(), "HYPE");
    assert_eq!(book.sequence(), 0);
    assert_eq!(book.last_update(), 42);
    assert!(book.best_bid().is_none());
    assert!(book.best_ask().is_none());
    assert!(book.mid_price().is_none());
    assert!(book.spread().is_none());
    assert!(book.spread_bps().is_none());
    assert!(book.volume_weighted_mid(5).is_none());
    let (bids, asks) = book.get_depth(3);
    assert!(bids.is_empty() && asks.is_empty());
}

#[test]
fn order_book_orders_levels_best_first() {
    let mut book = OrderBook::new_at("HYPE".to_string(), 0);
    let data = snapshot(
        vec![lv("99.5", "2"), lv("99.9", "1"), lv("99.7", "3")],
        vec![lv("100.3", "2"), lv("100.1", "1"), lv("100.2", "4")],
    );
    book.update_from_tob_at(&data, 7);
    assert_eq!(book.sequence(), 1);
    assert_eq!(book.last_update(), 7);
    let (bids, asks) = book.get_depth(10);
    assert_eq!(
        raws(&bids),
        vec![(raw("99.9"), raw("1")), (raw("99.7"), raw("3")), (raw("99.5"), raw("2"))]
    );
    assert_eq!(
        raws(&asks),
        vec![(raw("100.1"), raw("1")), (raw("100.2"), raw("4")), (raw("100.3"), raw("2"))]
    );
    assert_eq!(book.best_bid().map(|l| l.0.raw()), Some(raw("99.9")));
    assert_eq!(book.best_ask().map(|l| l.0.raw()), Some(raw("100.1")));
    let (top_bids, top_asks) = book.get_depth(2);
    assert_eq!(top_bids.len(), 2);
    assert_eq!(top_asks.len(), 2);
    assert_eq!(top_bids[1].0.raw(), raw("99.7"));
}

#[test]
fn order_book_derives_fair_price_and_spread() {
    let mut book = OrderBook::new_at("HYPE".to_string(), 0);
    book.update_from_tob_at(&snapshot(vec![lv("99.9", "1")], vec![lv("100.1", "1")]), 1);
    assert_eq!(book.mid_price().map(|d| d.raw()), Some(raw("100")));
    assert_eq!(book.spread().map(|d| d.raw()), Some(raw("0.2")));
    // 0.2 / 100 * 10000 = 20 basis points
    assert_eq!(held(book.spread_bps()), Some(stood("20")));
    // a spread of a third of the fair price is a third to the last place
    book.update_from_tob_at(&snapshot(vec![lv("2.5", "1")], vec![lv("3.5", "1")]), 2);
    assert_eq!(held(book.spread_bps()), Some(stood("1") / stood("3") * stood("10000")));
    // the ninth place of a fair price is cut off
    book.update_from_tob_at(&snapshot(vec![lv("0.00000001", "1")], vec![lv("0.00000002", "1")]), 3);
    assert_eq!(book.mid_price().map(|d| d.raw()), Some(1));
    assert_eq!(book.spread().map(|d| d.raw()), Some(1));
    assert_eq!(held(book.spread_bps()), Some(stood("10000")));
    book.update_from_tob_at(
        &snapshot(vec![lv("99.00000001", "1")], vec![lv("101.00000002", "1")]),
        4,
    );
    assert_eq!(book.mid_price().map(|d| d.raw()), Some(raw("100.00000001")));
}

#[test]
fn order_book_spread_bps_is_zero_without_positive_mid() {
    let mut book = OrderBook::new_at("HYPE".to_string(), 0);
    book.update_from_tob_at(&snapshot(vec![lv("-1", "1")], vec![lv("1", "1")]), 1);
    assert_eq!(book.mid_price().map(|d| d.raw()), Some(0));
    assert_eq!(held(book.spread_bps()), Some(stood("0")));
}

#[test]
fn order_book_volume_weighted_mid() {
    let mut book = OrderBook::new_at("HYPE".to_string(), 0);
    book.update_from_tob_at(
        &snapshot(
            vec![lv("100", "1"), lv("98", "3")],
            vec![lv("102", "1"), lv("104", "1")],
        ),
        1,
    );
    // bids: (100*1 + 98*3) / 4 = 98.5; asks: (102 + 104) / 2 = 103; mid = 100.75
    assert_eq!(held(book.volume_weighted_mid(2)), Some(stood("100.75")));
    // depth 1: (100 + 102) / 2 = 101
    assert_eq!(held(book.volume_weighted_mid(1)), Some(stood("101")));
    // depth 0: no volume
    assert!(book.volume_weighted_mid(0).is_none());
    // depth beyond the book: all levels
    assert_eq!(held(book.volume_weighted_mid(50)), Some(stood("100.75")));
    // averages that do not end: (100 + 98 * 2) / 3 and (102 + 104 * 2) / 3
    book.update_from_tob_at(
        &snapshot(
            vec![lv("100", "1"), lv("98", "2")],
            vec![lv("102", "1"), lv("104", "2")],
        ),
        2,
    );
    let bid = stood("296") / stood("3");
    let ask = stood("310") / stood("3");
    assert_eq!(held(book.volume_weighted_mid(2)), Some((bid + ask) / stood("2")));
}

#[test]
fn order_book_skips_unreadable_levels_and_replaces_repeated_prices() {
    let mut book = OrderBook::new_at("HYPE".to_string(), 0);
    book.update_from_tob_at(
        &snapshot(
            vec![lv("99", "1"), lv("oops", "1"), lv("98", "x"), lv("99", "5")],
            vec![lv("101", "2")],
        ),
        1,
    );
    let (bids, asks) = book.get_depth(10);
    assert_eq!(raws(&bids), vec![(raw("99"), raw("5"))]);
    assert_eq!(raws(&asks), vec![(raw("101"), raw("2"))]);
}

#[test]
fn order_book_update_replaces_both_ladders() {
    let mut book = OrderBook::new_at("HYPE".to_string(), 0);
    book.update_from_tob_at(&snapshot(vec![lv("99", "1")], vec![lv("101", "2")]), 1);
    let only_bids =
        OrderBookData { coin: "HYPE".to_string(), time: 5, levels: vec![vec![lv("98", "1")]] };
    book.update_from_tob_at(&only_bids, 2);
    assert_eq!(book.sequence(), 2);
    assert_eq!(book.best_bid().map(|l| l.0.raw()), Some(raw("98")));
    assert!(book.best_ask().is_none());
    let empty = OrderBookData { coin: "HYPE".to_string(), time: 6, levels: vec![] };
    book.update_from_tob(&empty);
    assert_eq!(book.sequence(), 3);
    assert!(book.best_bid().is_none());
    let copy = book.clone();
    assert_eq!(copy.sequence(), 3);
    assert_eq!(copy.symbol().as_str(), "HYPE");
}

#[test]
fn order_book_reads_levels_of_more_than_eight_places() {
    let mut book = OrderBook::new_at("HYPE".to_string(), 0);
    book.update_from_tob_at(
        &snapshot(
            vec![lv("99.123456789", "1.000000001"), lv("no price", "1")],
            vec![lv("100.999999999", "2"), lv("101", "x")],
        ),
        1,
    );
    let (bids, asks) = book.get_depth(10);
    assert_eq!(raws(&bids), vec![(raw("99.12345678"), raw("1"))]);
    assert_eq!(raws(&asks), vec![(raw("100.99999999"), raw("2"))]);
}

#[test]
fn order_book_levels_are_set_in_price_order() {
    let d = |text: &str| Decimal::from_str(text).expect("a decimal");
    let mut book = OrderBook::new_at("HYPE".to_string(), 7);
    book.set_bid(d("99"), d("1"));
    book.set_bid(d("101"), d("2"));
    book.set_bid(d("100"), d("3"));
    book.set_ask(d("105"), d("1"));
    book.set_ask(d("103"), d("2"));
    book.set_ask(d("104"), d("3"));
    let (bids, asks) = book.get_depth(10);
    assert_eq!(raws(&bids), vec![(raw("101"), raw("2")), (raw("100"), raw("3")), (raw("99"), raw("1"))]);
    assert_eq!(raws(&asks), vec![(raw("103"), raw("2")), (raw("104"), raw("3")), (raw("105"), raw("1"))]);
    // a price that is on the ladder has its size replaced
    book.set_bid(d("100"), d("9"));
    book.set_ask(d("103"), d("0.5"));
    let (bids, asks) = book.get_depth(10);
    assert_eq!(raws(&bids), vec![(raw("101"), raw("2")), (raw("100"), raw("9")), (raw("99"), raw("1"))]);
    assert_eq!(raws(&asks), vec![(raw("103"), raw("0.5")), (raw("104"), raw("3")), (raw("105"), raw("1"))]);
    assert_eq!(book.best_bid().map(|l| l.0.raw()), Some(raw("101")));
    assert_eq!(book.best_ask().map(|l| l.0.raw()), Some(raw("103")));
    assert_eq!(book.mid_price().map(|m| m.raw()), Some(raw("102")));
    assert_eq!(book.sequence(), 0);
    assert_eq!(book.last_update(), 7);
}

#[test]
fn order_book_data_top_of_book_and_identity() {
    let data = snapshot(vec![lv("99.9", "1"), lv("99.8", "2")], vec![lv("100.1", "3")]);
    let (bid, ask) = data.top_of_book().expect("both sides have a level");
    assert_eq!(bid.px, "99.9");
    assert_eq!(ask.px, "100.1");
    assert_eq!(
        data.generate_id(),
        "1700000000000Some((PriceLevel { px: \"99.9\", sz: \"1\", n: 1 }, \
         PriceLevel { px: \"100.1\", sz: \"3\", n: 1 }))"
    );
    assert_eq!(data.generate_id(), format!("{}{:?}", data.time, data.top_of_book()));
    let odd = snapshot(vec![lv("9\"9", "a\\b")], vec![lv("\n", "é")]);
    assert_eq!(odd.generate_id(), format!("{}{:?}", odd.time, odd.top_of_book()));
    let mut other_coin = snapshot(vec![lv("99.9", "1"), lv("5", "5")], vec![lv("100.1", "3")]);
    other_coin.coin = "BTC".to_string();
    assert_eq!(other_coin.generate_id(), data.generate_id());
    let one_sided = OrderBookData { coin: "HYPE".to_string(), time: 12, levels: vec![vec![lv("1", "1")]] };
    assert!(one_sided.top_of_book().is_none());
    assert_eq!(one_sided.generate_id(), "12None");
    let no_asks = snapshot(vec![lv("1", "1")], vec![]);
    assert!(no_asks.top_of_book().is_none());
    let zero = OrderBookData { coin: "HYPE".to_string(), time: 0, levels: vec![] };
    assert_eq!(zero.generate_id(), "0None");
    let answer = OrderBookData { coin: "HYPE".to_string(), time: 42, levels: vec![] };
    assert_eq!(answer.generate_id(), "42None");
    let msg = TobMsg { channel: "l2Book".to_string(), data };
    let copy = msg.clone();
    assert_eq!(copy.channel, "l2Book");
    assert_eq!(copy.data.levels.len(), 2);
    assert_eq!(copy.data.levels[0][1].px, "99.8");
    assert_eq!(copy.data.generate_id(), msg.data.generate_id());
}
