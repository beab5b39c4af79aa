//! The quote generator: a two-sided ladder of limit orders around the fair
//! price, widened and shifted by the inventory held.

use crate::clock::utc_now_millis;
use crate::datastructures::id_map::IdMap;
use crate::datastructures::symbol_map::same_text;
use crate::numeric::decimal::{
    abs_int, decimal_in_range, digits_ok, mul_wide, Decimal, DECIMAL_SCALE, Digits,
    MANTISSA_LIMIT,
};
use crate::strategies::base_strategy::{StrategyConfig, TradingStrategy};
use crate::trading::order_book::{mid_of, OrderBook};
use crate::trading::types::{
    actions_view, cancel_view, place_view, Fill, NewOrder, NewOrderView, Order, OrderAction,
    OrderActionView, OrderStatus, OrderType, Position, Side,
};
use crate::utils::text::{digits_of, join, u64_to_text};
use vstd::prelude::*;

verus! {

/// Milliseconds in an hour: a new strategy counts its last refresh as an
/// hour past, so that its first market data make it quote.
pub const HOUR_MILLIS: i64 = 3_600_000;

/// A move of the fair price by more than one part in this many, measured
/// on the last quoted price, makes the strategy quote anew.
pub const MOVE_THRESHOLD_DIVISOR: i128 = 1000;

#[derive(Debug)]
pub struct MarketMakingConfig {
    pub base_config: StrategyConfig,
    /// The spread quoted, in basis points of the fair price.
    pub spread_bps: u32,
    /// The size of each order.
    pub order_size: Decimal,
    /// How many orders the ladder has on each side.
    pub max_orders_per_side: usize,
    /// The inventory aimed at.
    pub inventory_target: Decimal,
    /// By how much of a price unit each unit of inventory shifts the quotes.
    pub inventory_skew_factor: Decimal,
    /// The least spread quoted, in basis points of the fair price.
    pub min_edge_bps: u32,
    /// After how many milliseconds the quotes are refreshed.
    pub order_refresh_interval_ms: u64,
}

impl Clone for MarketMakingConfig {
    fn clone(&self) -> (r: Self)
        ensures
            r == *self,
    {
        MarketMakingConfig {
            base_config: self.base_config.clone(),
            spread_bps: self.spread_bps,
            order_size: self.order_size,
            max_orders_per_side: self.max_orders_per_side,
            inventory_target: self.inventory_target,
            inventory_skew_factor: self.inventory_skew_factor,
            min_edge_bps: self.min_edge_bps,
            order_refresh_interval_ms: self.order_refresh_interval_ms,
        }
    }
}

impl Default for MarketMakingConfig {
    fn default() -> (r: Self)
        ensures
            r.spread_bps == 20,
            r.order_size@ == DECIMAL_SCALE,
            r.max_orders_per_side == 3,
            r.inventory_target@ == 0,
            r.inventory_skew_factor@ == 10_000_000,
            r.min_edge_bps == 5,
            r.order_refresh_interval_ms == 1000,
            r.base_config.symbol@ == "HYPE"@,
    {
        let tenth = match Decimal::from_raw(10_000_000) {
            Some(d) => d,
            None => Decimal::zero(),
        };
        MarketMakingConfig {
            base_config: StrategyConfig::default(),
            spread_bps: 20,
            order_size: Decimal::from_int(1),
            max_orders_per_side: 3,
            inventory_target: Decimal::zero(),
            inventory_skew_factor: tenth,
            min_edge_bps: 5,
            order_refresh_interval_ms: 1000,
        }
    }
}

/// The numbers that a ladder is built from, in raw `Decimal` units: units
/// of the eighth place.
pub struct QuoteTerms {
    pub fair: int,
    pub inventory: int,
    pub skew_factor: int,
    pub spread_bps: int,
    pub min_edge_bps: int,
}

pub open spec fn max_int(a: int, b: int) -> int {
    if a >= b {
        a
    } else {
        b
    }
}

/// By how much the inventory shifts the quotes: inventory times the skew
/// factor, in units of the sixteenth place.
pub open spec fn inventory_skew(t: QuoteTerms) -> int {
    t.inventory * t.skew_factor
}

/// The spread quoted, in units of the sixteenth place: the larger of the
/// spread and the least edge, in basis points of the fair price, and on
/// top the inventory shift in magnitude. Nothing of it is rounded: a
/// basis point of a unit of the eighth place is a unit of the twelfth.
pub open spec fn quoted_spread(t: QuoteTerms) -> int {
    t.fair * max_int(t.spread_bps, t.min_edge_bps) * 10000 + abs_int(inventory_skew(t))
}

/// The distance between two rungs of the ladder, in units of the
/// eighteenth place: a quarter of the spread.
pub open spec fn rung(t: QuoteTerms) -> int {
    quoted_spread(t) * 25
}

/// The price of the bid on rung `i`, in units of the eighteenth place:
/// the fair price less half the spread, less the inventory shift, less
/// `i` rungs.
pub open spec fn bid_price(t: QuoteTerms, i: int) -> int {
    t.fair * 10_000_000_000 - quoted_spread(t) * 50 - inventory_skew(t) * 100 - i * rung(t)
}

/// The price of the ask on rung `i`, in units of the eighteenth place:
/// the fair price plus half the spread, less the inventory shift, plus
/// `i` rungs.
pub open spec fn ask_price(t: QuoteTerms, i: int) -> int {
    t.fair * 10_000_000_000 + quoted_spread(t) * 50 - inventory_skew(t) * 100 + i * rung(t)
}

/// Every number of a ladder of `depth` rungs is within the range of the
/// numbers that prices are held in.
pub open spec fn ladder_fits(t: QuoteTerms, depth: int) -> bool {
    &&& digits_ok(quoted_spread(t), 16)
    &&& forall|i: int|
        0 <= i < depth ==> digits_ok(#[trigger] bid_price(t, i), 18) && digits_ok(
            ask_price(t, i),
            18,
        )
}

/// The tag of the order on rung `i` of a side.
pub open spec fn rung_tag(prefix: Seq<char>, i: int) -> Seq<char> {
    prefix + digits_of(i as nat)
}

pub open spec fn bid_view(symbol: Seq<char>, size: int, t: QuoteTerms, i: int) -> OrderActionView {
    place_view(
        NewOrderView {
            symbol,
            side: Side::Buy,
            order_type: OrderType::Limit,
            price: (bid_price(t, i), 18nat),
            size,
            client_id: Some(rung_tag("mm_buy_"@, i)),
        },
    )
}

pub open spec fn ask_view(symbol: Seq<char>, size: int, t: QuoteTerms, i: int) -> OrderActionView {
    place_view(
        NewOrderView {
            symbol,
            side: Side::Sell,
            order_type: OrderType::Limit,
            price: (ask_price(t, i), 18nat),
            size,
            client_id: Some(rung_tag("mm_sell_"@, i)),
        },
    )
}

/// The ladder: `depth` bids, best first, then `depth` asks, best first,
/// all of one size.
pub open spec fn ladder_view(symbol: Seq<char>, size: int, t: QuoteTerms, depth: int) -> Seq<
    OrderActionView,
> {
    Seq::new(
        (2 * depth) as nat,
        |k: int|
            if k < depth {
                bid_view(symbol, size, t, k)
            } else {
                ask_view(symbol, size, t, k - depth)
            },
    )
}

/// One cancel for each tracked order, in the order in which they are tracked.
pub open spec fn cancels_view(ids: Seq<u128>) -> Seq<OrderActionView> {
    Seq::new(ids.len(), |i: int| cancel_view(ids[i]))
}

/// Whether the fair price has moved by more than one part in a thousand of
/// the last quoted price.
pub open spec fn has_moved(current: int, last: int) -> bool {
    abs_int(current - last) * 1000 > abs_int(last)
}

/// The law of the ladder: around a fair price above nothing, at a spread
/// above nothing, a rung has a width, the bids fall and the asks rise by
/// one rung from each to the next, a rung is a quarter of the spread, and
/// the best ask is above the best bid by the spread. (The spread counts
/// units of the sixteenth place and the prices units of the eighteenth:
/// a hundred of these make one of those.)
pub proof fn lemma_ladder_is_monotonic(t: QuoteTerms, i: int, j: int)
    requires
        0 <= i < j,
        t.fair > 0,
        max_int(t.spread_bps, t.min_edge_bps) > 0,
    ensures
        quoted_spread(t) > 0,
        4 * rung(t) == quoted_spread(t) * 100,
        rung(t) > 0,
        bid_price(t, j) < bid_price(t, i),
        ask_price(t, j) > ask_price(t, i),
        bid_price(t, i) - bid_price(t, j) == (j - i) * rung(t),
        ask_price(t, j) - ask_price(t, i) == (j - i) * rung(t),
        ask_price(t, 0) - bid_price(t, 0) == quoted_spread(t) * 100,
        bid_price(t, 0) + ask_price(t, 0) == 2 * (t.fair * 10_000_000_000 - inventory_skew(t) * 100),
{
    let share = t.fair * max_int(t.spread_bps, t.min_edge_bps);
    assert(share > 0) by (nonlinear_arith)
        requires
            share == t.fair * max_int(t.spread_bps, t.min_edge_bps),
            t.fair > 0,
            max_int(t.spread_bps, t.min_edge_bps) > 0,
    ;
    let r = rung(t);
    assert(i * r < j * r) by (nonlinear_arith)
        requires
            i < j,
            r > 0,
    ;
    assert((j - i) * r == j * r - i * r) by (nonlinear_arith);
    assert(0 * r == 0);
}

/// The ladder has as many bids as asks, `depth` of each, all places of the
/// one size for the one symbol.
pub proof fn lemma_ladder_shape(symbol: Seq<char>, size: int, t: QuoteTerms, depth: int, k: int)
    requires
        0 <= k < 2 * depth,
    ensures
        ladder_view(symbol, size, t, depth).len() == 2 * depth,
        ladder_view(symbol, size, t, depth)[k].action_type is Place,
        ladder_view(symbol, size, t, depth)[k].order matches Some(o) && o.size == size && o.symbol
            == symbol && (o.side is Buy <==> k < depth),
{
}

/// The time an hour before `now`, or the first time there is.
pub open spec fn hour_before(now: i64) -> i64 {
    if now - HOUR_MILLIS >= i64::MIN {
        (now - HOUR_MILLIS) as i64
    } else {
        i64::MIN
    }
}

/// What the orders tracked are after an order update: an order that works
/// at the exchange is tracked, one that has come to its end is tracked no
/// more, and one that is pending changes nothing.
pub open spec fn tracked_after(before: IdMap<Order>, after: IdMap<Order>, order: Order) -> bool {
    match order.status {
        OrderStatus::Submitted | OrderStatus::PartiallyFilled => after.is_insert_of(
            &before,
            order.id,
            order,
        ),
        OrderStatus::Filled | OrderStatus::Cancelled | OrderStatus::Rejected => after.is_removal_of(
            &before,
            order.id,
        ),
        OrderStatus::Pending => after == before,
    }
}

/// The inventory after a fill: its size more for a buy, its size less for
/// a sell; unchanged where no `Decimal` holds the sum.
pub open spec fn inventory_after(inventory: int, fill: Fill) -> int {
    let sum = match fill.side {
        Side::Buy => inventory + fill.size@,
        Side::Sell => inventory - fill.size@,
    };
    if decimal_in_range(sum) {
        sum
    } else {
        inventory
    }
}

pub struct MarketMakingStrategy {
    pub config: MarketMakingConfig,
    pub active_orders: IdMap<Order>,
    pub last_order_time: i64,
    pub last_price: Option<Decimal>,
    pub current_inventory: Decimal,
    pub enabled: bool,
}

impl MarketMakingStrategy {
    /// The numbers of a ladder around the fair price `fair`.
    pub open spec fn terms(&self, fair: int) -> QuoteTerms {
        QuoteTerms {
            fair,
            inventory: self.current_inventory@,
            skew_factor: self.config.inventory_skew_factor@,
            spread_bps: self.config.spread_bps as int,
            min_edge_bps: self.config.min_edge_bps as int,
        }
    }

    /// Whether the quotes are due for a refresh at the time `now`: the
    /// refresh interval has passed since the last, or the fair price has
    /// moved since it was last quoted.
    pub open spec fn refresh_due(&self, current: int, now: i64) -> bool {
        ||| now - self.last_order_time > self.config.order_refresh_interval_ms
        ||| self.last_price matches Some(last) && has_moved(current, last@)
    }

    /// What the strategy wants done on a book whose fair price is `fair`,
    /// at the time `now`: nothing where it is disabled, where the book has
    /// no fair price, where no refresh is due or where a number of the
    /// ladder is out of range; otherwise a cancel for each tracked order,
    /// then the ladder.
    pub open spec fn wanted(&self, fair: Option<int>, now: i64) -> Seq<OrderActionView> {
        match fair {
            Some(f) => if self.enabled && self.refresh_due(f, now) && ladder_fits(
                self.terms(f),
                self.config.max_orders_per_side as int,
            ) {
                cancels_view(self.active_orders.keys_view()) + ladder_view(
                    self.config.base_config.symbol@,
                    self.config.order_size@,
                    self.terms(f),
                    self.config.max_orders_per_side as int,
                )
            } else {
                Seq::empty()
            },
            None => Seq::empty(),
        }
    }

    /// Whether the strategy quotes on a book whose fair price is `fair` at
    /// the time `now`.
    pub open spec fn quotes(&self, fair: Option<int>, now: i64) -> bool {
        fair matches Some(f) && self.enabled && self.refresh_due(f, now) && ladder_fits(
            self.terms(f),
            self.config.max_orders_per_side as int,
        )
    }

    /// What the strategy notes of a book whose fair price is `fair` at the
    /// time `now`: where it quotes, the fair price as last quoted and
    /// `now` as the time of its last refresh; otherwise what it had noted.
    pub open spec fn quoted_at(
        &self,
        fair: Option<int>,
        now: i64,
        last_price: Option<Decimal>,
        last_order_time: i64,
    ) -> bool {
        if self.quotes(fair, now) {
            last_price matches Some(p) && Some(p@) == fair && last_order_time == now
        } else {
            last_price == self.last_price && last_order_time == self.last_order_time
        }
    }

    /// A strategy that tracks no orders and holds no inventory, enabled,
    /// its last refresh counted as an hour before `now`.
    pub fn new_at(config: MarketMakingConfig, now: i64) -> (r: Self)
        ensures
            r.config == config,
            r.active_orders.spec_len() == 0,
            r.last_order_time == hour_before(now),
            r.last_price is None,
            r.current_inventory@ == 0,
            r.enabled,
    {
        let start = if now >= i64::MIN + HOUR_MILLIS {
            now - HOUR_MILLIS
        } else {
            i64::MIN
        };
        MarketMakingStrategy {
            config,
            active_orders: IdMap::new(),
            last_order_time: start,
            last_price: None,
            current_inventory: Decimal::zero(),
            enabled: true,
        }
    }

    /// A strategy that tracks no orders and holds no inventory, enabled, its
    /// last refresh counted as an hour ago.
    pub fn new(config: MarketMakingConfig) -> (r: Self)
        ensures
            r.config == config,
            r.active_orders.spec_len() == 0,
            r.last_price is None,
            r.current_inventory@ == 0,
            r.enabled,
            exists|now: i64| r.last_order_time == #[trigger] hour_before(now),
    {
        Self::new_at(config, utc_now_millis())
    }

    /// Whether the quotes are due for a refresh at the time `now`, the fair
    /// price being `current_price`.
    pub fn should_refresh_orders_at(&self, current_price: Decimal, now: i64) -> (r: bool)
        ensures
            r == self.refresh_due(current_price@, now),
    {
        let elapsed = (now as i128) - (self.last_order_time as i128);
        if elapsed > self.config.order_refresh_interval_ms as i128 {
            return true;
        }
        match self.last_price {
            Some(last) => {
                let current = current_price.raw() as i128;
                let before = last.raw() as i128;
                let diff = current - before;
                let moved = if diff < 0 {
                    -diff
                } else {
                    diff
                };
                let base = if before < 0 {
                    -before
                } else {
                    before
                };
                moved * 1000 > base
            },
            None => false,
        }
    }

    /// The fair price of a book: halfway between its best bid and its best ask.
    pub fn calculate_fair_price(&self, order_book: &OrderBook) -> (r: Option<Decimal>)
        ensures
            crate::numeric::decimal::decimal_units(r) == mid_of(
                order_book.bids_view(),
                order_book.asks_view(),
            ),
    {
        order_book.mid_price()
    }

    fn skew_units(&self) -> (r: i128)
        ensures
            r == self.current_inventory@ * self.config.inventory_skew_factor@,
            -1_000_000_000_000_000_000_000_000_000_000_000_000 <= r
                <= 1_000_000_000_000_000_000_000_000_000_000_000_000,
    {
        let a = self.current_inventory.raw() as i128;
        let b = self.config.inventory_skew_factor.raw() as i128;
        assert(-1_000_000_000_000_000_000 * 1_000_000_000_000_000_000 <= a * b
            <= 1_000_000_000_000_000_000 * 1_000_000_000_000_000_000) by (nonlinear_arith)
            requires
                -1_000_000_000_000_000_000 <= a <= 1_000_000_000_000_000_000,
                -1_000_000_000_000_000_000 <= b <= 1_000_000_000_000_000_000,
        ;
        a * b
    }

    fn spread_units(&self, fair: &Decimal) -> (r: i128)
        ensures
            r == quoted_spread(self.terms(fair@)),
            -2_000_000_000_000_000_000_000_000_000_000_000_000 <= r
                <= 2_000_000_000_000_000_000_000_000_000_000_000_000,
    {
        let bps = if self.config.spread_bps >= self.config.min_edge_bps {
            self.config.spread_bps
        } else {
            self.config.min_edge_bps
        };
        let price = fair.raw() as i128;
        let rate = bps as i128;
        let share = mul_wide(price, rate);
        assert(-4_294_967_295 * 1_000_000_000_000_000_000 <= share <= 4_294_967_295
            * 1_000_000_000_000_000_000) by (nonlinear_arith)
            requires
                share == price * rate,
                -1_000_000_000_000_000_000 <= price <= 1_000_000_000_000_000_000,
                0 <= rate <= 4_294_967_295,
        ;
        let skew = self.skew_units();
        let lean = if skew < 0 {
            -skew
        } else {
            skew
        };
        share * 10000 + lean
    }

    /// The spread to quote around a fair price: the larger of the spread
    /// and the least edge, in basis points of the fair price, and the
    /// inventory shift in magnitude on top, to the last of its sixteen
    /// places. `None` only where the spread is out of range.
    pub fn calculate_spread(&self, fair_price: Decimal) -> (r: Option<Digits>)
        ensures
            match r {
                Some(spread) => spread@ == (quoted_spread(self.terms(fair_price@)), 16nat),
                None => !digits_ok(quoted_spread(self.terms(fair_price@)), 16),
            },
    {
        Digits::new(self.spread_units(&fair_price), 16)
    }

    /// The ladder around a fair price, where every number of it is in
    /// range.
    fn build_ladder(&self, fair_price: Decimal) -> (r: Option<Vec<OrderAction>>)
        ensures
            r is Some <==> ladder_fits(
                self.terms(fair_price@),
                self.config.max_orders_per_side as int,
            ),
            r matches Some(actions) ==> actions_view(actions@) == ladder_view(
                self.config.base_config.symbol@,
                self.config.order_size@,
                self.terms(fair_price@),
                self.config.max_orders_per_side as int,
            ),
    {
        let ghost t = self.terms(fair_price@);
        let ghost symbol = self.config.base_config.symbol@;
        let ghost size = self.config.order_size@;
        let depth = self.config.max_orders_per_side;
        let mut actions: Vec<OrderAction> = Vec::new();
        let spread = self.spread_units(&fair_price);
        if spread <= -MANTISSA_LIMIT || spread >= MANTISSA_LIMIT {
            return None;
        }
        let skew = self.skew_units();
        let step = spread * 25;
        let middle = (fair_price.raw() as i128) * 10_000_000_000 - skew * 100;
        let mut bid = middle - spread * 50;
        let mut ask = middle + spread * 50;
        assert(bid == bid_price(t, 0) && ask == ask_price(t, 0) && step == rung(t)) by {
            assert(0 * rung(t) == 0);
        }
        let mut i: usize = 0;
        assert(actions_view(actions@) =~= ladder_view(symbol, size, t, depth as int).take(0));
        while i < depth
            invariant
                i <= depth,
                depth == self.config.max_orders_per_side,
                t == self.terms(fair_price@),
                symbol == self.config.base_config.symbol@,
                size == self.config.order_size@,
                step == rung(t),
                -25 * MANTISSA_LIMIT < step < 25 * MANTISSA_LIMIT,
                bid == bid_price(t, i as int),
                -110_000_000_000_000_000_000_000_000_000_000_000_000 <= bid
                    <= 110_000_000_000_000_000_000_000_000_000_000_000_000,
                digits_ok(quoted_spread(t), 16),
                forall|k: int| 0 <= k < i ==> digits_ok(#[trigger] bid_price(t, k), 18),
                actions_view(actions@) == ladder_view(symbol, size, t, depth as int).take(
                    i as int,
                ),
            decreases depth - i,
        {
            let price = match Digits::new(bid, 18) {
                Some(p) => p,
                None => {
                    assert(!digits_ok(bid_price(t, i as int), 18));
                    return None;
                },
            };
            let tag = join("mm_buy_", u64_to_text(i as u64).as_str());
            let order = NewOrder {
                symbol: self.config.base_config.symbol.clone(),
                side: Side::Buy,
                order_type: OrderType::Limit,
                price,
                size: self.config.order_size,
                client_id: Some(tag),
            };
            let action = OrderAction::place(order);
            assert(action@ == bid_view(symbol, size, t, i as int));
            let ghost before = actions@;
            actions.push(action);
            assert(actions_view(actions@) =~= actions_view(before).push(action@));
            assert(actions_view(actions@) =~= ladder_view(symbol, size, t, depth as int).take(
                i + 1,
            ));
            assert((i + 1) * rung(t) == i * rung(t) + rung(t)) by (nonlinear_arith);
            bid = bid - step;
            i = i + 1;
        }
        let mut j: usize = 0;
        while j < depth
            invariant
                j <= depth,
                depth == self.config.max_orders_per_side,
                t == self.terms(fair_price@),
                symbol == self.config.base_config.symbol@,
                size == self.config.order_size@,
                step == rung(t),
                -25 * MANTISSA_LIMIT < step < 25 * MANTISSA_LIMIT,
                ask == ask_price(t, j as int),
                -110_000_000_000_000_000_000_000_000_000_000_000_000 <= ask
                    <= 110_000_000_000_000_000_000_000_000_000_000_000_000,
                digits_ok(quoted_spread(t), 16),
                forall|k: int| 0 <= k < depth ==> digits_ok(#[trigger] bid_price(t, k), 18),
                forall|k: int| 0 <= k < j ==> digits_ok(#[trigger] ask_price(t, k), 18),
                actions_view(actions@) == ladder_view(symbol, size, t, depth as int).take(
                    depth + j,
                ),
            decreases depth - j,
        {
            let price = match Digits::new(ask, 18) {
                Some(p) => p,
                None => {
                    assert(digits_ok(bid_price(t, j as int), 18));
                    assert(!digits_ok(ask_price(t, j as int), 18));
                    return None;
                },
            };
            let tag = join("mm_sell_", u64_to_text(j as u64).as_str());
            let order = NewOrder {
                symbol: self.config.base_config.symbol.clone(),
                side: Side::Sell,
                order_type: OrderType::Limit,
                price,
                size: self.config.order_size,
                client_id: Some(tag),
            };
            let action = OrderAction::place(order);
            assert(action@ == ask_view(symbol, size, t, j as int));
            let ghost before = actions@;
            actions.push(action);
            assert(actions_view(actions@) =~= actions_view(before).push(action@));
            assert(actions_view(actions@) =~= ladder_view(symbol, size, t, depth as int).take(
                depth + j + 1,
            ));
            assert((j + 1) * rung(t) == j * rung(t) + rung(t)) by (nonlinear_arith);
            ask = ask + step;
            j = j + 1;
        }
        assert(ladder_view(symbol, size, t, depth as int).take(depth + depth) =~= ladder_view(
            symbol,
            size,
            t,
            depth as int,
        ));
        assert forall|k: int| 0 <= k < depth implies digits_ok(#[trigger] bid_price(t, k), 18)
            && digits_ok(ask_price(t, k), 18) by {}
        Some(actions)
    }

    /// The ladder around a fair price: the bids from the best down, then
    /// the asks from the best up, each price the formula to its last
    /// place. No order at all where a number of the ladder is out of range.
    pub fn generate_orders(&self, fair_price: Decimal) -> (r: Vec<OrderAction>)
        ensures
            actions_view(r@) == if ladder_fits(
                self.terms(fair_price@),
                self.config.max_orders_per_side as int,
            ) {
                ladder_view(
                    self.config.base_config.symbol@,
                    self.config.order_size@,
                    self.terms(fair_price@),
                    self.config.max_orders_per_side as int,
                )
            } else {
                Seq::empty()
            },
    {
        match self.build_ladder(fair_price) {
            Some(actions) => actions,
            None => {
                let none: Vec<OrderAction> = Vec::new();
                assert(actions_view(none@) =~= Seq::empty());
                none
            },
        }
    }

    /// One cancel for each tracked order.
    pub fn cancel_all_orders(&self) -> (r: Vec<OrderAction>)
        ensures
            actions_view(r@) == cancels_view(self.active_orders.keys_view()),
    {
        let mut actions: Vec<OrderAction> = Vec::new();
        let n = self.active_orders.len();
        let mut i: usize = 0;
        while i < n
            invariant
                i <= n,
                n == self.active_orders.spec_len(),
                actions_view(actions@) == cancels_view(self.active_orders.keys_view().take(i as int)),
            decreases n - i,
        {
            let ghost before = actions@;
            let action = OrderAction::cancel(self.active_orders.key_at(i));
            actions.push(action);
            assert(actions_view(actions@) =~= actions_view(before).push(action@));
            assert(actions_view(actions@) =~= cancels_view(
                self.active_orders.keys_view().take(i + 1),
            ));
            i = i + 1;
        }
        assert(self.active_orders.keys_view().take(n as int) =~= self.active_orders.keys_view());
        actions
    }

    /// What the strategy wants done on a book at the time `now`, and the
    /// fair price that it quotes around, where it quotes.
    fn plan(&self, order_book: &OrderBook, now: i64) -> (r: (Vec<OrderAction>, Option<Decimal>))
        ensures
            actions_view(r.0@) == self.wanted(
                mid_of(order_book.bids_view(), order_book.asks_view()),
                now,
            ),
            match r.1 {
                Some(fair) => self.quotes(
                    mid_of(order_book.bids_view(), order_book.asks_view()),
                    now,
                ) && Some(fair@) == mid_of(order_book.bids_view(), order_book.asks_view()),
                None => !self.quotes(mid_of(order_book.bids_view(), order_book.asks_view()), now),
            },
    {
        let none: Vec<OrderAction> = Vec::new();
        assert(actions_view(none@) =~= Seq::empty());
        if !self.enabled {
            return (none, None);
        }
        let fair = match self.calculate_fair_price(order_book) {
            Some(f) => f,
            None => {
                return (none, None);
            },
        };
        if !self.should_refresh_orders_at(fair, now) {
            return (none, None);
        }
        let mut ladder = match self.build_ladder(fair) {
            Some(l) => l,
            None => {
                return (none, None);
            },
        };
        let mut actions = self.cancel_all_orders();
        let ghost cancels = actions@;
        let ghost rungs = ladder@;
        actions.append(&mut ladder);
        assert(actions_view(actions@) =~= actions_view(cancels) + actions_view(rungs));
        (actions, Some(fair))
    }

    /// What the strategy wants done on a book at the time `now`. Changes
    /// nothing in the strategy.
    pub fn generate_actions_at(&self, order_book: &OrderBook, now: i64) -> (r: Vec<OrderAction>)
        ensures
            actions_view(r@) == self.wanted(
                mid_of(order_book.bids_view(), order_book.asks_view()),
                now,
            ),
    {
        self.plan(order_book, now).0
    }

    /// What the strategy wants done on a book at the present time.
    pub fn generate_actions_sync(&self, order_book: &OrderBook) -> (r: Vec<OrderAction>)
        ensures
            exists|now: i64|
                actions_view(r@) == #[trigger] self.wanted(
                    mid_of(order_book.bids_view(), order_book.asks_view()),
                    now,
                ),
    {
        let now = utc_now_millis();
        self.generate_actions_at(order_book, now)
    }

    /// Notes the price quoted and the time of quoting.
    pub fn update_last_price_at(&mut self, price: Decimal, now: i64)
        ensures
            final(self).last_price == Some(price),
            final(self).last_order_time == now,
            final(self).config == old(self).config,
            final(self).active_orders == old(self).active_orders,
            final(self).current_inventory == old(self).current_inventory,
            final(self).enabled == old(self).enabled,
    {
        self.last_price = Some(price);
        self.last_order_time = now;
    }

    /// Notes the price quoted, at the present time.
    pub fn update_last_price(&mut self, price: Decimal)
        ensures
            final(self).last_price == Some(price),
            final(self).config == old(self).config,
            final(self).active_orders == old(self).active_orders,
            final(self).current_inventory == old(self).current_inventory,
            final(self).enabled == old(self).enabled,
    {
        self.update_last_price_at(price, utc_now_millis());
    }

    /// What the strategy wants done on a book at the time `now`; where it
    /// wants anything done, it notes the fair price as quoted at `now`.
    pub fn on_market_data_at(&mut self, order_book: &OrderBook, now: i64) -> (r: Vec<OrderAction>)
        ensures
            actions_view(r@) == old(self).wanted(
                mid_of(order_book.bids_view(), order_book.asks_view()),
                now,
            ),
            final(self).config == old(self).config,
            final(self).active_orders == old(self).active_orders,
            final(self).current_inventory == old(self).current_inventory,
            final(self).enabled == old(self).enabled,
            old(self).quoted_at(
                mid_of(order_book.bids_view(), order_book.asks_view()),
                now,
                final(self).last_price,
                final(self).last_order_time,
            ),
    {
        let (actions, quoted) = self.plan(order_book, now);
        match quoted {
            Some(fair) => {
                self.last_price = Some(fair);
                self.last_order_time = now;
            },
            None => {},
        }
        actions
    }

    /// Tracks an order that works at the exchange, and forgets one that has
    /// come to its end.
    pub fn track_order(&mut self, order: &Order)
        ensures
            tracked_after(old(self).active_orders, final(self).active_orders, *order),
            final(self).config == old(self).config,
            final(self).last_order_time == old(self).last_order_time,
            final(self).last_price == old(self).last_price,
            final(self).current_inventory == old(self).current_inventory,
            final(self).enabled == old(self).enabled,
    {
        match order.status {
            OrderStatus::Submitted | OrderStatus::PartiallyFilled => {
                self.active_orders.insert(order.id, order.clone());
            },
            OrderStatus::Filled | OrderStatus::Cancelled | OrderStatus::Rejected => {
                let _ = self.active_orders.remove(order.id);
            },
            OrderStatus::Pending => {},
        }
    }

    /// Takes the size of a position of the strategy's symbol as its inventory.
    pub fn track_position(&mut self, position: &Position)
        ensures
            final(self).current_inventory == if position.symbol@
                == old(self).config.base_config.symbol@ {
                position.size
            } else {
                old(self).current_inventory
            },
            final(self).config == old(self).config,
            final(self).active_orders == old(self).active_orders,
            final(self).last_order_time == old(self).last_order_time,
            final(self).last_price == old(self).last_price,
            final(self).enabled == old(self).enabled,
    {
        if same_text(position.symbol.as_str(), self.config.base_config.symbol.as_str()) {
            self.current_inventory = position.size;
        }
    }

    /// Adds a fill to the inventory: its size for a buy, the opposite for a
    /// sell. The inventory stays as it is where no `Decimal` holds the sum.
    pub fn track_fill(&mut self, fill: &Fill)
        ensures
            final(self).current_inventory@ == inventory_after(old(self).current_inventory@, *fill),
            final(self).config == old(self).config,
            final(self).active_orders == old(self).active_orders,
            final(self).last_order_time == old(self).last_order_time,
            final(self).last_price == old(self).last_price,
            final(self).enabled == old(self).enabled,
    {
        let next = match fill.side {
            Side::Buy => self.current_inventory.checked_add(&fill.size),
            Side::Sell => self.current_inventory.checked_sub(&fill.size),
        };
        match next {
            Some(n) => {
                self.current_inventory = n;
            },
            None => {},
        }
    }

    /// Enables or disables the strategy; a disabled strategy forgets the
    /// orders it tracked.
    pub fn switch(&mut self, enabled: bool)
        ensures
            final(self).enabled == enabled,
            enabled ==> final(self).active_orders == old(self).active_orders,
            !enabled ==> final(self).active_orders.spec_len() == 0,
            final(self).config == old(self).config,
            final(self).last_order_time == old(self).last_order_time,
            final(self).last_price == old(self).last_price,
            final(self).current_inventory == old(self).current_inventory,
    {
        self.enabled = enabled;
        if !enabled {
            self.active_orders.clear();
        }
    }
}

impl TradingStrategy for MarketMakingStrategy {
    /// What the strategy wants done on a book at the present time.
    fn on_market_data(&mut self, order_book: &OrderBook) -> (r: Vec<OrderAction>)
        ensures
            exists|now: i64|
                actions_view(r@) == #[trigger] old(self).wanted(
                    mid_of(order_book.bids_view(), order_book.asks_view()),
                    now,
                ),
            final(self).config == old(self).config,
            final(self).active_orders == old(self).active_orders,
            final(self).current_inventory == old(self).current_inventory,
            final(self).enabled == old(self).enabled,
    {
        let now = utc_now_millis();
        self.on_market_data_at(order_book, now)
    }

    /// Tracks the order; an order update asks for no action.
    fn on_order_update(&mut self, order: &Order) -> (r: Vec<OrderAction>)
        ensures
            r@.len() == 0,
            tracked_after(old(self).active_orders, final(self).active_orders, *order),
            final(self).config == old(self).config,
            final(self).last_order_time == old(self).last_order_time,
            final(self).last_price == old(self).last_price,
            final(self).current_inventory == old(self).current_inventory,
            final(self).enabled == old(self).enabled,
    {
        self.track_order(order);
        Vec::new()
    }

    /// Takes the position as inventory; a position update asks for no action.
    fn on_position_update(&mut self, position: &Position) -> (r: Vec<OrderAction>)
        ensures
            r@.len() == 0,
            final(self).current_inventory == if position.symbol@
                == old(self).config.base_config.symbol@ {
                position.size
            } else {
                old(self).current_inventory
            },
            final(self).config == old(self).config,
            final(self).active_orders == old(self).active_orders,
            final(self).last_order_time == old(self).last_order_time,
            final(self).last_price == old(self).last_price,
            final(self).enabled == old(self).enabled,
    {
        self.track_position(position);
        Vec::new()
    }

    /// Adds the fill to the inventory; a fill asks for no action.
    fn on_fill(&mut self, fill: &Fill) -> (r: Vec<OrderAction>)
        ensures
            r@.len() == 0,
            final(self).current_inventory@ == inventory_after(old(self).current_inventory@, *fill),
            final(self).config == old(self).config,
            final(self).active_orders == old(self).active_orders,
            final(self).last_order_time == old(self).last_order_time,
            final(self).last_price == old(self).last_price,
            final(self).enabled == old(self).enabled,
    {
        self.track_fill(fill);
        Vec::new()
    }

    fn get_name(&self) -> (r: &str)
        ensures
            r@ == self.config.base_config.name@,
    {
        self.config.base_config.name.as_str()
    }

    fn is_enabled(&self) -> (r: bool)
        ensures
            r == self.enabled,
    {
        self.enabled
    }

    /// Enables or disables the strategy; a disabled strategy forgets the
    /// orders it tracked.
    fn set_enabled(&mut self, enabled: bool)
        ensures
            final(self).enabled == enabled,
            enabled ==> final(self).active_orders == old(self).active_orders,
            !enabled ==> final(self).active_orders.spec_len() == 0,
            final(self).config == old(self).config,
            final(self).last_order_time == old(self).last_order_time,
            final(self).last_price == old(self).last_price,
            final(self).current_inventory == old(self).current_inventory,
    {
        self.switch(enabled);
    }
}

} // verus!
