//! The risk engine: checks an order before it is placed, follows positions,
//! profit and volatility against their limits, and keeps the circuit
//! breakers. Events are queued here and drained by the caller, who forwards
//! them. Times are in milliseconds.

use crate::clock::utc_now_millis;
use crate::datastructures::symbol_map::{same_text, SymbolMap};
use crate::numeric::decimal::{
    abs_int, amount_text, digits_view, exceeds, format_amount, more_than, mul_wide,
    notional_in_range, product_of, quotient_of, shown, sum_of, Decimal, DECIMAL_SCALE, Digits,
    Notional,
};
use crate::trading::risk_types::{
    events_view, CircuitBreaker, CircuitBreakerType, ExposureLimit, PositionLimit, RiskEvent,
    RiskEventView, RiskMetrics, RiskSeverity, VolatilityLimit,
};
use crate::trading::types::{NewOrder, RiskLimits, Side};
use crate::utils::text::{join, join_four};
use vstd::prelude::*;
use vstd::string::StringExecFns;

verus! {

/// Milliseconds in a day: the daily figures are reset when this much time
/// has passed since the last reset.
pub const DAY_MILLIS: i64 = 86_400_000;

/// Raw `Notional` units per whole unit of leverage: leverage is notional
/// over a base of one thousand.
pub const LEVERAGE_DIVISOR: i128 = 100_000_000_000;

/// Whether a breaker stands against orders for `symbol` at the time `now`:
/// it is for that symbol, it was tripped, and its cooldown has not run out
/// since.
pub open spec fn breaker_blocks(b: CircuitBreaker, symbol: Seq<char>, now: i64) -> bool {
    &&& b.symbol@ == symbol
    &&& b.is_triggered
    &&& b.triggered_at matches Some(t) && now - t < b.cooldown_duration
}

/// The first breaker from place `from` on that blocks.
pub open spec fn first_blocking(
    breakers: Seq<CircuitBreaker>,
    symbol: Seq<char>,
    now: i64,
    from: int,
) -> Option<int>
    decreases breakers.len() - from,
{
    if from < 0 || from >= breakers.len() {
        None
    } else if breaker_blocks(breakers[from], symbol, now) {
        Some(from)
    } else {
        first_blocking(breakers, symbol, now, from + 1)
    }
}

/// What the check of an order finds: nothing, or the first of the four
/// checks that fails.
pub enum RiskVerdict {
    Accept,
    PositionLimit { would_be: int, max_net: int },
    ExposureLimit { would_be: (int, nat), max_notional: int },
    /// The notional of the order, or what it would lead to, is too large
    /// to be computed.
    ExposureUnknown,
    DailyLoss { pnl: int, floor: int },
    BreakerActive { id: Seq<char> },
}

/// The net position after an order, in raw `Decimal` units.
pub open spec fn net_after(current_net: int, order: NewOrder) -> int {
    match order.side {
        Side::Buy => current_net + order.size@,
        Side::Sell => current_net - order.size@,
    }
}

pub open spec fn position_check(limit: Option<PositionLimit>, order: NewOrder) -> Option<
    RiskVerdict,
> {
    match limit {
        Some(l) => if abs_int(net_after(l.current_net@, order)) > l.max_net@ {
            Some(
                RiskVerdict::PositionLimit {
                    would_be: abs_int(net_after(l.current_net@, order)),
                    max_net: l.max_net@,
                },
            )
        } else {
            None
        },
        None => None,
    }
}

/// The notional check: the order's size times its price, added to the
/// notional that the symbol has, may not be more than the limit. The
/// price has more places than the ledgers count in, so product and sum
/// are `rust_decimal`'s.
pub open spec fn exposure_check(limit: Option<ExposureLimit>, order: NewOrder) -> Option<
    RiskVerdict,
> {
    match limit {
        Some(l) => match product_of((order.size@, 8nat), order.price@) {
            Some(notional) => match sum_of((l.current_notional@, 16nat), notional) {
                Some(would_be) => if exceeds(would_be, (l.max_notional@, 16nat)) {
                    Some(RiskVerdict::ExposureLimit { would_be, max_notional: l.max_notional@ })
                } else {
                    None
                },
                None => Some(RiskVerdict::ExposureUnknown),
            },
            None => Some(RiskVerdict::ExposureUnknown),
        },
        None => None,
    }
}

pub open spec fn loss_check(limits: Option<RiskLimits>, daily_pnl: int) -> Option<RiskVerdict> {
    match limits {
        Some(l) => if daily_pnl < -(l.max_daily_loss@ * DECIMAL_SCALE) {
            Some(RiskVerdict::DailyLoss { pnl: daily_pnl, floor: -(l.max_daily_loss@ * DECIMAL_SCALE) })
        } else {
            None
        },
        None => None,
    }
}

pub open spec fn breaker_check(
    breakers: Seq<CircuitBreaker>,
    symbol: Seq<char>,
    now: i64,
) -> Option<RiskVerdict> {
    match first_blocking(breakers, symbol, now, 0) {
        Some(k) => Some(RiskVerdict::BreakerActive { id: breakers[k].id@ }),
        None => None,
    }
}

/// The words in which a rejection is reported.
pub open spec fn verdict_text(v: RiskVerdict) -> Seq<char> {
    match v {
        RiskVerdict::Accept => Seq::empty(),
        RiskVerdict::PositionLimit { would_be, max_net } =>
            "Order would exceed position limit: "@ + amount_text(would_be, 8) + " > "@
                + amount_text(max_net, 8),
        RiskVerdict::ExposureLimit { would_be, max_notional } =>
            "Order would exceed exposure limit: "@ + shown(would_be.0, would_be.1) + " > "@
                + amount_text(max_notional, 16),
        RiskVerdict::ExposureUnknown => "Order exposure is out of range"@,
        RiskVerdict::DailyLoss { pnl, floor } => "Daily loss limit exceeded: "@ + amount_text(
            pnl,
            16,
        ) + " < "@ + amount_text(floor, 16),
        RiskVerdict::BreakerActive { id } => "Circuit breaker "@ + id + " is still active"@,
    }
}

/// A breaker that was tripped at `tripped_at` blocks its symbol at every
/// time from then until its cooldown has run out.
pub proof fn lemma_blocks_during_cooldown(
    breakers: Seq<CircuitBreaker>,
    k: int,
    symbol: Seq<char>,
    tripped_at: i64,
    now: i64,
)
    requires
        0 <= k < breakers.len(),
        breakers[k].symbol@ == symbol,
        breakers[k].is_triggered,
        breakers[k].triggered_at == Some(tripped_at),
        tripped_at <= now < tripped_at + breakers[k].cooldown_duration,
    ensures
        breaker_check(breakers, symbol, now) is Some,
{
    lemma_first_blocking_finds(breakers, symbol, now, 0, k);
}

proof fn lemma_first_blocking_finds(
    breakers: Seq<CircuitBreaker>,
    symbol: Seq<char>,
    now: i64,
    from: int,
    k: int,
)
    requires
        0 <= from <= k < breakers.len(),
        breaker_blocks(breakers[k], symbol, now),
    ensures
        first_blocking(breakers, symbol, now, from) is Some,
    decreases k - from,
{
    if from < k && !breaker_blocks(breakers[from], symbol, now) {
        lemma_first_blocking_finds(breakers, symbol, now, from + 1, k);
    }
}

/// A breaker whose cooldown has run out blocks no longer.
pub proof fn lemma_released_after_cooldown(b: CircuitBreaker, symbol: Seq<char>, now: i64)
    requires
        b.triggered_at matches Some(t) && now >= t + b.cooldown_duration,
    ensures
        !breaker_blocks(b, symbol, now),
{
}

/// Where no breaker blocks, the breakers reject nothing.
pub proof fn lemma_no_blocker_accepts(
    breakers: Seq<CircuitBreaker>,
    symbol: Seq<char>,
    now: i64,
    from: int,
)
    requires
        0 <= from,
        forall|i: int| from <= i < breakers.len() ==> !breaker_blocks(#[trigger] breakers[i], symbol, now),
    ensures
        first_blocking(breakers, symbol, now, from) is None,
    decreases breakers.len() - from,
{
    if from < breakers.len() {
        lemma_no_blocker_accepts(breakers, symbol, now, from + 1);
    }
}

/// The position limit with a new net position: long and short follow it.
pub open spec fn position_limit_set(limit: PositionLimit, size: Decimal) -> PositionLimit {
    PositionLimit {
        symbol: limit.symbol,
        max_long: limit.max_long,
        max_short: limit.max_short,
        max_net: limit.max_net,
        current_long: if size@ > 0 {
            size
        } else {
            Decimal::from_units(0)
        },
        current_short: if size@ > 0 {
            Decimal::from_units(0)
        } else {
            Decimal::from_units(-size@)
        },
        current_net: size,
    }
}

/// The notional of a position: its size in magnitude times the price.
pub open spec fn notional_of(size: int, price: int) -> int {
    abs_int(size) * price
}

/// The exposure limit with a new notional; leverage, which is notional
/// over a base of one thousand, follows where the notional is positive.
pub open spec fn exposure_limit_set(limit: ExposureLimit, notional: int) -> ExposureLimit {
    ExposureLimit {
        symbol: limit.symbol,
        max_notional: limit.max_notional,
        current_notional: Notional::from_units(notional),
        max_leverage: limit.max_leverage,
        current_leverage: if notional > 0 {
            Decimal::from_units(notional / (LEVERAGE_DIVISOR as int))
        } else {
            limit.current_leverage
        },
    }
}

pub open spec fn limit_exceeded(
    limit_type: Seq<char>,
    symbol: Seq<char>,
    current_value: int,
    limit_value: int,
    severity: RiskSeverity,
) -> RiskEventView {
    RiskEventView::LimitExceeded { limit_type, symbol, current_value, limit_value, severity }
}

/// The event of a net position beyond its limit, if it is.
pub open spec fn position_breach(symbol: Seq<char>, limit: Option<PositionLimit>) -> Seq<
    RiskEventView,
> {
    match limit {
        Some(l) => if abs_int(l.current_net@) > l.max_net@ {
            seq![
                limit_exceeded(
                    "position_size"@,
                    symbol,
                    abs_int(l.current_net@) * DECIMAL_SCALE,
                    l.max_net@ * DECIMAL_SCALE,
                    RiskSeverity::Critical,
                ),
            ]
        } else {
            Seq::empty()
        },
        None => Seq::empty(),
    }
}

/// The events of an exposure beyond its limits: first the notional, then
/// the leverage.
pub open spec fn exposure_breach(symbol: Seq<char>, limit: Option<ExposureLimit>) -> Seq<
    RiskEventView,
> {
    match limit {
        Some(l) => {
            let first = if l.current_notional@ > l.max_notional@ {
                seq![
                    limit_exceeded(
                        "exposure"@,
                        symbol,
                        l.current_notional@,
                        l.max_notional@,
                        RiskSeverity::High,
                    ),
                ]
            } else {
                Seq::empty()
            };
            let second = if l.current_leverage@ > l.max_leverage@ {
                seq![
                    limit_exceeded(
                        "leverage"@,
                        symbol,
                        l.current_leverage@ * DECIMAL_SCALE,
                        l.max_leverage@ * DECIMAL_SCALE,
                        RiskSeverity::Critical,
                    ),
                ]
            } else {
                Seq::empty()
            };
            first + second
        },
        None => Seq::empty(),
    }
}

/// The events of a day's loss beyond the limit, one for each of the first
/// `n` symbols whose limit it is beyond.
pub open spec fn loss_breaches(
    symbols: Seq<Seq<char>>,
    limits: Seq<RiskLimits>,
    daily_pnl: int,
    n: int,
) -> Seq<RiskEventView>
    decreases n,
{
    if n <= 0 {
        Seq::empty()
    } else {
        let rest = loss_breaches(symbols, limits, daily_pnl, n - 1);
        let floor = -(limits[n - 1].max_daily_loss@ * DECIMAL_SCALE);
        if daily_pnl < floor {
            rest.push(
                limit_exceeded(
                    "daily_loss"@,
                    symbols[n - 1],
                    daily_pnl,
                    floor,
                    RiskSeverity::Critical,
                ),
            )
        } else {
            rest
        }
    }
}

/// The events of a spread or a price change beyond its limit.
pub open spec fn volatility_breach(symbol: Seq<char>, limit: VolatilityLimit) -> Seq<
    RiskEventView,
> {
    let first = if limit.current_spread_bps > limit.max_spread_bps {
        seq![
            limit_exceeded(
                "spread"@,
                symbol,
                limit.current_spread_bps * NOTIONAL_PER_WHOLE,
                limit.max_spread_bps * NOTIONAL_PER_WHOLE,
                RiskSeverity::High,
            ),
        ]
    } else {
        Seq::empty()
    };
    let second = if limit.price_change_bps > limit.max_price_change_bps {
        seq![
            limit_exceeded(
                "price_change"@,
                symbol,
                limit.price_change_bps * NOTIONAL_PER_WHOLE,
                limit.max_price_change_bps * NOTIONAL_PER_WHOLE,
                RiskSeverity::High,
            ),
        ]
    } else {
        Seq::empty()
    };
    first + second
}

/// Raw `Notional` units in one whole.
pub const NOTIONAL_PER_WHOLE: i128 = 10_000_000_000_000_000;

/// The whole number that a threshold stands for: the threshold itself
/// where it is a whole number that 32 bits hold, and zero otherwise.
pub open spec fn threshold_count(threshold: int) -> int {
    if threshold >= 0 && threshold % (DECIMAL_SCALE as int) == 0 && threshold / (
    DECIMAL_SCALE as int) <= u32::MAX {
        threshold / (DECIMAL_SCALE as int)
    } else {
        0
    }
}

/// A breaker tripped at the time `now`.
pub open spec fn tripped(b: CircuitBreaker, now: i64) -> CircuitBreaker {
    CircuitBreaker {
        id: b.id,
        symbol: b.symbol,
        trigger_type: b.trigger_type,
        threshold: b.threshold,
        current_value: b.current_value,
        is_triggered: true,
        triggered_at: Some(now),
        cooldown_duration: b.cooldown_duration,
    }
}

/// A breaker put back: not tripped.
pub open spec fn released(b: CircuitBreaker) -> CircuitBreaker {
    CircuitBreaker {
        id: b.id,
        symbol: b.symbol,
        trigger_type: b.trigger_type,
        threshold: b.threshold,
        current_value: b.current_value,
        is_triggered: false,
        triggered_at: None,
        cooldown_duration: b.cooldown_duration,
    }
}

pub open spec fn all_released(breakers: Seq<CircuitBreaker>) -> Seq<CircuitBreaker> {
    Seq::new(breakers.len(), |i: int| released(breakers[i]))
}

/// The first breaker of the identity `id` from place `from` on.
pub open spec fn breaker_slot(breakers: Seq<CircuitBreaker>, id: Seq<char>, from: int) -> Option<
    int,
>
    decreases breakers.len() - from,
{
    if from < 0 || from >= breakers.len() {
        None
    } else if breakers[from].id@ == id {
        Some(from)
    } else {
        breaker_slot(breakers, id, from + 1)
    }
}

/// The breakers after the breaker `id` was tripped at `now`.
pub open spec fn breakers_after_trip(breakers: Seq<CircuitBreaker>, id: Seq<char>, now: i64) -> Seq<
    CircuitBreaker,
> {
    match breaker_slot(breakers, id, 0) {
        Some(k) => breakers.update(k, tripped(breakers[k], now)),
        None => breakers,
    }
}

/// The event that tells of a tripped breaker.
pub open spec fn trip_event(b: CircuitBreaker) -> RiskEventView {
    RiskEventView::CircuitBreakerTriggered {
        breaker_id: b.id@,
        symbol: b.symbol@,
        trigger_type: b.trigger_type,
        threshold: b.threshold@,
        current_value: b.current_value@,
    }
}

pub open spec fn trip_events(breakers: Seq<CircuitBreaker>, id: Seq<char>) -> Seq<RiskEventView> {
    match breaker_slot(breakers, id, 0) {
        Some(k) => seq![trip_event(breakers[k])],
        None => Seq::empty(),
    }
}

/// Whether the count of trades trips a breaker: it watches trades, and the
/// count is above its threshold.
pub open spec fn trades_trip(b: CircuitBreaker, trades: u32) -> bool {
    b.trigger_type is MaxTradesPerMinute && trades > threshold_count(b.threshold@)
}

/// The breakers after the first `n` of them were held against the count of
/// trades, each that it trips being tripped by its identity.
pub open spec fn breakers_after_trades(
    breakers: Seq<CircuitBreaker>,
    trades: u32,
    now: i64,
    n: int,
) -> Seq<CircuitBreaker>
    decreases n,
{
    if n <= 0 {
        breakers
    } else {
        let rest = breakers_after_trades(breakers, trades, now, n - 1);
        if trades_trip(breakers[n - 1], trades) {
            breakers_after_trip(rest, breakers[n - 1].id@, now)
        } else {
            rest
        }
    }
}

pub open spec fn events_after_trades(
    breakers: Seq<CircuitBreaker>,
    trades: u32,
    now: i64,
    n: int,
) -> Seq<RiskEventView>
    decreases n,
{
    if n <= 0 {
        Seq::empty()
    } else {
        let rest = events_after_trades(breakers, trades, now, n - 1);
        if trades_trip(breakers[n - 1], trades) {
            rest + trip_events(
                breakers_after_trades(breakers, trades, now, n - 1),
                breakers[n - 1].id@,
            )
        } else {
            rest
        }
    }
}

/// One part of the risk score: what is used of a limit, divided by the
/// limit and then taken times the weight of the part. `None` where the
/// limit is zero or a number is too large.
pub open spec fn score_part(used: (int, nat), limit: (int, nat), weight: int) -> Option<(int, nat)> {
    match quotient_of(used, limit) {
        Some(ratio) => product_of(ratio, (weight, 0nat)),
        None => None,
    }
}

/// A score with one more part added to it.
pub open spec fn score_with(sum: Option<(int, nat)>, part: Option<(int, nat)>) -> Option<
    (int, nat),
> {
    match (sum, part) {
        (Some(s), Some(p)) => sum_of(s, p),
        _ => None,
    }
}

/// The risk score of a symbol before it is capped. Beginning with
/// nothing, a part is added for each limit that is set, in this order:
/// forty times what is used of the position limit, thirty times what is
/// used of the notional limit, twenty times what is used of the spread
/// limit and ten times what is used of the price-change limit.
pub open spec fn raw_score(
    position: Option<PositionLimit>,
    exposure: Option<ExposureLimit>,
    volatility: Option<VolatilityLimit>,
) -> Option<(int, nat)> {
    let nothing = Some((0int, 0nat));
    let first = match position {
        Some(l) => score_with(
            nothing,
            score_part((abs_int(l.current_net@), 8nat), (l.max_net@, 8nat), 40),
        ),
        None => nothing,
    };
    let second = match exposure {
        Some(l) => score_with(
            first,
            score_part((l.current_notional@, 16nat), (l.max_notional@, 16nat), 30),
        ),
        None => first,
    };
    match volatility {
        Some(l) => score_with(
            score_with(
                second,
                score_part((l.current_spread_bps as int, 0nat), (l.max_spread_bps as int, 0nat), 20),
            ),
            score_part((l.price_change_bps as int, 0nat), (l.max_price_change_bps as int, 0nat), 10),
        ),
        None => second,
    }
}

/// The risk score: the raw score, and one hundred where that is more.
pub open spec fn capped_score(raw: Option<(int, nat)>) -> Option<(int, nat)> {
    match raw {
        Some(s) => if more_than(s, 100) {
            Some((100int, 0nat))
        } else {
            Some(s)
        },
        None => None,
    }
}

pub struct RiskManager {
    pub risk_limits: SymbolMap<RiskLimits>,
    pub position_limits: SymbolMap<PositionLimit>,
    pub exposure_limits: SymbolMap<ExposureLimit>,
    pub volatility_limits: SymbolMap<VolatilityLimit>,
    pub circuit_breakers: Vec<CircuitBreaker>,
    pub daily_pnl: Notional,
    pub daily_trades: u32,
    pub last_reset: i64,
    pub risk_metrics: RiskMetrics,
    pub events: Vec<RiskEvent>,
}

fn limit_event(
    limit_type: &str,
    symbol: &str,
    current_value: Notional,
    limit_value: Notional,
    severity: RiskSeverity,
) -> (r: RiskEvent)
    ensures
        r@ == limit_exceeded(limit_type@, symbol@, current_value@, limit_value@, severity),
{
    RiskEvent::LimitExceeded {
        limit_type: String::from_str(limit_type),
        symbol: String::from_str(symbol),
        current_value,
        limit_value,
        severity,
    }
}

impl RiskManager {
    /// What the check of an order finds at the time `now`: the first that
    /// fails of the position limit, the notional limit, the daily loss
    /// limit and the circuit breakers of the order's symbol.
    pub open spec fn verdict(&self, order: NewOrder, now: i64) -> RiskVerdict {
        let symbol = order.symbol@;
        match position_check(self.position_limits.value_of(symbol), order) {
            Some(v) => v,
            None => match exposure_check(self.exposure_limits.value_of(symbol), order) {
                Some(v) => v,
                None => match loss_check(self.risk_limits.value_of(symbol), self.daily_pnl@) {
                    Some(v) => v,
                    None => match breaker_check(self.circuit_breakers@, symbol, now) {
                        Some(v) => v,
                        None => RiskVerdict::Accept,
                    },
                },
            },
        }
    }

    /// A risk engine without limits or breakers, its day beginning at `now`.
    pub fn new_at(now: i64) -> (r: Self)
        ensures
            r.risk_limits.spec_len() == 0,
            r.position_limits.spec_len() == 0,
            r.exposure_limits.spec_len() == 0,
            r.volatility_limits.spec_len() == 0,
            r.circuit_breakers@.len() == 0,
            r.daily_pnl@ == 0,
            r.daily_trades == 0,
            r.last_reset == now,
            r.events@.len() == 0,
            r.risk_metrics.total_exposure@ == 0,
            r.risk_metrics.total_pnl@ == 0,
            r.risk_metrics.max_drawdown@ == 0,
            r.risk_metrics.sharpe_ratio@ == 0,
            r.risk_metrics.win_rate@ == 0,
            r.risk_metrics.avg_trade_size@ == 0,
            r.risk_metrics.last_updated == now,
    {
        RiskManager {
            risk_limits: SymbolMap::new(),
            position_limits: SymbolMap::new(),
            exposure_limits: SymbolMap::new(),
            volatility_limits: SymbolMap::new(),
            circuit_breakers: Vec::new(),
            daily_pnl: Notional::zero(),
            daily_trades: 0,
            last_reset: now,
            risk_metrics: RiskMetrics {
                total_exposure: Notional::zero(),
                total_pnl: Notional::zero(),
                max_drawdown: Notional::zero(),
                sharpe_ratio: Decimal::zero(),
                win_rate: Decimal::zero(),
                avg_trade_size: Decimal::zero(),
                last_updated: now,
            },
            events: Vec::new(),
        }
    }

    /// A risk engine without limits or breakers, its day beginning now:
    /// the one reading of the clock is the time of its last reset and of
    /// its figures.
    pub fn new() -> (r: Self)
        ensures
            r.risk_limits.spec_len() == 0,
            r.position_limits.spec_len() == 0,
            r.exposure_limits.spec_len() == 0,
            r.volatility_limits.spec_len() == 0,
            r.circuit_breakers@.len() == 0,
            r.daily_pnl@ == 0,
            r.daily_trades == 0,
            r.events@.len() == 0,
            r.risk_metrics.total_exposure@ == 0,
            r.risk_metrics.total_pnl@ == 0,
            r.risk_metrics.max_drawdown@ == 0,
            r.risk_metrics.sharpe_ratio@ == 0,
            r.risk_metrics.win_rate@ == 0,
            r.risk_metrics.avg_trade_size@ == 0,
            r.risk_metrics.last_updated == r.last_reset,
    {
        Self::new_at(utc_now_millis())
    }

    /// Sets the risk limits of a symbol.
    pub fn add_risk_limits(&mut self, symbol: String, limits: RiskLimits)
        ensures
            final(self).risk_limits.value_of(symbol@) == Some(limits),
            forall|other: Seq<char>|
                other != symbol@ ==> #[trigger] final(self).risk_limits.value_of(other) == old(
                    self,
                ).risk_limits.value_of(other),
            final(self).position_limits == old(self).position_limits,
            final(self).exposure_limits == old(self).exposure_limits,
            final(self).volatility_limits == old(self).volatility_limits,
            final(self).circuit_breakers == old(self).circuit_breakers,
            final(self).daily_pnl == old(self).daily_pnl,
            final(self).daily_trades == old(self).daily_trades,
            final(self).last_reset == old(self).last_reset,
            final(self).events == old(self).events,
            final(self).risk_metrics == old(self).risk_metrics,
    {
        self.risk_limits.insert(symbol, limits);
    }

    /// Sets the position limit of a symbol.
    pub fn add_position_limit(&mut self, symbol: String, limit: PositionLimit)
        ensures
            final(self).position_limits.value_of(symbol@) == Some(limit),
            forall|other: Seq<char>|
                other != symbol@ ==> #[trigger] final(self).position_limits.value_of(other) == old(
                    self,
                ).position_limits.value_of(other),
            final(self).risk_limits == old(self).risk_limits,
            final(self).exposure_limits == old(self).exposure_limits,
            final(self).volatility_limits == old(self).volatility_limits,
            final(self).circuit_breakers == old(self).circuit_breakers,
            final(self).daily_pnl == old(self).daily_pnl,
            final(self).daily_trades == old(self).daily_trades,
            final(self).last_reset == old(self).last_reset,
            final(self).events == old(self).events,
            final(self).risk_metrics == old(self).risk_metrics,
    {
        self.position_limits.insert(symbol, limit);
    }

    /// Sets the exposure limit of a symbol.
    pub fn add_exposure_limit(&mut self, symbol: String, limit: ExposureLimit)
        ensures
            final(self).exposure_limits.value_of(symbol@) == Some(limit),
            forall|other: Seq<char>|
                other != symbol@ ==> #[trigger] final(self).exposure_limits.value_of(other) == old(
                    self,
                ).exposure_limits.value_of(other),
            final(self).risk_limits == old(self).risk_limits,
            final(self).position_limits == old(self).position_limits,
            final(self).volatility_limits == old(self).volatility_limits,
            final(self).circuit_breakers == old(self).circuit_breakers,
            final(self).daily_pnl == old(self).daily_pnl,
            final(self).daily_trades == old(self).daily_trades,
            final(self).last_reset == old(self).last_reset,
            final(self).events == old(self).events,
            final(self).risk_metrics == old(self).risk_metrics,
    {
        self.exposure_limits.insert(symbol, limit);
    }

    /// Sets the volatility limit of a symbol.
    pub fn add_volatility_limit(&mut self, symbol: String, limit: VolatilityLimit)
        ensures
            final(self).volatility_limits.value_of(symbol@) == Some(limit),
            forall|other: Seq<char>|
                other != symbol@ ==> #[trigger] final(self).volatility_limits.value_of(other)
                    == old(self).volatility_limits.value_of(other),
            final(self).risk_limits == old(self).risk_limits,
            final(self).position_limits == old(self).position_limits,
            final(self).exposure_limits == old(self).exposure_limits,
            final(self).circuit_breakers == old(self).circuit_breakers,
            final(self).daily_pnl == old(self).daily_pnl,
            final(self).daily_trades == old(self).daily_trades,
            final(self).last_reset == old(self).last_reset,
            final(self).events == old(self).events,
            final(self).risk_metrics == old(self).risk_metrics,
    {
        self.volatility_limits.insert(symbol, limit);
    }

    /// Adds a breaker behind those that the engine has.
    pub fn add_circuit_breaker(&mut self, breaker: CircuitBreaker)
        ensures
            final(self).circuit_breakers@ == old(self).circuit_breakers@.push(breaker),
            final(self).risk_limits == old(self).risk_limits,
            final(self).position_limits == old(self).position_limits,
            final(self).exposure_limits == old(self).exposure_limits,
            final(self).volatility_limits == old(self).volatility_limits,
            final(self).daily_pnl == old(self).daily_pnl,
            final(self).daily_trades == old(self).daily_trades,
            final(self).last_reset == old(self).last_reset,
            final(self).events == old(self).events,
            final(self).risk_metrics == old(self).risk_metrics,
    {
        self.circuit_breakers.push(breaker);
    }

    fn blocking_breaker(&self, symbol: &str, now: i64) -> (r: Option<usize>)
        ensures
            match r {
                Some(k) => first_blocking(self.circuit_breakers@, symbol@, now, 0) == Some(
                    k as int,
                ) && k < self.circuit_breakers@.len(),
                None => first_blocking(self.circuit_breakers@, symbol@, now, 0) is None,
            },
    {
        let mut i: usize = 0;
        while i < self.circuit_breakers.len()
            invariant
                i <= self.circuit_breakers.len(),
                first_blocking(self.circuit_breakers@, symbol@, now, 0) == first_blocking(
                    self.circuit_breakers@,
                    symbol@,
                    now,
                    i as int,
                ),
            decreases self.circuit_breakers.len() - i,
        {
            let b = &self.circuit_breakers[i];
            if b.is_triggered && same_text(b.symbol.as_str(), symbol) {
                match b.triggered_at {
                    Some(t) => {
                        if (now as i128) - (t as i128) < b.cooldown_duration as i128 {
                            return Some(i);
                        }
                    },
                    None => {},
                }
            }
            i = i + 1;
        }
        None
    }

    /// Checks an order at the time `now`. The checks come in a fixed order
    /// and the first that fails rejects the order, in words; nothing is
    /// changed.
    pub fn check_order_risk_at(&self, order: &NewOrder, now: i64) -> (r: Result<(), String>)
        ensures
            match r {
                Ok(_) => self.verdict(*order, now) is Accept,
                Err(text) => !(self.verdict(*order, now) is Accept) && text@ == verdict_text(
                    self.verdict(*order, now),
                ),
            },
    {
        let symbol = order.symbol.as_str();
        let size = order.size.raw() as i128;
        match self.position_limits.get(symbol) {
            Some(limit) => {
                let current = limit.current_net.raw() as i128;
                let after = match order.side {
                    Side::Buy => current + size,
                    Side::Sell => current - size,
                };
                let would_be = if after < 0 {
                    -after
                } else {
                    after
                };
                let max_net = limit.max_net.raw() as i128;
                if would_be > max_net {
                    return Err(
                        join_four(
                            "Order would exceed position limit: ",
                            format_amount(would_be, 8).as_str(),
                            " > ",
                            format_amount(max_net, 8).as_str(),
                        ),
                    );
                }
            },
            None => {},
        }
        match self.exposure_limits.get(symbol) {
            Some(limit) => {
                let notional = Digits::from_decimal(&order.size).checked_mul(&order.price);
                let would_be = match notional {
                    Some(n) => Digits::from_notional(&limit.current_notional).checked_add(&n),
                    None => None,
                };
                match would_be {
                    Some(w) => {
                        if w.gt(&Digits::from_notional(&limit.max_notional)) {
                            return Err(
                                join_four(
                                    "Order would exceed exposure limit: ",
                                    w.to_short_string().as_str(),
                                    " > ",
                                    format_amount(limit.max_notional.raw(), 16).as_str(),
                                ),
                            );
                        }
                    },
                    None => {
                        return Err("Order exposure is out of range".to_string());
                    },
                }
            },
            None => {},
        }
        match self.risk_limits.get(symbol) {
            Some(limits) => {
                let pnl = self.daily_pnl.raw();
                let floor = -Notional::from_decimal(&limits.max_daily_loss).raw();
                if pnl < floor {
                    return Err(
                        join_four(
                            "Daily loss limit exceeded: ",
                            format_amount(pnl, 16).as_str(),
                            " < ",
                            format_amount(floor, 16).as_str(),
                        ),
                    );
                }
            },
            None => {},
        }
        match self.blocking_breaker(symbol, now) {
            Some(k) => {
                let mut text = join("Circuit breaker ", self.circuit_breakers[k].id.as_str());
                text.append(" is still active");
                return Err(text);
            },
            None => {},
        }
        Ok(())
    }

    /// Checks an order at the present time.
    pub fn check_order_risk(&self, order: &NewOrder) -> (r: Result<(), String>)
        ensures
            exists|now: i64|
                match r {
                    Ok(_) => #[trigger] self.verdict(*order, now) is Accept,
                    Err(text) => !(self.verdict(*order, now) is Accept) && text@ == verdict_text(
                        self.verdict(*order, now),
                    ),
                },
    {
        let now = utc_now_millis();
        self.check_order_risk_at(order, now)
    }

    /// Whether a breaker stands against orders for `symbol` at the time `now`.
    pub fn is_circuit_breaker_active_at(&self, symbol: &str, now: i64) -> (r: bool)
        ensures
            r == (breaker_check(self.circuit_breakers@, symbol@, now) is Some),
    {
        self.blocking_breaker(symbol, now).is_some()
    }

    /// Whether a breaker stands against orders for `symbol` at present.
    pub fn is_circuit_breaker_active(&self, symbol: &str) -> (r: bool)
        ensures
            exists|now: i64|
                r == (#[trigger] breaker_check(self.circuit_breakers@, symbol@, now) is Some),
    {
        let now = utc_now_millis();
        self.is_circuit_breaker_active_at(symbol, now)
    }

    fn find_breaker(&self, id: &str) -> (r: Option<usize>)
        ensures
            match r {
                Some(k) => breaker_slot(self.circuit_breakers@, id@, 0) == Some(k as int) && k
                    < self.circuit_breakers@.len(),
                None => breaker_slot(self.circuit_breakers@, id@, 0) is None,
            },
    {
        let mut i: usize = 0;
        while i < self.circuit_breakers.len()
            invariant
                i <= self.circuit_breakers.len(),
                breaker_slot(self.circuit_breakers@, id@, 0) == breaker_slot(
                    self.circuit_breakers@,
                    id@,
                    i as int,
                ),
            decreases self.circuit_breakers.len() - i,
        {
            if same_text(self.circuit_breakers[i].id.as_str(), id) {
                return Some(i);
            }
            i = i + 1;
        }
        None
    }

    /// Trips the first breaker of the identity `breaker_id` at the time
    /// `now`, and queues the event that tells of it. Nothing happens where
    /// there is no such breaker.
    pub fn trigger_circuit_breaker_at(&mut self, breaker_id: &str, now: i64)
        ensures
            final(self).circuit_breakers@ == breakers_after_trip(
                old(self).circuit_breakers@,
                breaker_id@,
                now,
            ),
            events_view(final(self).events@) == events_view(old(self).events@) + trip_events(
                old(self).circuit_breakers@,
                breaker_id@,
            ),
            final(self).risk_limits == old(self).risk_limits,
            final(self).position_limits == old(self).position_limits,
            final(self).exposure_limits == old(self).exposure_limits,
            final(self).volatility_limits == old(self).volatility_limits,
            final(self).daily_pnl == old(self).daily_pnl,
            final(self).daily_trades == old(self).daily_trades,
            final(self).last_reset == old(self).last_reset,
            final(self).risk_metrics == old(self).risk_metrics,
    {
        match self.find_breaker(breaker_id) {
            Some(k) => {
                let b = &self.circuit_breakers[k];
                let event = RiskEvent::CircuitBreakerTriggered {
                    breaker_id: b.id.clone(),
                    symbol: b.symbol.clone(),
                    trigger_type: b.trigger_type,
                    threshold: b.threshold,
                    current_value: b.current_value,
                };
                let next = CircuitBreaker {
                    id: b.id.clone(),
                    symbol: b.symbol.clone(),
                    trigger_type: b.trigger_type,
                    threshold: b.threshold,
                    current_value: b.current_value,
                    is_triggered: true,
                    triggered_at: Some(now),
                    cooldown_duration: b.cooldown_duration,
                };
                assert(next == tripped(*b, now));
                self.circuit_breakers.set(k, next);
                self.events.push(event);
                assert(events_view(self.events@) =~= events_view(old(self).events@) + trip_events(
                    old(self).circuit_breakers@,
                    breaker_id@,
                ));
            },
            None => {
                assert(events_view(self.events@) =~= events_view(old(self).events@) + trip_events(
                    old(self).circuit_breakers@,
                    breaker_id@,
                ));
            },
        }
    }

    /// Trips a breaker at the present time.
    pub fn trigger_circuit_breaker(&mut self, breaker_id: &str)
        ensures
            exists|now: i64|
                final(self).circuit_breakers@ == #[trigger] breakers_after_trip(
                    old(self).circuit_breakers@,
                    breaker_id@,
                    now,
                ),
            events_view(final(self).events@) == events_view(old(self).events@) + trip_events(
                old(self).circuit_breakers@,
                breaker_id@,
            ),
            final(self).risk_limits == old(self).risk_limits,
            final(self).position_limits == old(self).position_limits,
            final(self).exposure_limits == old(self).exposure_limits,
            final(self).volatility_limits == old(self).volatility_limits,
            final(self).daily_pnl == old(self).daily_pnl,
            final(self).daily_trades == old(self).daily_trades,
            final(self).last_reset == old(self).last_reset,
            final(self).risk_metrics == old(self).risk_metrics,
    {
        let now = utc_now_millis();
        self.trigger_circuit_breaker_at(breaker_id, now);
    }

    /// Whether the daily figures are due for their reset at the time `now`.
    pub open spec fn spec_reset_due(&self, now: i64) -> bool {
        now - self.last_reset >= DAY_MILLIS
    }

    /// Whether a day has passed at the time `now` since the last reset.
    #[verifier::when_used_as_spec(spec_reset_due)]
    pub fn reset_due(&self, now: i64) -> (r: bool)
        ensures
            r == self.spec_reset_due(now),
    {
        (now as i128) - (self.last_reset as i128) >= DAY_MILLIS as i128
    }

    /// Begins a new day at the time `now`: no profit, no trades, and every
    /// breaker put back.
    pub fn reset_daily_metrics_at(&mut self, now: i64)
        ensures
            final(self).daily_pnl@ == 0,
            final(self).daily_trades == 0,
            final(self).last_reset == now,
            final(self).circuit_breakers@ == all_released(old(self).circuit_breakers@),
            final(self).risk_limits == old(self).risk_limits,
            final(self).position_limits == old(self).position_limits,
            final(self).exposure_limits == old(self).exposure_limits,
            final(self).volatility_limits == old(self).volatility_limits,
            final(self).events == old(self).events,
            final(self).risk_metrics == old(self).risk_metrics,
    {
        self.daily_pnl = Notional::zero();
        self.daily_trades = 0;
        self.last_reset = now;
        let mut i: usize = 0;
        while i < self.circuit_breakers.len()
            invariant
                i <= self.circuit_breakers.len(),
                self.circuit_breakers@.len() == old(self).circuit_breakers@.len(),
                forall|j: int|
                    0 <= j < i ==> #[trigger] self.circuit_breakers@[j] == released(
                        old(self).circuit_breakers@[j],
                    ),
                forall|j: int|
                    i <= j < self.circuit_breakers@.len() ==> #[trigger] self.circuit_breakers@[j]
                        == old(self).circuit_breakers@[j],
                self.daily_pnl@ == 0,
                self.daily_trades == 0,
                self.last_reset == now,
                self.risk_limits == old(self).risk_limits,
                self.position_limits == old(self).position_limits,
                self.exposure_limits == old(self).exposure_limits,
                self.volatility_limits == old(self).volatility_limits,
                self.events == old(self).events,
                self.risk_metrics == old(self).risk_metrics,
            decreases self.circuit_breakers.len() - i,
        {
            let b = &self.circuit_breakers[i];
            let next = CircuitBreaker {
                id: b.id.clone(),
                symbol: b.symbol.clone(),
                trigger_type: b.trigger_type,
                threshold: b.threshold,
                current_value: b.current_value,
                is_triggered: false,
                triggered_at: None,
                cooldown_duration: b.cooldown_duration,
            };
            self.circuit_breakers.set(i, next);
            i = i + 1;
        }
        assert(self.circuit_breakers@ =~= all_released(old(self).circuit_breakers@));
    }

    /// Begins a new day at the present time.
    pub fn reset_daily_metrics(&mut self)
        ensures
            final(self).daily_pnl@ == 0,
            final(self).daily_trades == 0,
            final(self).circuit_breakers@ == all_released(old(self).circuit_breakers@),
            final(self).events == old(self).events,
            final(self).risk_limits == old(self).risk_limits,
            final(self).position_limits == old(self).position_limits,
            final(self).exposure_limits == old(self).exposure_limits,
            final(self).volatility_limits == old(self).volatility_limits,
            final(self).risk_metrics == old(self).risk_metrics,
    {
        let now = utc_now_millis();
        self.reset_daily_metrics_at(now);
    }

    /// What the daily timer does at each of its ticks: begins a new day
    /// where a day has passed since the last reset, and says whether it did.
    pub fn reset_if_due(&mut self, now: i64) -> (r: bool)
        ensures
            r == old(self).spec_reset_due(now),
            r ==> final(self).daily_pnl@ == 0 && final(self).daily_trades == 0
                && final(self).last_reset == now && final(self).circuit_breakers@ == all_released(
                old(self).circuit_breakers@,
            ),
            !r ==> *final(self) == *old(self),
    {
        if self.reset_due(now) {
            self.reset_daily_metrics_at(now);
            true
        } else {
            false
        }
    }

    /// The figures of the engine as they stand.
    pub fn get_risk_metrics(&self) -> (r: RiskMetrics)
        ensures
            r == self.risk_metrics,
    {
        self.risk_metrics
    }

    /// The day's profit or loss.
    pub fn get_daily_pnl(&self) -> (r: Notional)
        ensures
            r == self.daily_pnl,
    {
        self.daily_pnl
    }

    /// The day's count of trades.
    pub fn get_daily_trades(&self) -> (r: u32)
        ensures
            r == self.daily_trades,
    {
        self.daily_trades
    }

    /// Hands out the events that wait, oldest first, and forgets them.
    pub fn drain_events(&mut self) -> (r: Vec<RiskEvent>)
        ensures
            r@ == old(self).events@,
            final(self).events@ == Seq::<RiskEvent>::empty(),
            final(self).risk_limits == old(self).risk_limits,
            final(self).position_limits == old(self).position_limits,
            final(self).exposure_limits == old(self).exposure_limits,
            final(self).volatility_limits == old(self).volatility_limits,
            final(self).circuit_breakers == old(self).circuit_breakers,
            final(self).daily_pnl == old(self).daily_pnl,
            final(self).daily_trades == old(self).daily_trades,
            final(self).last_reset == old(self).last_reset,
            final(self).risk_metrics == old(self).risk_metrics,
    {
        let mut out: Vec<RiskEvent> = Vec::new();
        core::mem::swap(&mut out, &mut self.events);
        out
    }
}

impl Default for RiskManager {
    fn default() -> (r: Self)
        ensures
            r.circuit_breakers@.len() == 0,
            r.daily_pnl@ == 0,
            r.daily_trades == 0,
            r.events@.len() == 0,
    {
        RiskManager::new()
    }
}

fn part_of_score(used: Digits, limit: Digits, weight: u32) -> (r: Option<Digits>)
    ensures
        digits_view(r) == score_part(used@, limit@, weight as int),
{
    match used.checked_div(&limit) {
        Some(ratio) => ratio.checked_mul(&Digits::from_int(weight)),
        None => None,
    }
}

fn add_score(sum: Option<Digits>, part: Option<Digits>) -> (r: Option<Digits>)
    ensures
        digits_view(r) == score_with(digits_view(sum), digits_view(part)),
{
    match (sum, part) {
        (Some(s), Some(p)) => s.checked_add(&p),
        _ => None,
    }
}

fn whole_threshold(threshold: &Decimal) -> (r: u32)
    ensures
        r == threshold_count(threshold@),
{
    let raw = threshold.raw();
    if raw >= 0 && raw % 100_000_000 == 0 && raw / 100_000_000 <= u32::MAX as i64 {
        (raw / 100_000_000) as u32
    } else {
        0
    }
}

/// Where a breaker of an identity is found, it is one of the breakers and
/// has that identity.
proof fn lemma_breaker_slot(breakers: Seq<CircuitBreaker>, id: Seq<char>, from: int)
    requires
        0 <= from,
    ensures
        breaker_slot(breakers, id, from) matches Some(k) ==> from <= k < breakers.len()
            && breakers[k].id@ == id,
    decreases breakers.len() - from,
{
    if from < breakers.len() && breakers[from].id@ != id {
        lemma_breaker_slot(breakers, id, from + 1);
    }
}

impl RiskManager {
    /// Whether the engine can hold what a new position leads to: the
    /// notional of the position, where the symbol has an exposure limit.
    pub open spec fn position_update_fits(&self, symbol: Seq<char>, size: int, price: int) -> bool {
        self.exposure_limits.contains(symbol) ==> notional_in_range(notional_of(size, price))
    }

    /// What `update_position` does to the engine.
    pub open spec fn position_taken(
        before: Self,
        after: Self,
        symbol: Seq<char>,
        size: Decimal,
        price: Decimal,
        done: bool,
    ) -> bool {
        &&& done == before.position_update_fits(symbol, size@, price@)
        &&& !done ==> after == before
        &&& done ==> {
            &&& match before.position_limits.value_of(symbol) {
                Some(l) => after.position_limits.replaces(
                    &before.position_limits,
                    symbol,
                    position_limit_set(l, size),
                ),
                None => after.position_limits == before.position_limits,
            }
            &&& match before.exposure_limits.value_of(symbol) {
                Some(l) => after.exposure_limits.replaces(
                    &before.exposure_limits,
                    symbol,
                    exposure_limit_set(l, notional_of(size@, price@)),
                ),
                None => after.exposure_limits == before.exposure_limits,
            }
            &&& events_view(after.events@) == events_view(before.events@)
                + position_breach(
                symbol,
                match before.position_limits.value_of(symbol) {
                    Some(l) => Some(position_limit_set(l, size)),
                    None => None,
                },
            ) + exposure_breach(
                symbol,
                match before.exposure_limits.value_of(symbol) {
                    Some(l) => Some(exposure_limit_set(l, notional_of(size@, price@))),
                    None => None,
                },
            )
        }
        &&& after.risk_limits == before.risk_limits
        &&& after.volatility_limits == before.volatility_limits
        &&& after.circuit_breakers == before.circuit_breakers
        &&& after.daily_pnl == before.daily_pnl
        &&& after.daily_trades == before.daily_trades
        &&& after.last_reset == before.last_reset
        &&& after.risk_metrics == before.risk_metrics
    }

    /// Takes the new net position of a symbol into its position limit and
    /// its notional, at `price`, into its exposure limit, and queues an
    /// event for each limit that is then exceeded. Says whether it was
    /// done: where the notional is beyond what the engine can hold, nothing
    /// is changed.
    pub fn update_position(&mut self, symbol: &str, size: Decimal, price: Decimal) -> (r: bool)
        ensures
            Self::position_taken(*old(self), *final(self), symbol@, size, price, r),
    {
        broadcast use Decimal::lemma_units_round_trip, Notional::lemma_units_round_trip;

        let position_slot = self.position_limits.find(symbol);
        let exposure_slot = self.exposure_limits.find(symbol);
        let size_units = size.raw() as i128;
        let price_units = price.raw() as i128;
        let notional = mul_wide(
            if size_units < 0 {
                -size_units
            } else {
                size_units
            },
            price_units,
        );
        let next_exposure = match exposure_slot {
            Some(i) => {
                let l = self.exposure_limits.value_at(i);
                let current = match Notional::from_raw(notional) {
                    Some(n) => n,
                    None => {
                        return false;
                    },
                };
                let leverage = if notional > 0 {
                    match Decimal::from_i128(notional / LEVERAGE_DIVISOR) {
                        Some(d) => d,
                        None => {
                            return false;
                        },
                    }
                } else {
                    l.current_leverage
                };
                let next = ExposureLimit {
                    symbol: l.symbol.clone(),
                    max_notional: l.max_notional,
                    current_notional: current,
                    max_leverage: l.max_leverage,
                    current_leverage: leverage,
                };
                assert(next == exposure_limit_set(*l, notional as int));
                Some(next)
            },
            None => None,
        };
        let ghost events_before = events_view(self.events@);
        let ghost first = Seq::<RiskEventView>::empty();
        match position_slot {
            Some(i) => {
                let l = self.position_limits.value_at(i);
                let zero = Decimal::zero();
                let next = PositionLimit {
                    symbol: l.symbol.clone(),
                    max_long: l.max_long,
                    max_short: l.max_short,
                    max_net: l.max_net,
                    current_long: if size.is_positive() {
                        size
                    } else {
                        zero
                    },
                    current_short: if size.is_positive() {
                        zero
                    } else {
                        size.neg()
                    },
                    current_net: size,
                };
                assert(next == position_limit_set(*l, size));
                let breach = size.abs().gt(&next.max_net);
                let event = if breach {
                    Some(
                        limit_event(
                            "position_size",
                            symbol,
                            Notional::from_decimal(&size.abs()),
                            Notional::from_decimal(&next.max_net),
                            RiskSeverity::Critical,
                        ),
                    )
                } else {
                    None
                };
                proof {
                    first = position_breach(symbol@, Some(next));
                }
                self.position_limits.set_value(i, next);
                match event {
                    Some(e) => {
                        self.events.push(e);
                    },
                    None => {},
                }
                assert(events_view(self.events@) =~= events_before + first);
            },
            None => {
                assert(events_view(self.events@) =~= events_before + first);
            },
        }
        match (exposure_slot, next_exposure) {
            (Some(i), Some(next)) => {
                let over_notional = next.current_notional.gt(&next.max_notional);
                let over_leverage = next.current_leverage.gt(&next.max_leverage);
                let ghost second = exposure_breach(symbol@, Some(next));
                let first_event = if over_notional {
                    Some(
                        limit_event(
                            "exposure",
                            symbol,
                            next.current_notional,
                            next.max_notional,
                            RiskSeverity::High,
                        ),
                    )
                } else {
                    None
                };
                let second_event = if over_leverage {
                    Some(
                        limit_event(
                            "leverage",
                            symbol,
                            Notional::from_decimal(&next.current_leverage),
                            Notional::from_decimal(&next.max_leverage),
                            RiskSeverity::Critical,
                        ),
                    )
                } else {
                    None
                };
                self.exposure_limits.set_value(i, next);
                match first_event {
                    Some(e) => {
                        self.events.push(e);
                    },
                    None => {},
                }
                match second_event {
                    Some(e) => {
                        self.events.push(e);
                    },
                    None => {},
                }
                assert(events_view(self.events@) =~= events_before + first + second);
            },
            _ => {
                assert(events_view(self.events@) =~= events_before + first + Seq::<
                    RiskEventView,
                >::empty());
            },
        }
        true
    }

    /// What `update_pnl_at` does to the engine.
    pub open spec fn pnl_taken(before: Self, after: Self, pnl: Notional, now: i64, done: bool) -> bool {
        &&& done == notional_in_range(before.daily_pnl@ + pnl@)
        &&& !done ==> after == before
        &&& done ==> {
            &&& after.daily_pnl@ == before.daily_pnl@ + pnl@
            &&& after.risk_metrics.total_pnl == after.daily_pnl
            &&& after.risk_metrics.last_updated == now
            &&& events_view(after.events@) == events_view(before.events@)
                + loss_breaches(
                before.risk_limits.keys_view(),
                before.risk_limits.values_view(),
                before.daily_pnl@ + pnl@,
                before.risk_limits.spec_len() as int,
            )
        }
        &&& after.risk_limits == before.risk_limits
        &&& after.position_limits == before.position_limits
        &&& after.exposure_limits == before.exposure_limits
        &&& after.volatility_limits == before.volatility_limits
        &&& after.circuit_breakers == before.circuit_breakers
        &&& after.daily_trades == before.daily_trades
        &&& after.last_reset == before.last_reset
    }

    /// Adds a profit or a loss to the day's figure at the time `now`, and
    /// queues an event for each symbol whose daily loss limit the figure is
    /// then beyond. Says whether it was done: where the figure would leave
    /// what the engine can hold, nothing is changed.
    pub fn update_pnl_at(&mut self, pnl: Notional, now: i64) -> (r: bool)
        ensures
            Self::pnl_taken(*old(self), *final(self), pnl, now, r),
    {
        let total = match self.daily_pnl.checked_add(&pnl) {
            Some(t) => t,
            None => {
                return false;
            },
        };
        self.daily_pnl = total;
        let ghost events_before = events_view(self.events@);
        let ghost keys = self.risk_limits.keys_view();
        let ghost values = self.risk_limits.values_view();
        let n = self.risk_limits.len();
        let mut i: usize = 0;
        assert(events_view(self.events@) =~= events_before + loss_breaches(keys, values, total@, 0));
        while i < n
            invariant
                i <= n,
                n == self.risk_limits.spec_len(),
                self.risk_limits.wf(),
                keys == self.risk_limits.keys_view(),
                values == self.risk_limits.values_view(),
                events_view(self.events@) == events_before + loss_breaches(
                    keys,
                    values,
                    total@,
                    i as int,
                ),
                self.daily_pnl == total,
                self.risk_limits == old(self).risk_limits,
                self.position_limits == old(self).position_limits,
                self.exposure_limits == old(self).exposure_limits,
                self.volatility_limits == old(self).volatility_limits,
                self.circuit_breakers == old(self).circuit_breakers,
                self.daily_trades == old(self).daily_trades,
                self.last_reset == old(self).last_reset,
                self.risk_metrics == old(self).risk_metrics,
            decreases n - i,
        {
            let limits = self.risk_limits.value_at(i);
            let floor = Notional::from_decimal(&limits.max_daily_loss).neg();
            let ghost held = self.events@;
            if total.lt(&floor) {
                let event = limit_event(
                    "daily_loss",
                    self.risk_limits.key_at(i).as_str(),
                    total,
                    floor,
                    RiskSeverity::Critical,
                );
                self.events.push(event);
                assert(events_view(self.events@) =~= events_view(held).push(event@));
            }
            proof {
                let rest = loss_breaches(keys, values, total@, i as int);
                let faced = -(values[i as int].max_daily_loss@ * DECIMAL_SCALE);
                assert(floor@ == faced);
                assert(loss_breaches(keys, values, total@, i + 1) == if total@ < faced {
                    rest.push(
                        limit_exceeded(
                            "daily_loss"@,
                            keys[i as int],
                            total@,
                            faced,
                            RiskSeverity::Critical,
                        ),
                    )
                } else {
                    rest
                });
                assert(events_view(self.events@) =~= events_before + loss_breaches(
                    keys,
                    values,
                    total@,
                    i + 1,
                ));
            }
            i = i + 1;
        }
        self.risk_metrics.total_pnl = total;
        self.risk_metrics.last_updated = now;
        true
    }

    /// Adds a profit or a loss to the day's figure at the present time.
    pub fn update_pnl(&mut self, pnl: Notional) -> (r: bool)
        ensures
            exists|now: i64| #[trigger] Self::pnl_taken(*old(self), *final(self), pnl, now, r),
    {
        let now = utc_now_millis();
        self.update_pnl_at(pnl, now)
    }

    /// What `update_trade_count_at` does to the engine.
    pub open spec fn trade_counted(before: Self, after: Self, now: i64) -> bool {
        &&& after.daily_trades == if before.daily_trades < u32::MAX {
            before.daily_trades + 1
        } else {
            before.daily_trades as int
        }
        &&& after.circuit_breakers@ == breakers_after_trades(
            before.circuit_breakers@,
            after.daily_trades,
            now,
            before.circuit_breakers@.len() as int,
        )
        &&& events_view(after.events@) == events_view(before.events@)
            + events_after_trades(
            before.circuit_breakers@,
            after.daily_trades,
            now,
            before.circuit_breakers@.len() as int,
        )
        &&& after.risk_limits == before.risk_limits
        &&& after.position_limits == before.position_limits
        &&& after.exposure_limits == before.exposure_limits
        &&& after.volatility_limits == before.volatility_limits
        &&& after.daily_pnl == before.daily_pnl
        &&& after.last_reset == before.last_reset
        &&& after.risk_metrics == before.risk_metrics
    }

    /// Counts a trade, unless the count is at its largest, and trips at the
    /// time `now` every breaker that watches trades and whose threshold the
    /// count is then above.
    pub fn update_trade_count_at(&mut self, now: i64)
        ensures
            Self::trade_counted(*old(self), *final(self), now),
    {
        if self.daily_trades < u32::MAX {
            self.daily_trades = self.daily_trades + 1;
        }
        let trades = self.daily_trades;
        let ghost before = old(self).circuit_breakers@;
        let ghost events_before = events_view(self.events@);
        let n = self.circuit_breakers.len();
        let mut i: usize = 0;
        assert(events_view(self.events@) =~= events_before + events_after_trades(
            before,
            trades,
            now,
            0,
        ));
        while i < n
            invariant
                i <= n,
                n == before.len(),
                before == old(self).circuit_breakers@,
                self.circuit_breakers@.len() == n,
                trades == self.daily_trades,
                self.circuit_breakers@ == breakers_after_trades(before, trades, now, i as int),
                events_view(self.events@) == events_before + events_after_trades(
                    before,
                    trades,
                    now,
                    i as int,
                ),
                forall|j: int|
                    0 <= j < n ==> (#[trigger] self.circuit_breakers@[j]).id == before[j].id
                        && self.circuit_breakers@[j].trigger_type == before[j].trigger_type
                        && self.circuit_breakers@[j].threshold == before[j].threshold,
                self.risk_limits == old(self).risk_limits,
                self.position_limits == old(self).position_limits,
                self.exposure_limits == old(self).exposure_limits,
                self.volatility_limits == old(self).volatility_limits,
                self.daily_pnl == old(self).daily_pnl,
                self.last_reset == old(self).last_reset,
                self.risk_metrics == old(self).risk_metrics,
            decreases n - i,
        {
            let b = &self.circuit_breakers[i];
            let watches = match b.trigger_type {
                CircuitBreakerType::MaxTradesPerMinute => true,
                _ => false,
            };
            if watches && trades > whole_threshold(&b.threshold) {
                let id = b.id.clone();
                let ghost current = self.circuit_breakers@;
                let ghost events_now = events_view(self.events@);
                self.trigger_circuit_breaker_at(id.as_str(), now);
                proof {
                    let after = self.circuit_breakers@;
                    lemma_breaker_slot(current, id@, 0);
                    assert(after.len() == n);
                    assert forall|j: int| 0 <= j < n implies (#[trigger] after[j]).id
                        == before[j].id && after[j].trigger_type == before[j].trigger_type
                        && after[j].threshold == before[j].threshold by {
                        assert(current[j].id == before[j].id);
                    }
                    assert(events_view(self.events@) =~= events_before + events_after_trades(
                        before,
                        trades,
                        now,
                        i + 1,
                    ));
                }
            }
            i = i + 1;
        }
    }

    /// Counts a trade at the present time.
    pub fn update_trade_count(&mut self)
        ensures
            exists|now: i64| #[trigger] Self::trade_counted(*old(self), *final(self), now),
    {
        let now = utc_now_millis();
        self.update_trade_count_at(now);
    }

    /// Takes the spread, the price change and the price of a symbol into
    /// its volatility limit, where it has one, and queues an event for the
    /// spread and for the price change where they exceed their limits.
    pub fn update_volatility(
        &mut self,
        symbol: &str,
        spread_bps: u32,
        price_change_bps: u32,
        current_price: Decimal,
    )
        ensures
            match old(self).volatility_limits.value_of(symbol@) {
                Some(l) => {
                    let next = VolatilityLimit {
                        symbol: l.symbol,
                        max_spread_bps: l.max_spread_bps,
                        max_price_change_bps: l.max_price_change_bps,
                        current_spread_bps: spread_bps,
                        last_price: current_price,
                        price_change_bps,
                    };
                    &&& final(self).volatility_limits.replaces(
                        &old(self).volatility_limits,
                        symbol@,
                        next,
                    )
                    &&& events_view(final(self).events@) == events_view(old(self).events@)
                        + volatility_breach(symbol@, next)
                },
                None => *final(self) == *old(self),
            },
            final(self).risk_limits == old(self).risk_limits,
            final(self).position_limits == old(self).position_limits,
            final(self).exposure_limits == old(self).exposure_limits,
            final(self).circuit_breakers == old(self).circuit_breakers,
            final(self).daily_pnl == old(self).daily_pnl,
            final(self).daily_trades == old(self).daily_trades,
            final(self).last_reset == old(self).last_reset,
            final(self).risk_metrics == old(self).risk_metrics,
    {
        let slot = match self.volatility_limits.find(symbol) {
            Some(i) => i,
            None => {
                return ;
            },
        };
        let l = self.volatility_limits.value_at(slot);
        let next = VolatilityLimit {
            symbol: l.symbol.clone(),
            max_spread_bps: l.max_spread_bps,
            max_price_change_bps: l.max_price_change_bps,
            current_spread_bps: spread_bps,
            last_price: current_price,
            price_change_bps,
        };
        let max_spread = l.max_spread_bps;
        let max_change = l.max_price_change_bps;
        let ghost events_before = events_view(self.events@);
        let ghost breach = volatility_breach(symbol@, next);
        self.volatility_limits.set_value(slot, next);
        let whole: i128 = 10_000_000_000_000_000;
        if spread_bps > max_spread {
            match (
                Notional::from_raw((spread_bps as i128) * whole),
                Notional::from_raw((max_spread as i128) * whole),
            ) {
                (Some(current), Some(limit)) => {
                    self.events.push(
                        limit_event("spread", symbol, current, limit, RiskSeverity::High),
                    );
                },
                _ => {
                    assert(false);
                },
            }
        }
        if price_change_bps > max_change {
            match (
                Notional::from_raw((price_change_bps as i128) * whole),
                Notional::from_raw((max_change as i128) * whole),
            ) {
                (Some(current), Some(limit)) => {
                    self.events.push(
                        limit_event("price_change", symbol, current, limit, RiskSeverity::High),
                    );
                },
                _ => {
                    assert(false);
                },
            }
        }
        assert(events_view(self.events@) =~= events_before + breach);
    }

    /// The risk score of a symbol, from nothing to one hundred: how much of
    /// its limits the symbol uses, the position limit counting forty, the
    /// notional limit thirty, the spread limit twenty and the price-change
    /// limit ten in a hundred. The quotients, products and sums are
    /// `rust_decimal`'s. `None` where a limit that is set is zero.
    pub fn get_risk_score(&self, symbol: &str) -> (r: Option<Digits>)
        ensures
            digits_view(r) == capped_score(
                raw_score(
                    self.position_limits.value_of(symbol@),
                    self.exposure_limits.value_of(symbol@),
                    self.volatility_limits.value_of(symbol@),
                ),
            ),
    {
        let nothing = Some(Digits::from_int(0));
        let first = match self.position_limits.get(symbol) {
            Some(l) => add_score(
                nothing,
                part_of_score(
                    Digits::from_decimal(&l.current_net.abs()),
                    Digits::from_decimal(&l.max_net),
                    40,
                ),
            ),
            None => nothing,
        };
        let second = match self.exposure_limits.get(symbol) {
            Some(l) => add_score(
                first,
                part_of_score(
                    Digits::from_notional(&l.current_notional),
                    Digits::from_notional(&l.max_notional),
                    30,
                ),
            ),
            None => first,
        };
        let third = match self.volatility_limits.get(symbol) {
            Some(l) => add_score(
                add_score(
                    second,
                    part_of_score(
                        Digits::from_int(l.current_spread_bps),
                        Digits::from_int(l.max_spread_bps),
                        20,
                    ),
                ),
                part_of_score(
                    Digits::from_int(l.price_change_bps),
                    Digits::from_int(l.max_price_change_bps),
                    10,
                ),
            ),
            None => second,
        };
        match third {
            Some(score) => if score.is_more_than(100) {
                Some(Digits::from_int(100))
            } else {
                Some(score)
            },
            None => None,
        }
    }
}

/// The law of the circuit breaker: while the cooldown of a tripped breaker
/// runs, no order for its symbol is accepted.
pub proof fn lemma_tripped_breaker_rejects(
    manager: RiskManager,
    k: int,
    order: NewOrder,
    tripped_at: i64,
    now: i64,
)
    requires
        0 <= k < manager.circuit_breakers@.len(),
        manager.circuit_breakers@[k].symbol@ == order.symbol@,
        manager.circuit_breakers@[k].is_triggered,
        manager.circuit_breakers@[k].triggered_at == Some(tripped_at),
        tripped_at <= now < tripped_at + manager.circuit_breakers@[k].cooldown_duration,
    ensures
        !(manager.verdict(order, now) is Accept),
{
    lemma_blocks_during_cooldown(manager.circuit_breakers@, k, order.symbol@, tripped_at, now);
}

/// The law of the circuit breaker, second half: once the cooldown of every
/// tripped breaker of a symbol has run out, an order for the symbol that
/// no limit stands against is accepted.
pub proof fn lemma_accepted_after_cooldown(manager: RiskManager, order: NewOrder, now: i64)
    requires
        position_check(manager.position_limits.value_of(order.symbol@), order) is None,
        exposure_check(manager.exposure_limits.value_of(order.symbol@), order) is None,
        loss_check(manager.risk_limits.value_of(order.symbol@), manager.daily_pnl@) is None,
        forall|i: int|
            0 <= i < manager.circuit_breakers@.len() ==> {
                let b = #[trigger] manager.circuit_breakers@[i];
                b.symbol@ == order.symbol@ && b.is_triggered ==> (b.triggered_at matches Some(t)
                    ==> now >= t + b.cooldown_duration)
            },
    ensures
        manager.verdict(order, now) is Accept,
{
    lemma_no_blocker_accepts(manager.circuit_breakers@, order.symbol@, now, 0);
}

/// Tripping a breaker leaves it tripped, at the time of the trip.
pub proof fn lemma_trip_takes_effect(breakers: Seq<CircuitBreaker>, id: Seq<char>, now: i64)
    requires
        breaker_slot(breakers, id, 0) is Some,
    ensures
        ({
            let k = breaker_slot(breakers, id, 0)->0;
            let after = breakers_after_trip(breakers, id, now);
            &&& 0 <= k < after.len()
            &&& after[k].is_triggered
            &&& after[k].triggered_at == Some(now)
            &&& after[k].symbol == breakers[k].symbol
            &&& after[k].cooldown_duration == breakers[k].cooldown_duration
        }),
{
    lemma_breaker_slot(breakers, id, 0);
}

} // verus!
