//! The decisions of the control loop: what becomes of each action that a
//! strategy wants taken, at each tick and at shutdown. The loop itself,
//! which talks to the exchange, belongs to the program.

use crate::api::trading_api::{
    cancel_targets_of, time_after, PendingOrder, RetryRequest, TradingApi,
};
use crate::api::types::ApiError;
use crate::events::types::{RiskEvent as RiskNotice, SystemEvent};
use crate::numeric::decimal::{shown, notional_in_range, Decimal, Notional};
use crate::strategies::market_making::MarketMakingStrategy;
use crate::trading::order_book::{mid_of, OrderBook};
use crate::trading::order_manager::{
    events_of_update, ledger_wf, lemma_order_slot, new_record, order_of, orders_after_update,
    put_order, slot_of, update_outcome, updated_record, OrderEvent, OrderManager, UpdateOutcome,
};
use crate::trading::position_manager::{
    position_of, positions_wf, LedgerOutcome, PositionManager,
};
use crate::trading::risk_manager::{verdict_text, RiskManager, RiskVerdict};
use crate::trading::risk_types::RiskEvent;
use crate::trading::types::{
    actions_view, Fill, NewOrder, NewOrderView, Order, OrderAction, OrderActionType, OrderStatus,
};
use crate::utils::text::join;
use vstd::prelude::*;

verus! {

#[derive(Debug, Clone)]
pub enum BotEvent {
    Started,
    Stopped,
    StrategyEnabled { name: String },
    StrategyDisabled { name: String },
    OrderPlaced { order_id: u128, symbol: String },
    OrderFilled { order_id: u128, symbol: String, size: Decimal, price: Decimal },
    PositionUpdated { symbol: String, size: Decimal, pnl: Notional },
    RiskAlert { message: String, severity: String },
    Error { error: String },
}

/// What the control loop does with an action.
#[derive(Debug)]
pub enum Directive {
    /// The order passed the risk check and goes to the submission pipeline.
    Submit(NewOrder),
    /// The order of this identity is to be cancelled.
    Cancel(u128),
    /// The order was rejected by the risk check and is dropped; listeners
    /// are told in these words.
    Alert { message: String, severity: String },
    /// The action asks for nothing that the loop does.
    Ignore,
}

/// A directive with its texts as characters.
pub enum DirectiveView {
    Submit(NewOrderView),
    Cancel(u128),
    Alert { message: Seq<char>, severity: Seq<char> },
    Ignore,
}

impl View for Directive {
    type V = DirectiveView;

    open spec fn view(&self) -> DirectiveView {
        match self {
            Directive::Submit(order) => DirectiveView::Submit(order@),
            Directive::Cancel(id) => DirectiveView::Cancel(*id),
            Directive::Alert { message, severity } => DirectiveView::Alert {
                message: message@,
                severity: severity@,
            },
            Directive::Ignore => DirectiveView::Ignore,
        }
    }
}

/// What becomes of an action at the time `now`: an order to place is
/// checked against the risk engine and submitted or, with an alert,
/// dropped; a cancel goes through whatever the risk engine holds, circuit
/// breakers included; nothing else is acted on.
pub open spec fn screened(risk: &RiskManager, action: OrderAction, now: i64) -> DirectiveView {
    match action.action_type {
        OrderActionType::Place => match action.order {
            Some(order) => match risk.verdict(order, now) {
                RiskVerdict::Accept => DirectiveView::Submit(order@),
                rejected => DirectiveView::Alert {
                    message: "Order rejected: "@ + verdict_text(rejected),
                    severity: "high"@,
                },
            },
            None => DirectiveView::Ignore,
        },
        OrderActionType::Cancel => match action.order_id {
            Some(id) => DirectiveView::Cancel(id),
            None => DirectiveView::Ignore,
        },
        OrderActionType::Modify => DirectiveView::Ignore,
    }
}

/// Decides what becomes of an action.
pub fn screen_action(risk: &RiskManager, action: OrderAction, now: i64) -> (r: Directive)
    ensures
        r@ == screened(risk, action, now),
{
    match action.action_type {
        OrderActionType::Place => match action.order {
            Some(order) => match risk.check_order_risk_at(&order, now) {
                Ok(_) => Directive::Submit(order),
                Err(why) => Directive::Alert {
                    message: join("Order rejected: ", why.as_str()),
                    severity: "high".to_string(),
                },
            },
            None => Directive::Ignore,
        },
        OrderActionType::Cancel => match action.order_id {
            Some(id) => Directive::Cancel(id),
            None => Directive::Ignore,
        },
        OrderActionType::Modify => Directive::Ignore,
    }
}

/// Decides what becomes of each of a list of actions, keeping their
/// order: what was asked for first is done first.
pub fn screen_actions(risk: &RiskManager, actions: Vec<OrderAction>, now: i64) -> (r: Vec<Directive>)
    ensures
        r@.len() == actions@.len(),
        forall|i: int|
            0 <= i < actions@.len() ==> (#[trigger] r@[i])@ == screened(risk, actions@[i], now),
{
    let mut actions = actions;
    let ghost all = actions@;
    let mut out: Vec<Directive> = Vec::new();
    let mut rest: Vec<OrderAction> = Vec::new();
    let n = actions.len();
    // The actions are taken from the end, so that each is moved, not copied.
    while actions.len() > 0
        invariant
            actions@.len() <= n,
            n == all.len(),
            actions@ == all.take(actions@.len() as int),
            rest@.len() == n - actions@.len(),
            forall|k: int| 0 <= k < rest@.len() ==> #[trigger] rest@[k] == all[n - 1 - k],
        decreases actions.len(),
    {
        let ghost m = actions@.len() as int;
        match actions.pop() {
            Some(action) => {
                rest.push(action);
                assert(actions@ =~= all.take(m - 1));
            },
            None => {},
        }
    }
    while rest.len() > 0
        invariant
            n == all.len(),
            rest@.len() <= n,
            out@.len() == n - rest@.len(),
            forall|k: int| 0 <= k < rest@.len() ==> #[trigger] rest@[k] == all[n - 1 - k],
            forall|i: int| 0 <= i < out@.len() ==> (#[trigger] out@[i])@ == screened(risk, all[i], now),
        decreases rest.len(),
    {
        match rest.pop() {
            Some(action) => {
                let directive = screen_action(risk, action, now);
                out.push(directive);
            },
            None => {},
        }
    }
    out
}

/// The law of the circuit breaker at the loop: a cancel is never held
/// back, whatever the risk engine holds.
pub proof fn lemma_cancels_always_pass(risk: &RiskManager, order_id: u128, now: i64)
    ensures
        screened(risk, OrderAction::spec_cancel(order_id), now) == DirectiveView::Cancel(order_id),
{
}

/// What the loop does for one symbol at one tick: what the strategy
/// wants done on the symbol's book, each action screened, in the
/// strategy's order, so that cancels come before the new ladder. Where the
/// strategy quotes, it notes the fair price and the time, so that it does
/// not quote again before a refresh is due.
pub fn plan_tick(
    strategy: &mut MarketMakingStrategy,
    risk: &RiskManager,
    order_book: &OrderBook,
    now: i64,
) -> (r: Vec<Directive>)
    ensures
        exists|actions: Seq<OrderAction>|
            {
                &&& #[trigger] actions_view(actions) == old(strategy).wanted(
                    mid_of(order_book.bids_view(), order_book.asks_view()),
                    now,
                )
                &&& r@.len() == actions.len()
                &&& forall|i: int|
                    0 <= i < actions.len() ==> (#[trigger] r@[i])@ == screened(
                        risk,
                        actions[i],
                        now,
                    )
            },
        old(strategy).quoted_at(
            mid_of(order_book.bids_view(), order_book.asks_view()),
            now,
            final(strategy).last_price,
            final(strategy).last_order_time,
        ),
        final(strategy).config == old(strategy).config,
        final(strategy).active_orders == old(strategy).active_orders,
        final(strategy).current_inventory == old(strategy).current_inventory,
        final(strategy).enabled == old(strategy).enabled,
{
    let ghost before = *strategy;
    let actions = strategy.on_market_data_at(order_book, now);
    let ghost held = actions@;
    let directives = screen_actions(risk, actions, now);
    assert(actions_view(held) == before.wanted(
        mid_of(order_book.bids_view(), order_book.asks_view()),
        now,
    ));
    directives
}

/// The event that tells of an order that was placed.
pub fn placed_event(order_id: u128, symbol: &str) -> (r: BotEvent)
    ensures
        r matches BotEvent::OrderPlaced { order_id: id, symbol: s } && id == order_id && s@
            == symbol@,
{
    BotEvent::OrderPlaced { order_id, symbol: symbol.to_string() }
}

/// The event that tells of an order that could not be placed.
pub fn failed_event(error: &ApiError) -> (r: BotEvent)
    ensures
        r matches BotEvent::Error { error: words } && words@ == "Failed to place order: "@
            + error.kind_text() + error.detail(),
{
    let words = join("Failed to place order: ", error.to_string().as_str());
    BotEvent::Error { error: words }
}

/// The orders to cancel at shutdown: all that are pending.
pub fn shutdown_targets(api: &TradingApi) -> (r: Vec<u64>)
    ensures
        r@ == cancel_targets_of(api.pending_orders.values_view(), None),
{
    api.cancel_targets(None)
}

/// Whether a notice tells of a limit of the kind `limit_type`, at this
/// value against this limit.
pub open spec fn tells_limit(
    notice: RiskNotice,
    limit_type: Seq<char>,
    current: Seq<char>,
    limit: Seq<char>,
) -> bool {
    notice matches RiskNotice::LimitExceeded { limit_type: t, current_value: c, limit_value: l }
        && t@ == limit_type && c@ == current && l@ == limit
}

/// Whether a notice is the one by which the bus tells of a risk event: a
/// limit that was exceeded is told of as it is, a breaker that tripped as
/// a limit named after the breaker, a warning as a limit named `warning`
/// with the warning's words, and a position at risk by its size against
/// its exposure. Amounts are told in text.
pub open spec fn notice_of(event: RiskEvent, notice: RiskNotice) -> bool {
    match event {
        RiskEvent::LimitExceeded { limit_type, current_value, limit_value, .. } => tells_limit(
            notice,
            limit_type@,
            shown(current_value@, 16),
            shown(limit_value@, 16),
        ),
        RiskEvent::CircuitBreakerTriggered { breaker_id, threshold, current_value, .. } =>
            tells_limit(
            notice,
            "circuit_breaker:"@ + breaker_id@,
            shown(current_value@, 8),
            shown(threshold@, 8),
        ),
        RiskEvent::RiskWarning { message, .. } => tells_limit(
            notice,
            "warning"@,
            message@,
            Seq::empty(),
        ),
        RiskEvent::PositionRisk { position_size, exposure, .. } =>
            notice matches RiskNotice::PositionSizeWarning { current_size, limit }
            && current_size@ == shown(position_size@, 8) && limit@ == shown(
            exposure@,
            16,
        ),
    }
}

/// The symbol that a risk event is about.
pub open spec fn symbol_of(event: RiskEvent) -> Seq<char> {
    match event {
        RiskEvent::LimitExceeded { symbol, .. } => symbol@,
        RiskEvent::CircuitBreakerTriggered { symbol, .. } => symbol@,
        RiskEvent::RiskWarning { symbol, .. } => symbol@,
        RiskEvent::PositionRisk { symbol, .. } => symbol@,
    }
}

/// The event by which the bus tells, at the time `now`, of a risk event.
pub fn risk_bus_event(event: RiskEvent, now: i64) -> (r: SystemEvent)
    ensures
        r matches SystemEvent::Risk { symbol, event: notice, timestamp } && symbol@ == symbol_of(
            event,
        ) && notice_of(event, notice) && timestamp == now,
{
    match event {
        RiskEvent::LimitExceeded { limit_type, symbol, current_value, limit_value, severity: _ } => {
            SystemEvent::Risk {
                symbol,
                event: RiskNotice::LimitExceeded {
                    limit_type,
                    current_value: current_value.to_string(),
                    limit_value: limit_value.to_string(),
                },
                timestamp: now,
            }
        },
        RiskEvent::CircuitBreakerTriggered {
            breaker_id,
            symbol,
            trigger_type: _,
            threshold,
            current_value,
        } => {
            SystemEvent::Risk {
                symbol,
                event: RiskNotice::LimitExceeded {
                    limit_type: join("circuit_breaker:", breaker_id.as_str()),
                    current_value: current_value.to_string(),
                    limit_value: threshold.to_string(),
                },
                timestamp: now,
            }
        },
        RiskEvent::RiskWarning { message, symbol, severity: _ } => {
            SystemEvent::Risk {
                symbol,
                event: RiskNotice::LimitExceeded {
                    limit_type: "warning".to_string(),
                    current_value: message,
                    limit_value: String::new(),
                },
                timestamp: now,
            }
        },
        RiskEvent::PositionRisk { symbol, position_size, exposure, pnl: _, risk_score: _ } => {
            SystemEvent::Risk {
                symbol,
                event: RiskNotice::PositionSizeWarning {
                    current_size: position_size.to_string(),
                    limit: exposure.to_string(),
                },
                timestamp: now,
            }
        },
    }
}

/// The record of an order that the exchange took at the time `now`:
/// submitted, with nothing filled.
pub open spec fn submitted_record(id: u128, now: i64, order: NewOrder) -> Order {
    updated_record(new_record(id, now, order), OrderStatus::Submitted, None, now)
}

/// Takes an order that the exchange took into the ledger, as submitted,
/// and into what the strategy tracks, so that the strategy cancels it
/// when it next quotes. The ledger tells of the order as placed and then
/// as updated.
pub fn record_placed(
    orders: &mut OrderManager,
    strategy: &mut MarketMakingStrategy,
    id: u128,
    order: NewOrder,
    now: i64,
)
    ensures
        final(orders).orders_view() == put_order(
            old(orders).orders_view(),
            submitted_record(id, now, order),
        ),
        final(orders).events_view() == old(orders).events_view().push(
            OrderEvent::OrderPlaced(new_record(id, now, order)),
        ).push(OrderEvent::OrderUpdated(submitted_record(id, now, order))),
        final(orders).pending_view() == old(orders).pending_view(),
        ledger_wf(final(orders).orders_view()),
        order_of(final(orders).orders_view(), id) == Some(submitted_record(id, now, order)),
        final(strategy).active_orders.is_insert_of(
            &old(strategy).active_orders,
            id,
            submitted_record(id, now, order),
        ),
        final(strategy).config == old(strategy).config,
        final(strategy).last_order_time == old(strategy).last_order_time,
        final(strategy).last_price == old(strategy).last_price,
        final(strategy).current_inventory == old(strategy).current_inventory,
        final(strategy).enabled == old(strategy).enabled,
{
    let ghost before = orders.orders_view();
    let ghost fresh = new_record(id, now, order);
    let ghost sent = submitted_record(id, now, order);
    let ghost held = order_of(before, id) is Some;
    orders.add_order_with(id, now, order);
    let ghost entered = orders.orders_view();
    let ghost told = orders.events_view();
    proof {
        let k = if held {
            slot_of(before, id)
        } else {
            before.len() as int
        };
        assert(entered[k] == fresh);
        lemma_order_slot(entered, id, k);
    }
    let outcome = orders.update_order_at(id, OrderStatus::Submitted, None, now);
    proof {
        assert(outcome is Applied);
        let k = slot_of(entered, id);
        assert(orders.orders_view() =~= put_order(before, sent));
        assert(orders.orders_view()[k] == sent);
        lemma_order_slot(orders.orders_view(), id, k);
        assert(orders.events_view() =~= told.push(OrderEvent::OrderUpdated(sent)));
    }
    match orders.get_order(&id) {
        Some(record) => {
            strategy.track_order(&record);
        },
        None => {},
    }
}

/// Takes the cancelling of an order by the exchange into the ledger and
/// out of what the strategy tracks. An order that the ledger does not
/// hold, or that has come to its end already, changes nothing.
pub fn record_cancelled(
    orders: &mut OrderManager,
    strategy: &mut MarketMakingStrategy,
    id: u128,
    now: i64,
) -> (outcome: UpdateOutcome)
    ensures
        outcome == update_outcome(old(orders).orders_view(), id, OrderStatus::Cancelled, None),
        outcome is Applied ==> {
            &&& final(orders).orders_view() == orders_after_update(
                old(orders).orders_view(),
                id,
                OrderStatus::Cancelled,
                None,
                now,
            )
            &&& final(orders).events_view() == old(orders).events_view() + events_of_update(
                old(orders).orders_view(),
                id,
                OrderStatus::Cancelled,
                None,
                now,
            )
            &&& final(strategy).active_orders.is_removal_of(&old(strategy).active_orders, id)
        },
        !(outcome is Applied) ==> final(orders).orders_view() == old(orders).orders_view()
            && final(orders).events_view() == old(orders).events_view() && final(strategy).active_orders == old(strategy).active_orders,
        final(orders).pending_view() == old(orders).pending_view(),
        ledger_wf(final(orders).orders_view()),
        final(strategy).config == old(strategy).config,
        final(strategy).last_order_time == old(strategy).last_order_time,
        final(strategy).last_price == old(strategy).last_price,
        final(strategy).current_inventory == old(strategy).current_inventory,
        final(strategy).enabled == old(strategy).enabled,
{
    let ghost before = orders.orders_view();
    let outcome = orders.update_order_at(id, OrderStatus::Cancelled, None, now);
    match outcome {
        UpdateOutcome::Applied => {
            proof {
                let k = slot_of(before, id);
                assert(orders.orders_view()[k].id == id);
                lemma_order_slot(orders.orders_view(), id, k);
            }
            match orders.get_order(&id) {
                Some(record) => {
                    strategy.track_order(&record);
                },
                None => {},
            }
        },
        _ => {},
    }
    outcome
}

/// What the risk engine is after a profit of `gain` raw units was added
/// to the day's figure at the time `now`: as `update_pnl_at` leaves it,
/// and unchanged where no `Notional` holds the profit.
pub open spec fn gain_taken(
    before: RiskManager,
    after: RiskManager,
    gain: int,
    now: i64,
    done: bool,
) -> bool {
    if notional_in_range(gain) {
        RiskManager::pnl_taken(before, after, Notional::from_units(gain), now, done)
    } else {
        after == before && !done
    }
}

/// What the risk engine is after a fill was fed back to it at the time
/// `now`: the symbol's new position was taken into its limits at the
/// fill's price, then the profit that the fill realized was added to the
/// day's figure, then the trade was counted.
pub open spec fn fed_back(
    before: RiskManager,
    after: RiskManager,
    symbol: Seq<char>,
    size: Decimal,
    price: Decimal,
    gain: int,
    now: i64,
) -> bool {
    exists|a: RiskManager, b: RiskManager, d1: bool, d2: bool|
        #![trigger RiskManager::position_taken(before, a, symbol, size, price, d1), gain_taken(a, b, gain, now, d2)]
        {
            &&& RiskManager::position_taken(before, a, symbol, size, price, d1)
            &&& gain_taken(a, b, gain, now, d2)
            &&& RiskManager::trade_counted(b, after, now)
        }
}

/// Takes a fill that the exchange reported at the time `now`: into the
/// position ledger first; then, where the ledger took it, the position
/// becomes the strategy's inventory, if it is of the strategy's symbol,
/// and position, realized profit and trade are fed back to the risk
/// engine. A fill that the ledger cannot take changes nothing.
pub fn record_fill(
    positions: &mut PositionManager,
    risk: &mut RiskManager,
    strategy: &mut MarketMakingStrategy,
    fill: &Fill,
    now: i64,
) -> (outcome: LedgerOutcome)
    ensures
        PositionManager::fill_taken(*old(positions), *final(positions), *fill, now, outcome),
        positions_wf(final(positions).positions_view()),
        !(outcome is Applied) ==> *final(risk) == *old(risk) && final(strategy).current_inventory
            == old(strategy).current_inventory,
        outcome is Applied ==> match position_of(final(positions).positions_view(), fill.symbol@) {
            Some(record) => {
                &&& final(strategy).current_inventory == if record.symbol@ == old(strategy).config.base_config.symbol@ {
                    record.size
                } else {
                    old(strategy).current_inventory
                }
                &&& fed_back(
                    *old(risk),
                    *final(risk),
                    fill.symbol@,
                    record.size,
                    fill.price,
                    final(positions).realized_view() - old(positions).realized_view(),
                    now,
                )
            },
            None => false,
        },
        final(strategy).config == old(strategy).config,
        final(strategy).active_orders == old(strategy).active_orders,
        final(strategy).last_order_time == old(strategy).last_order_time,
        final(strategy).last_price == old(strategy).last_price,
        final(strategy).enabled == old(strategy).enabled,
{
    broadcast use Notional::lemma_units_round_trip;

    let realized_before = positions.get_realized_pnl();
    let outcome = positions.process_fill_at(fill, now);
    match outcome {
        LedgerOutcome::Applied => {},
        _ => {
            return outcome;
        },
    }
    let record = match positions.get_position(fill.symbol.as_str()) {
        Some(record) => record,
        None => {
            return outcome;
        },
    };
    strategy.track_position(&record);
    let ghost start = *risk;
    let ghost gain = positions.realized_view() - realized_before@;
    let d1 = risk.update_position(fill.symbol.as_str(), record.size, fill.price);
    let ghost a = *risk;
    let realized_after = positions.get_realized_pnl();
    match realized_after.checked_sub(&realized_before) {
        Some(profit) => {
            let d2 = risk.update_pnl_at(profit, now);
            assert(gain_taken(a, *risk, gain, now, d2));
        },
        None => {
            assert(gain_taken(a, *risk, gain, now, false));
        },
    }
    let ghost b = *risk;
    risk.update_trade_count_at(now);
    assert(RiskManager::position_taken(start, a, fill.symbol@, record.size, fill.price, d1));
    assert(RiskManager::trade_counted(b, *risk, now));
    outcome
}

/// Takes the exchange's answer to the submission of a new order at the
/// time `now`, and decides what follows a failure: an order that the
/// exchange took stays pending; one that failed is pending no more and,
/// where the failure is one of those that a new try may mend, is queued
/// to be tried again after the retry delay. Hands back the order's
/// internal identity, or the error.
pub fn settle_placed(
    api: &mut TradingApi,
    order: PendingOrder,
    answer: Result<(), ApiError>,
    now: i64,
) -> (r: Result<u128, ApiError>)
    ensures
        match answer {
            Ok(_) => r == Ok::<u128, ApiError>(order.internal_id) && final(api).pending_orders
                == old(api).pending_orders && final(api).retry_queue == old(api).retry_queue,
            Err(e) => r == Err::<u128, ApiError>(e) && final(api).pending_orders.is_removal_of(
                &old(api).pending_orders,
                order.client_order_id as u128,
            ) && final(api).retry_queue@ == if e.spec_is_retryable() {
                old(api).retry_queue@.push(
                    RetryRequest {
                        order,
                        retry_after: time_after(now, old(api).config.retry_delay_ms),
                    },
                )
            } else {
                old(api).retry_queue@
            },
        },
        final(api).config == old(api).config,
        final(api).rate_limiter == old(api).rate_limiter,
        final(api).next_client_order_id == old(api).next_client_order_id,
        final(api).events == old(api).events,
{
    let retry = match &answer {
        Ok(_) => false,
        Err(e) => e.is_retryable(),
    };
    let outcome = api.finish_place(&order, answer);
    if retry {
        api.enqueue_retry(order, now);
    }
    outcome
}

} // verus!
