//! The events that the engine tells its listeners of, and how urgent each is.

use crate::clock::utc_now_millis;
use crate::model::hl_msgs::TobMsg;
use crate::numeric::decimal::Decimal;
use crate::trading::order_manager::OrderEvent;
use crate::trading::position_manager::PositionEvent;
use crate::trading::types::OrderAction;
use crate::utils::text::join;
use vstd::prelude::*;

verus! {

#[derive(Debug, Clone)]
pub enum StrategyEvent {
    Started,
    Stopped,
    OrdersGenerated(Vec<OrderAction>),
    ParametersUpdated,
    Error(String),
}

#[derive(Debug, Clone)]
pub enum ConnectionEvent {
    Connected,
    Disconnected,
    Reconnecting,
    Error(String),
    MessageReceived,
    MessageSent,
}

#[derive(Debug, Clone)]
pub enum RiskEvent {
    LimitExceeded { limit_type: String, current_value: String, limit_value: String },
    PositionSizeWarning { current_size: String, limit: String },
    PnlWarning { current_pnl: String, limit: String },
    OrderRejected { order_id: u128, reason: String },
}

#[derive(Debug, Clone)]
pub enum SystemLevelEvent {
    Startup,
    Shutdown,
    ConfigurationChanged,
    PerformanceMetric { metric_name: String, value: Decimal, unit: String },
    Error { component: String, error: String },
}

#[derive(Debug, Clone, Copy, PartialEq, Eq, Structural, Hash)]
pub enum EventPriority {
    Low,
    Normal,
    High,
    Critical,
}

impl EventPriority {
    /// The urgency of a priority as a number, the least urgent lowest.
    pub open spec fn spec_level(self) -> int {
        match self {
            EventPriority::Low => 0,
            EventPriority::Normal => 1,
            EventPriority::High => 2,
            EventPriority::Critical => 3,
        }
    }

    /// The urgency of a priority as a number, the least urgent lowest.
    pub fn level(self) -> (r: u8)
        ensures
            r == self.spec_level(),
    {
        match self {
            EventPriority::Low => 0,
            EventPriority::Normal => 1,
            EventPriority::High => 2,
            EventPriority::Critical => 3,
        }
    }
}

#[derive(Debug, Clone)]
pub struct EventMetadata {
    pub event_id: u128,
    pub timestamp: i64,
    pub source: String,
    pub priority: EventPriority,
}

#[derive(Debug, Clone)]
#[allow(inconsistent_fields)]
pub enum SystemEvent {
    MarketData { symbol: String, data: TobMsg, timestamp: i64 },
    Order(OrderEvent),
    Position(PositionEvent),
    Strategy { strategy_name: String, event: StrategyEvent, timestamp: i64 },
    Connection { connection_id: String, event: ConnectionEvent, timestamp: i64 },
    Risk { symbol: String, event: RiskEvent, timestamp: i64 },
    System { event: SystemLevelEvent, timestamp: i64 },
}

impl SystemEvent {
    /// The event that tells of market data for a symbol, stamped with the present time.
    pub fn new_market_data(symbol: String, data: TobMsg) -> (r: Self)
        ensures
            r matches SystemEvent::MarketData { symbol: s, data: d, .. } && s == symbol && d == data,
    {
        SystemEvent::MarketData { symbol, data, timestamp: utc_now_millis() }
    }

    /// The event that tells of a strategy, stamped with the present time.
    pub fn new_strategy_event(strategy_name: String, event: StrategyEvent) -> (r: Self)
        ensures
            r matches SystemEvent::Strategy { strategy_name: n, event: e, .. } && n == strategy_name
                && e == event,
    {
        SystemEvent::Strategy { strategy_name, event, timestamp: utc_now_millis() }
    }

    /// The event that tells of a connection, stamped with the present time.
    pub fn new_connection_event(connection_id: String, event: ConnectionEvent) -> (r: Self)
        ensures
            r matches SystemEvent::Connection { connection_id: c, event: e, .. } && c
                == connection_id && e == event,
    {
        SystemEvent::Connection { connection_id, event, timestamp: utc_now_millis() }
    }

    /// The event that tells of a risk notice for a symbol, stamped with the present time.
    pub fn new_risk_event(symbol: String, event: RiskEvent) -> (r: Self)
        ensures
            r matches SystemEvent::Risk { symbol: s, event: e, .. } && s == symbol && e == event,
    {
        SystemEvent::Risk { symbol, event, timestamp: utc_now_millis() }
    }

    /// The event that tells of the system, stamped with the present time.
    pub fn new_system_event(event: SystemLevelEvent) -> (r: Self)
        ensures
            r matches SystemEvent::System { event: e, .. } && e == event,
    {
        SystemEvent::System { event, timestamp: utc_now_millis() }
    }

    /// How urgent an event is: errors of the system are critical; risk
    /// events and the errors of connections and strategies are high; market
    /// data are low; all else is normal.
    pub open spec fn spec_priority(&self) -> EventPriority {
        match self {
            SystemEvent::Risk { .. } => EventPriority::High,
            SystemEvent::System { event: SystemLevelEvent::Error { .. }, .. } =>
                EventPriority::Critical,
            SystemEvent::Connection { event: ConnectionEvent::Error(_), .. } => EventPriority::High,
            SystemEvent::Strategy { event: StrategyEvent::Error(_), .. } => EventPriority::High,
            SystemEvent::MarketData { .. } => EventPriority::Low,
            _ => EventPriority::Normal,
        }
    }

    /// How urgent the event is.
    #[verifier::when_used_as_spec(spec_priority)]
    pub fn priority(&self) -> (r: EventPriority)
        ensures
            r == self.spec_priority(),
    {
        match self {
            SystemEvent::Risk { .. } => EventPriority::High,
            SystemEvent::System { event: SystemLevelEvent::Error { .. }, .. } =>
                EventPriority::Critical,
            SystemEvent::Connection { event: ConnectionEvent::Error(_), .. } => EventPriority::High,
            SystemEvent::Strategy { event: StrategyEvent::Error(_), .. } => EventPriority::High,
            SystemEvent::MarketData { .. } => EventPriority::Low,
            _ => EventPriority::Normal,
        }
    }

    /// The part of the engine that an event comes from.
    pub open spec fn spec_source(&self) -> Seq<char> {
        match self {
            SystemEvent::MarketData { .. } => "market_data"@,
            SystemEvent::Order(_) => "order_manager"@,
            SystemEvent::Position(_) => "position_manager"@,
            SystemEvent::Strategy { strategy_name, .. } => "strategy:"@ + strategy_name@,
            SystemEvent::Connection { connection_id, .. } => "connection:"@ + connection_id@,
            SystemEvent::Risk { .. } => "risk_manager"@,
            SystemEvent::System { .. } => "system"@,
        }
    }

    /// The part of the engine that the event comes from.
    pub fn source(&self) -> (r: String)
        ensures
            r@ == self.spec_source(),
    {
        match self {
            SystemEvent::MarketData { .. } => "market_data".to_string(),
            SystemEvent::Order(_) => "order_manager".to_string(),
            SystemEvent::Position(_) => "position_manager".to_string(),
            SystemEvent::Strategy { strategy_name, .. } => join(
                "strategy:",
                strategy_name.as_str(),
            ),
            SystemEvent::Connection { connection_id, .. } => join(
                "connection:",
                connection_id.as_str(),
            ),
            SystemEvent::Risk { .. } => "risk_manager".to_string(),
            SystemEvent::System { .. } => "system".to_string(),
        }
    }
}

} // verus!
