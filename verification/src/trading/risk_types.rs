//! The limits, circuit breakers and events of the risk engine.

use crate::numeric::decimal::{Decimal, Notional};
use vstd::prelude::*;

verus! {

#[derive(Debug)]
pub struct PositionLimit {
    pub symbol: String,
    pub max_long: Decimal,
    pub max_short: Decimal,
    pub max_net: Decimal,
    pub current_long: Decimal,
    pub current_short: Decimal,
    pub current_net: Decimal,
}

impl Clone for PositionLimit {
    fn clone(&self) -> (r: Self)
        ensures
            r == *self,
    {
        PositionLimit {
            symbol: self.symbol.clone(),
            max_long: self.max_long,
            max_short: self.max_short,
            max_net: self.max_net,
            current_long: self.current_long,
            current_short: self.current_short,
            current_net: self.current_net,
        }
    }
}

#[derive(Debug)]
pub struct ExposureLimit {
    pub symbol: String,
    pub max_notional: Notional,
    pub current_notional: Notional,
    pub max_leverage: Decimal,
    pub current_leverage: Decimal,
}

impl Clone for ExposureLimit {
    fn clone(&self) -> (r: Self)
        ensures
            r == *self,
    {
        ExposureLimit {
            symbol: self.symbol.clone(),
            max_notional: self.max_notional,
            current_notional: self.current_notional,
            max_leverage: self.max_leverage,
            current_leverage: self.current_leverage,
        }
    }
}

#[derive(Debug)]
pub struct VolatilityLimit {
    pub symbol: String,
    pub max_spread_bps: u32,
    pub max_price_change_bps: u32,
    pub current_spread_bps: u32,
    pub last_price: Decimal,
    pub price_change_bps: u32,
}

impl Clone for VolatilityLimit {
    fn clone(&self) -> (r: Self)
        ensures
            r == *self,
    {
        VolatilityLimit {
            symbol: self.symbol.clone(),
            max_spread_bps: self.max_spread_bps,
            max_price_change_bps: self.max_price_change_bps,
            current_spread_bps: self.current_spread_bps,
            last_price: self.last_price,
            price_change_bps: self.price_change_bps,
        }
    }
}

#[derive(Debug, Clone, Copy, PartialEq, Eq, Structural, Hash)]
pub enum CircuitBreakerType {
    MaxDailyLoss,
    MaxPositionSize,
    MaxExposure,
    MaxVolatility,
    MaxTradesPerMinute,
    MaxOrdersPerSecond,
}

/// A limit that, once tripped, blocks new orders for its symbol until its
/// cooldown has run out. Times are in milliseconds.
#[derive(Debug)]
pub struct CircuitBreaker {
    pub id: String,
    pub symbol: String,
    pub trigger_type: CircuitBreakerType,
    pub threshold: Decimal,
    pub current_value: Decimal,
    pub is_triggered: bool,
    pub triggered_at: Option<i64>,
    pub cooldown_duration: u64,
}

impl Clone for CircuitBreaker {
    fn clone(&self) -> (r: Self)
        ensures
            r == *self,
    {
        CircuitBreaker {
            id: self.id.clone(),
            symbol: self.symbol.clone(),
            trigger_type: self.trigger_type,
            threshold: self.threshold,
            current_value: self.current_value,
            is_triggered: self.is_triggered,
            triggered_at: self.triggered_at,
            cooldown_duration: self.cooldown_duration,
        }
    }
}

#[derive(Debug, Clone, Copy)]
pub struct RiskMetrics {
    pub total_exposure: Notional,
    pub total_pnl: Notional,
    pub max_drawdown: Notional,
    pub sharpe_ratio: Decimal,
    pub win_rate: Decimal,
    pub avg_trade_size: Decimal,
    pub last_updated: i64,
}

#[derive(Debug, Clone, Copy, PartialEq, Eq, Structural, Hash)]
pub enum RiskSeverity {
    Low,
    Medium,
    High,
    Critical,
}

#[derive(Debug)]
#[allow(inconsistent_fields)]
pub enum RiskEvent {
    LimitExceeded {
        limit_type: String,
        symbol: String,
        current_value: Notional,
        limit_value: Notional,
        severity: RiskSeverity,
    },
    CircuitBreakerTriggered {
        breaker_id: String,
        symbol: String,
        trigger_type: CircuitBreakerType,
        threshold: Decimal,
        current_value: Decimal,
    },
    RiskWarning { message: String, symbol: String, severity: RiskSeverity },
    PositionRisk {
        symbol: String,
        position_size: Decimal,
        exposure: Notional,
        pnl: Notional,
        risk_score: Decimal,
    },
}

/// A risk event with its texts as characters and its amounts as raw units.
#[allow(inconsistent_fields)]
pub enum RiskEventView {
    LimitExceeded {
        limit_type: Seq<char>,
        symbol: Seq<char>,
        current_value: int,
        limit_value: int,
        severity: RiskSeverity,
    },
    CircuitBreakerTriggered {
        breaker_id: Seq<char>,
        symbol: Seq<char>,
        trigger_type: CircuitBreakerType,
        threshold: int,
        current_value: int,
    },
    RiskWarning { message: Seq<char>, symbol: Seq<char>, severity: RiskSeverity },
    PositionRisk { symbol: Seq<char>, position_size: int, exposure: int, pnl: int, risk_score: int },
}

impl View for RiskEvent {
    type V = RiskEventView;

    open spec fn view(&self) -> RiskEventView {
        match *self {
            RiskEvent::LimitExceeded {
                limit_type,
                symbol,
                current_value,
                limit_value,
                severity,
            } => RiskEventView::LimitExceeded {
                limit_type: limit_type@,
                symbol: symbol@,
                current_value: current_value@,
                limit_value: limit_value@,
                severity,
            },
            RiskEvent::CircuitBreakerTriggered {
                breaker_id,
                symbol,
                trigger_type,
                threshold,
                current_value,
            } => RiskEventView::CircuitBreakerTriggered {
                breaker_id: breaker_id@,
                symbol: symbol@,
                trigger_type,
                threshold: threshold@,
                current_value: current_value@,
            },
            RiskEvent::RiskWarning { message, symbol, severity } => RiskEventView::RiskWarning {
                message: message@,
                symbol: symbol@,
                severity,
            },
            RiskEvent::PositionRisk {
                symbol,
                position_size,
                exposure,
                pnl,
                risk_score,
            } => RiskEventView::PositionRisk {
                symbol: symbol@,
                position_size: position_size@,
                exposure: exposure@,
                pnl: pnl@,
                risk_score: risk_score@,
            },
        }
    }
}

impl Clone for RiskEvent {
    fn clone(&self) -> (r: Self)
        ensures
            r == *self,
    {
        match self {
            RiskEvent::LimitExceeded {
                limit_type,
                symbol,
                current_value,
                limit_value,
                severity,
            } => RiskEvent::LimitExceeded {
                limit_type: limit_type.clone(),
                symbol: symbol.clone(),
                current_value: *current_value,
                limit_value: *limit_value,
                severity: *severity,
            },
            RiskEvent::CircuitBreakerTriggered {
                breaker_id,
                symbol,
                trigger_type,
                threshold,
                current_value,
            } => RiskEvent::CircuitBreakerTriggered {
                breaker_id: breaker_id.clone(),
                symbol: symbol.clone(),
                trigger_type: *trigger_type,
                threshold: *threshold,
                current_value: *current_value,
            },
            RiskEvent::RiskWarning { message, symbol, severity } => RiskEvent::RiskWarning {
                message: message.clone(),
                symbol: symbol.clone(),
                severity: *severity,
            },
            RiskEvent::PositionRisk {
                symbol,
                position_size,
                exposure,
                pnl,
                risk_score,
            } => RiskEvent::PositionRisk {
                symbol: symbol.clone(),
                position_size: *position_size,
                exposure: *exposure,
                pnl: *pnl,
                risk_score: *risk_score,
            },
        }
    }
}

/// A list of events as their views.
pub open spec fn events_view(events: Seq<RiskEvent>) -> Seq<RiskEventView> {
    Seq::new(events.len(), |i: int| events[i]@)
}

} // verus!
