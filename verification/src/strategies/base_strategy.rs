//! What every trading strategy offers to the control loop.

use crate::trading::order_book::OrderBook;
use crate::trading::types::{Fill, Order, OrderAction, Position, RiskLimits};
use vstd::prelude::*;

verus! {

/// A strategy is told of market data, order updates, position updates and
/// fills, and answers each with the actions it wants taken.
pub trait TradingStrategy {
    fn on_market_data(&mut self, order_book: &OrderBook) -> Vec<OrderAction>;

    fn on_order_update(&mut self, order: &Order) -> Vec<OrderAction>;

    fn on_position_update(&mut self, position: &Position) -> Vec<OrderAction>;

    fn on_fill(&mut self, fill: &Fill) -> Vec<OrderAction>;

    fn get_name(&self) -> &str;

    fn is_enabled(&self) -> bool;

    fn set_enabled(&mut self, enabled: bool);
}

#[derive(Debug)]
pub struct StrategyConfig {
    pub name: String,
    pub enabled: bool,
    pub symbol: String,
    pub risk_limits: RiskLimits,
}

impl Clone for StrategyConfig {
    fn clone(&self) -> (r: Self)
        ensures
            r == *self,
    {
        StrategyConfig {
            name: self.name.clone(),
            enabled: self.enabled,
            symbol: self.symbol.clone(),
            risk_limits: self.risk_limits,
        }
    }
}

impl Default for StrategyConfig {
    fn default() -> (r: Self)
        ensures
            r.name@ == "base_strategy"@,
            !r.enabled,
            r.symbol@ == "HYPE"@,
    {
        StrategyConfig {
            name: "base_strategy".to_string(),
            enabled: false,
            symbol: "HYPE".to_string(),
            risk_limits: RiskLimits::default(),
        }
    }
}

} // verus!
