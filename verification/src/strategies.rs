//! Trading strategies.

pub mod base_strategy;
pub mod market_making;
