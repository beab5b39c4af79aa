//! The order book, the ledgers and the risk engine.

pub mod order_book;
pub mod order_manager;
pub mod position_manager;
pub mod position_math;
pub mod risk_manager;
pub mod risk_types;
pub mod types;
