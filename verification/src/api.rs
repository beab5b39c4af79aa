//! What is said to the exchange and what its answers mean.

pub mod account_api;
pub mod auth;
pub mod trading_api;
pub mod types;
pub mod ws_trading;
