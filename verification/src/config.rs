//! The settings of the engine and the templates they start from.

pub mod api_config;
pub mod bot_config;
pub mod risk_config;
pub mod strategy_config;
