//! Text helpers and the messages of the market-data connection.

pub mod text;
pub mod ws_utils;
