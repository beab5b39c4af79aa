//! The messages of the market-data feed.

pub mod hl_msgs;
