//! An automated market-making engine for a derivatives exchange: the
//! order book view, the order and position ledgers, the risk engine, the
//! quote generator, the submission pipeline, the event bus and the
//! decisions of the control loop, each with the contract it is verified
//! against.
//!
//! The library decides and accounts; it does not talk to the exchange.
//! Whoever runs it reads the sockets, sends the requests and sleeps, and
//! hands the library what came back. Prices and sizes are fixed-point
//! numbers of eight decimal places, money is their exact product, times
//! are milliseconds since the Unix epoch and identities are numbers.

pub mod api;
pub mod clock;
pub mod config;
pub mod control_loop;
pub mod datastructures;
pub mod events;
pub mod model;
pub mod numeric;
pub mod strategies;
pub mod trading;
pub mod utils;
