//! The events of the engine and the bus that carries them.

pub mod event_bus;
pub mod types;
