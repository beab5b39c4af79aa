//! Keyed stores and the cache of market-data snapshots.

pub mod id_map;
pub mod index;
pub mod symbol_map;
pub mod tob_cache;
