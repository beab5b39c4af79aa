//! Fixed-point numbers.

pub mod decimal;
