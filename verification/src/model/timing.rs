//! Timing: times, aggregates and comparisons.
pub mod aggregate;
pub mod comparison;
pub mod time;

pub use time::Time;
