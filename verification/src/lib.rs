//! Backtesting of trading signals against recorded price series.

pub mod algorithms;
pub mod evaluation;
pub mod fixed;
pub mod lookup;
pub mod prices;
pub mod strategies;
