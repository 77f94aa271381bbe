//! Recorded quotes and the table that holds them by symbol.

pub mod price;
pub mod price_manager;
pub mod price_ohlc;
pub mod price_tick;
