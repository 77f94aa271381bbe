//! Rules that decide when a position opens.

pub mod bollinger;
pub mod entry;
pub mod immediate;
pub mod volatility_mean;
pub mod volatility_pullback;
