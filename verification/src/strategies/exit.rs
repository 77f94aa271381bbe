//! Rules that decide when a position closes.

pub mod bollinger;
pub mod exit;
pub mod fixed_tp;
pub mod trailing_stop;
