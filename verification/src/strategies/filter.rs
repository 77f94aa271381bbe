//! Rules that reject a signal before it is initiated.

pub mod filter;
pub mod no_filter;
