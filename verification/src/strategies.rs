//! Entry, exit and filter rules, and how a strategy is built from names.

pub mod entry;
pub mod exit;
pub mod filter;
pub mod strategy;
