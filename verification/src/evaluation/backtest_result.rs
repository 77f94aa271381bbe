//! The statistics of one source.

use vstd::prelude::*;

use crate::evaluation::position::Position;

verus! {

/// How many results were left out of the accounts, by reason.
#[derive(Debug, Clone, Copy, PartialEq, Eq, Structural)]
pub struct IgnoredCounts {
    pub missing_margin: usize,
    pub price_gap: usize,
    pub no_entry: usize,
    pub end_of_day: usize,
}

/// Statistics of one source.
#[derive(Debug, Clone, PartialEq, Eq)]
pub struct BacktestResult {
    pub profit: i64,
    pub num_trades: usize,
    pub sortino_ratio: i64,
    pub positions: Vec<Position>,
    pub ignored_counts: IgnoredCounts,
    pub hit_rate: i64,
    pub profit_per_day: i64,
}

impl BacktestResult {
    /// The statistics with the given values.
    pub fn new(
        profit: i64,
        num_trades: usize,
        sortino_ratio: i64,
        positions: Vec<Position>,
        ignored_counts: IgnoredCounts,
        hit_rate: i64,
        profit_per_day: i64,
    ) -> (r: Self)
        ensures
            r.profit == profit,
            r.num_trades == num_trades,
            r.sortino_ratio == sortino_ratio,
            r.positions == positions,
            r.ignored_counts == ignored_counts,
            r.hit_rate == hit_rate,
            r.profit_per_day == profit_per_day,
    {
        BacktestResult {
            profit,
            num_trades,
            sortino_ratio,
            positions,
            ignored_counts,
            hit_rate,
            profit_per_day,
        }
    }
}

} // verus!
