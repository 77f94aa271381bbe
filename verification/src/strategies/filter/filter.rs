//! What a filter is.

use vstd::prelude::*;

use crate::evaluation::signal::Signal;
use crate::prices::price::PricePoint;

verus! {

/// A rule that rejects signals before they are initiated.
pub trait Filter: Sync + Send {
    /// Whether the signal is rejected on this series.
    spec fn rejects(&self, signal: Signal, prices: Seq<PricePoint>) -> bool;

    /// True rejects the signal.
    fn check_filter(&self, signal: &Signal, prices: &[PricePoint]) -> (r: bool)
        ensures
            r == self.rejects(*signal, prices@),
    ;
}

} // verus!
