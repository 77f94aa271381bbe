//! The filter that rejects nothing.

use vstd::prelude::*;

use crate::evaluation::signal::Signal;
use crate::prices::price::PricePoint;
use crate::strategies::filter::filter::Filter;

verus! {

/// Lets every signal pass.
#[derive(Debug, Clone, Copy, PartialEq, Eq, Structural)]
pub struct NoFilter;

impl NoFilter {
    pub fn new() -> (r: NoFilter)
        ensures
            r == NoFilter,
    {
        NoFilter {  }
    }
}

impl Filter for NoFilter {
    open spec fn rejects(&self, signal: Signal, prices: Seq<PricePoint>) -> bool {
        false
    }

    fn check_filter(&self, signal: &Signal, prices: &[PricePoint]) -> (r: bool) {
        false
    }
}

} // verus!
