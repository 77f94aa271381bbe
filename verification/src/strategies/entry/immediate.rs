//! Entry at once.

use vstd::prelude::*;

use crate::evaluation::position::{Position, StrategyAttributes};
use crate::evaluation::signal::{Signal, SignalResult};
use crate::prices::price::{Price, PricePoint};
use crate::strategies::entry::entry::{entry_close, entry_close_type, Entry};

verus! {

/// Opens at once, at the close of the last quote.
#[derive(Debug, Clone, Copy, PartialEq, Eq, Structural)]
pub struct Immediate {}

impl Immediate {
    pub fn new() -> (r: Immediate)
        ensures
            r == (Immediate {  }),
    {
        Immediate {  }
    }
}

impl Entry for Immediate {
    open spec fn init_attributes(
        &self,
        signal: Signal,
        position: Position,
        prices: Seq<PricePoint>,
    ) -> StrategyAttributes {
        position.strategy_attributes
    }

    open spec fn entry_ready(&self, attributes: StrategyAttributes) -> bool {
        true
    }

    open spec fn entry_price(
        &self,
        signal: Signal,
        position: Position,
        prices: Seq<PricePoint>,
    ) -> Option<i64> {
        Some(prices.last().value(entry_close_type(signal.action)))
    }

    fn is_entry_ready(&self, attributes: &StrategyAttributes) -> (r: bool) {
        true
    }

    fn on_init(&self, signal_result: &mut SignalResult, prices: &[PricePoint]) {
    }

    fn check_entry(&self, signal_result: &SignalResult, prices: &[PricePoint]) -> (r: Option<i64>) {
        let price_type = entry_close(signal_result.signal.action);
        Some(prices[prices.len() - 1].get(&price_type))
    }
}

} // verus!
