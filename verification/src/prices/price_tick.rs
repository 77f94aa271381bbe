//! Bid/ask quotes.

use vstd::prelude::*;

use crate::prices::price::{Price, PriceType, Tick};

verus! {

/// A bid/ask quote. Every field of a bar reads as the quote of its side.
#[derive(Debug, Clone, Copy)]
pub struct PriceTick {
    pub time_stamp: u64,
    pub ask: i64,
    pub bid: i64,
}

impl Price for PriceTick {
    open spec fn value(&self, price_type: PriceType) -> i64 {
        match price_type.0 {
            Tick::Ask => self.ask,
            Tick::Bid => self.bid,
        }
    }

    open spec fn time(&self) -> u64 {
        self.time_stamp
    }

    fn get(&self, price_type: &PriceType) -> (r: i64) {
        match price_type.0 {
            Tick::Ask => self.ask,
            Tick::Bid => self.bid,
        }
    }

    fn ts(&self) -> (r: u64) {
        self.time_stamp
    }
}

} // verus!
