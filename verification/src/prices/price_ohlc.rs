//! Bars.

use vstd::prelude::*;

use crate::prices::price::{Ohlc, Price, PriceType};

verus! {

/// A bar. Both sides read the same four values.
#[derive(Debug, Clone, Copy)]
pub struct PriceOhlc {
    pub time_stamp: u64,
    pub open: i64,
    pub high: i64,
    pub low: i64,
    pub close: i64,
}

impl Price for PriceOhlc {
    open spec fn value(&self, price_type: PriceType) -> i64 {
        match price_type.1 {
            Ohlc::Open => self.open,
            Ohlc::High => self.high,
            Ohlc::Low => self.low,
            Ohlc::Close => self.close,
        }
    }

    open spec fn time(&self) -> u64 {
        self.time_stamp
    }

    fn get(&self, price_type: &PriceType) -> (r: i64) {
        match price_type.1 {
            Ohlc::Open => self.open,
            Ohlc::High => self.high,
            Ohlc::Low => self.low,
            Ohlc::Close => self.close,
        }
    }

    fn ts(&self) -> (r: u64) {
        self.time_stamp
    }
}

} // verus!
