//! Entry at a band around the trailing mean.

use vstd::prelude::*;

use crate::algorithms::{spec_mean, spec_standard_deviation, Algorithms};
use crate::evaluation::position::{Action, Position, StrategyAttributes};
use crate::evaluation::signal::{Signal, SignalResult};
use crate::fixed::{
    add_fixed, fixed_from_int, mul_fixed, spec_add_fixed, spec_fixed_from_int, spec_mul_fixed,
    spec_sub_fixed, sub_fixed,
};
use crate::prices::price::{Price, PricePoint};
use crate::strategies::entry::entry::{
    border_reached, entry_close, entry_close_type, reach_border, Entry,
};

verus! {

/// Opens when the price crosses a band around the trailing mean: the mean
/// less `std_dev_factor` standard deviations for a buy, the mean plus as
/// many for a sell.
#[derive(Debug, Clone, Copy, PartialEq, Eq, Structural)]
pub struct Bollinger {
    pub std_dev_factor: i64,
    pub period_minutes: i32,
}

impl Bollinger {
    pub fn new(std_dev_factor: i64, period_minutes: i32) -> (r: Bollinger)
        ensures
            r == (Bollinger { std_dev_factor, period_minutes }),
    {
        Bollinger { std_dev_factor, period_minutes }
    }

    /// The band border of this direction on the series.
    pub open spec fn border(&self, action: Action, prices: Seq<PricePoint>) -> i64 {
        let minutes = spec_fixed_from_int(self.period_minutes as int);
        let mean = spec_mean(prices, entry_close_type(action), minutes);
        let width = spec_mul_fixed(
            spec_standard_deviation(prices, entry_close_type(action), minutes, mean),
            self.std_dev_factor,
        );
        match action {
            Action::Buy => spec_sub_fixed(mean, width),
            Action::Sell => spec_add_fixed(mean, width),
        }
    }
}

impl Entry for Bollinger {
    open spec fn init_attributes(
        &self,
        signal: Signal,
        position: Position,
        prices: Seq<PricePoint>,
    ) -> StrategyAttributes {
        position.strategy_attributes
    }

    open spec fn entry_ready(&self, attributes: StrategyAttributes) -> bool {
        true
    }

    open spec fn entry_price(
        &self,
        signal: Signal,
        position: Position,
        prices: Seq<PricePoint>,
    ) -> Option<i64> {
        border_reached(signal.action, prices.last(), self.border(signal.action, prices))
    }

    fn is_entry_ready(&self, attributes: &StrategyAttributes) -> (r: bool) {
        true
    }

    fn on_init(&self, signal_result: &mut SignalResult, prices: &[PricePoint]) {
    }

    fn check_entry(&self, signal_result: &SignalResult, prices: &[PricePoint]) -> (r: Option<i64>) {
        let action = signal_result.signal.action;
        let price_type = entry_close(action);
        let minutes = fixed_from_int(self.period_minutes as i64);
        let mean = Algorithms::calculate_mean(&price_type, prices, minutes);
        let std_dev = Algorithms::calculate_standard_deviation(&price_type, prices, minutes, mean);
        let width = mul_fixed(std_dev, self.std_dev_factor);
        let border = match action {
            Action::Buy => sub_fixed(mean, width),
            Action::Sell => add_fixed(mean, width),
        };
        reach_border(action, &prices[prices.len() - 1], border)
    }
}

} // verus!
