//! Entry at the trailing mean, moved by volatility.

use vstd::prelude::*;

use crate::algorithms::{spec_mean, spec_volatility, spec_volatility_factor, Algorithms};
use crate::evaluation::position::{Position, StrategyAttributes};
use crate::evaluation::signal::{Signal, SignalResult};
use crate::fixed::{mul_fixed, spec_mul_fixed};
use crate::prices::price::{Price, PricePoint};
use crate::strategies::entry::entry::{
    border_reached, entry_close, entry_close_type, reach_border, Entry,
};

verus! {

/// Opens at the trailing mean moved by the volatility factor. The border is
/// fixed when the position is initiated.
#[derive(Debug, Clone, Copy, PartialEq, Eq, Structural)]
pub struct VolatilityMean {
    pub entry_factor: i64,
    pub vol_timeframe: i64,
}

impl VolatilityMean {
    pub fn new(entry_factor: i64, vol_timeframe: i64) -> (r: VolatilityMean)
        ensures
            r == (VolatilityMean { entry_factor, vol_timeframe }),
    {
        VolatilityMean { entry_factor, vol_timeframe }
    }

    /// The border that a signal gets on the series at which it is initiated.
    pub open spec fn border(&self, signal: Signal, prices: Seq<PricePoint>) -> i64 {
        let price_type = entry_close_type(signal.action);
        spec_mul_fixed(
            spec_mean(prices, price_type, self.vol_timeframe),
            spec_volatility_factor(
                signal.action,
                spec_volatility(prices, price_type, self.vol_timeframe),
                self.entry_factor,
            ),
        )
    }
}

impl Entry for VolatilityMean {
    open spec fn init_attributes(
        &self,
        signal: Signal,
        position: Position,
        prices: Seq<PricePoint>,
    ) -> StrategyAttributes {
        StrategyAttributes {
            price_to_open: Some(self.border(signal, prices)),
            ..position.strategy_attributes
        }
    }

    open spec fn entry_ready(&self, attributes: StrategyAttributes) -> bool {
        attributes.price_to_open.is_some()
    }

    open spec fn entry_price(
        &self,
        signal: Signal,
        position: Position,
        prices: Seq<PricePoint>,
    ) -> Option<i64> {
        border_reached(
            signal.action,
            prices.last(),
            position.strategy_attributes.price_to_open.unwrap(),
        )
    }

    fn is_entry_ready(&self, attributes: &StrategyAttributes) -> (r: bool) {
        attributes.price_to_open.is_some()
    }

    fn on_init(&self, signal_result: &mut SignalResult, prices: &[PricePoint]) {
        let action = signal_result.signal.action;
        let price_type = entry_close(action);
        let volatility = Algorithms::calculate_volatility(&price_type, prices, self.vol_timeframe);
        let mean = Algorithms::calculate_mean(&price_type, prices, self.vol_timeframe);
        let price_to_open = mul_fixed(
            mean,
            Algorithms::calculate_volatility_factor(action, volatility, self.entry_factor),
        );
        signal_result.position.strategy_attributes.price_to_open = Some(price_to_open);
    }

    fn check_entry(&self, signal_result: &SignalResult, prices: &[PricePoint]) -> (r: Option<i64>) {
        let border = signal_result.position.strategy_attributes.price_to_open.unwrap();
        reach_border(signal_result.signal.action, &prices[prices.len() - 1], border)
    }
}

} // verus!
