//! Exit at a trailing stop.

use vstd::prelude::*;

use crate::evaluation::position::{Action, Position, StrategyAttributes};
use crate::evaluation::signal::{Signal, SignalResult};
use crate::fixed::{
    add_fixed, mul_fixed, spec_add_fixed, spec_mul_fixed, spec_sub_fixed, sub_fixed, SCALE,
};
use crate::prices::price::{Price, PricePoint};
use crate::strategies::exit::exit::{adverse, adverse_type, favourable, favourable_type, Exit};

verus! {

/// Closes at a stop that trails the best price seen since the position
/// opened.
#[derive(Debug, Clone, Copy, PartialEq, Eq, Structural)]
pub struct TrailingStop {
    pub sl_factor: i64,
}

impl TrailingStop {
    pub fn new(sl_factor: i64) -> (r: TrailingStop)
        ensures
            r == (TrailingStop { sl_factor }),
    {
        TrailingStop { sl_factor }
    }

    /// The best price after the last quote: the favourable extreme of the
    /// quote where it beats the best price so far.
    pub open spec fn next_extreme(action: Action, extreme: i64, last: PricePoint) -> i64 {
        let price = last.value(favourable_type(action));
        match action {
            Action::Buy => if price > extreme {
                price
            } else {
                extreme
            },
            Action::Sell => if price < extreme {
                price
            } else {
                extreme
            },
        }
    }

    /// The stop that belongs to a best price: under it by `sl_factor` of it
    /// for a buy, over it for a sell.
    pub open spec fn stop_level(&self, action: Action, extreme: i64) -> i64 {
        let factor = match action {
            Action::Buy => spec_sub_fixed(SCALE, self.sl_factor),
            Action::Sell => spec_add_fixed(SCALE, self.sl_factor),
        };
        spec_mul_fixed(extreme, factor)
    }

    /// The stop closes the position when the adverse extreme of the last
    /// quote reaches it, unless that extreme or the stop itself lies on the
    /// losing side of the open price.
    pub open spec fn stop_hit(
        action: Action,
        last: PricePoint,
        stop: i64,
        open: i64,
    ) -> Option<i64> {
        let check = last.value(adverse_type(action));
        match action {
            Action::Buy => if check < open || stop < open {
                None
            } else if check <= stop {
                Some(stop)
            } else {
                None
            },
            Action::Sell => if check > open || stop > open {
                None
            } else if check >= stop {
                Some(stop)
            } else {
                None
            },
        }
    }
}

impl Exit for TrailingStop {
    open spec fn open_attributes(
        &self,
        signal: Signal,
        position: Position,
        prices: Seq<PricePoint>,
    ) -> StrategyAttributes {
        StrategyAttributes {
            extreme: Some(prices.last().value(favourable_type(signal.action))),
            ..position.strategy_attributes
        }
    }

    open spec fn exit_ready(&self, attributes: StrategyAttributes) -> bool {
        attributes.extreme.is_some()
    }

    open spec fn exit_attributes(
        &self,
        signal: Signal,
        position: Position,
        prices: Seq<PricePoint>,
    ) -> StrategyAttributes {
        let extreme = Self::next_extreme(
            signal.action,
            position.strategy_attributes.extreme.unwrap(),
            prices.last(),
        );
        StrategyAttributes {
            extreme: Some(extreme),
            sl: Some(self.stop_level(signal.action, extreme)),
            ..position.strategy_attributes
        }
    }

    open spec fn exit_price(
        &self,
        signal: Signal,
        position: Position,
        prices: Seq<PricePoint>,
    ) -> Option<i64> {
        let extreme = Self::next_extreme(
            signal.action,
            position.strategy_attributes.extreme.unwrap(),
            prices.last(),
        );
        Self::stop_hit(
            signal.action,
            prices.last(),
            self.stop_level(signal.action, extreme),
            position.price_open.unwrap(),
        )
    }

    fn is_exit_ready(&self, attributes: &StrategyAttributes) -> (r: bool) {
        attributes.extreme.is_some()
    }

    fn on_open(&self, signal_result: &mut SignalResult, prices: &[PricePoint]) {
        let price = prices[prices.len() - 1].get(&favourable(signal_result.signal.action));
        signal_result.position.strategy_attributes.extreme = Some(price);
    }

    fn check_exit(
        &self,
        signal_result: &mut SignalResult,
        prices: &[PricePoint],
    ) -> (r: Option<i64>) {
        let action = signal_result.signal.action;
        let last = &prices[prices.len() - 1];
        let mut extreme = signal_result.position.strategy_attributes.extreme.unwrap();
        let price = last.get(&favourable(action));
        let better = match action {
            Action::Buy => price > extreme,
            Action::Sell => price < extreme,
        };
        if better {
            extreme = price;
        }
        signal_result.position.strategy_attributes.extreme = Some(extreme);
        let factor = match action {
            Action::Buy => sub_fixed(SCALE, self.sl_factor),
            Action::Sell => add_fixed(SCALE, self.sl_factor),
        };
        let stop_loss = mul_fixed(extreme, factor);
        signal_result.position.strategy_attributes.sl = Some(stop_loss);
        let open = signal_result.position.price_open.unwrap();
        let check = last.get(&adverse(action));
        match action {
            Action::Buy => if check < open || stop_loss < open {
                None
            } else if check <= stop_loss {
                Some(stop_loss)
            } else {
                None
            },
            Action::Sell => if check > open || stop_loss > open {
                None
            } else if check >= stop_loss {
                Some(stop_loss)
            } else {
                None
            },
        }
    }
}

} // verus!
