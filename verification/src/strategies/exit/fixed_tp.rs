//! Exit at a fixed take-profit target.

use vstd::prelude::*;

use crate::algorithms::{spec_volatility, spec_volatility_factor, Algorithms};
use crate::evaluation::position::{Action, Position, StrategyAttributes};
use crate::evaluation::signal::{Signal, SignalResult};
use crate::fixed::{
    add_fixed, mul_fixed, scale_fixed, spec_add_fixed, spec_mul_fixed, spec_scale_fixed,
    spec_sub_fixed, sub_fixed,
};
use crate::prices::price::{Ohlc, Price, PricePoint};
use crate::strategies::exit::exit::{
    exit_side, exit_side_type, favourable, favourable_type, Exit,
};

verus! {

/// Closes at a take-profit target that is fixed when the position opens.
#[derive(Debug, Clone, Copy, PartialEq, Eq, Structural)]
pub struct FixedTP {
    pub tp_factor: i64,
    pub vol_timeframe: i64,
}

impl FixedTP {
    pub fn new(tp_factor: i64, vol_timeframe: i64) -> (r: FixedTP)
        ensures
            r == (FixedTP { tp_factor, vol_timeframe }),
    {
        FixedTP { tp_factor, vol_timeframe }
    }

    /// The target before volatility moves it: the first target of the
    /// signal, or, without one, twice the distance to the stop-loss beyond
    /// the close at which the position opens.
    pub open spec fn given_target(signal: Signal, prices: Seq<PricePoint>) -> i64 {
        if signal.take_profit@.len() > 0 {
            signal.take_profit@[0]
        } else {
            let price = prices.last().value(exit_side_type(signal.action, Ohlc::Close));
            match signal.action {
                Action::Buy => spec_add_fixed(
                    price,
                    spec_scale_fixed(spec_sub_fixed(price, signal.stop_loss), 2),
                ),
                Action::Sell => spec_sub_fixed(
                    price,
                    spec_scale_fixed(spec_sub_fixed(signal.stop_loss, price), 2),
                ),
            }
        }
    }

    /// The target of a signal that opens on the last quote of the series.
    pub open spec fn target(&self, signal: Signal, prices: Seq<PricePoint>) -> i64 {
        spec_mul_fixed(
            Self::given_target(signal, prices),
            spec_volatility_factor(
                signal.action,
                spec_volatility(
                    prices,
                    exit_side_type(signal.action, Ohlc::Close),
                    self.vol_timeframe,
                ),
                self.tp_factor,
            ),
        )
    }

    /// The target is hit when the favourable extreme of the last quote is
    /// at or beyond it.
    pub open spec fn target_hit(action: Action, last: PricePoint, target: i64) -> Option<i64> {
        let price = last.value(favourable_type(action));
        match action {
            Action::Buy => if price >= target {
                Some(target)
            } else {
                None
            },
            Action::Sell => if price <= target {
                Some(target)
            } else {
                None
            },
        }
    }
}

impl Exit for FixedTP {
    open spec fn open_attributes(
        &self,
        signal: Signal,
        position: Position,
        prices: Seq<PricePoint>,
    ) -> StrategyAttributes {
        StrategyAttributes {
            take_profit: Some(self.target(signal, prices)),
            ..position.strategy_attributes
        }
    }

    open spec fn exit_ready(&self, attributes: StrategyAttributes) -> bool {
        attributes.take_profit.is_some()
    }

    open spec fn exit_attributes(
        &self,
        signal: Signal,
        position: Position,
        prices: Seq<PricePoint>,
    ) -> StrategyAttributes {
        position.strategy_attributes
    }

    open spec fn exit_price(
        &self,
        signal: Signal,
        position: Position,
        prices: Seq<PricePoint>,
    ) -> Option<i64> {
        Self::target_hit(
            signal.action,
            prices.last(),
            position.strategy_attributes.take_profit.unwrap(),
        )
    }

    fn is_exit_ready(&self, attributes: &StrategyAttributes) -> (r: bool) {
        attributes.take_profit.is_some()
    }

    fn on_open(&self, signal_result: &mut SignalResult, prices: &[PricePoint]) {
        let action = signal_result.signal.action;
        let price_type = exit_side(action, Ohlc::Close);
        let volatility = Algorithms::calculate_volatility(&price_type, prices, self.vol_timeframe);
        let take_profit_given = if signal_result.signal.take_profit.len() > 0 {
            signal_result.signal.take_profit[0]
        } else {
            let price = prices[prices.len() - 1].get(&price_type);
            match action {
                Action::Buy => add_fixed(
                    price,
                    scale_fixed(sub_fixed(price, signal_result.signal.stop_loss), 2),
                ),
                Action::Sell => sub_fixed(
                    price,
                    scale_fixed(sub_fixed(signal_result.signal.stop_loss, price), 2),
                ),
            }
        };
        let take_profit = mul_fixed(
            take_profit_given,
            Algorithms::calculate_volatility_factor(action, volatility, self.tp_factor),
        );
        signal_result.position.strategy_attributes.take_profit = Some(take_profit);
    }

    fn check_exit(
        &self,
        signal_result: &mut SignalResult,
        prices: &[PricePoint],
    ) -> (r: Option<i64>) {
        let action = signal_result.signal.action;
        let target = signal_result.position.strategy_attributes.take_profit.unwrap();
        let price = prices[prices.len() - 1].get(&favourable(action));
        match action {
            Action::Buy => if price >= target {
                Some(target)
            } else {
                None
            },
            Action::Sell => if price <= target {
                Some(target)
            } else {
                None
            },
        }
    }
}

} // verus!
