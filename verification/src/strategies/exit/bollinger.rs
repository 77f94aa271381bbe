//! Exit at a band around the trailing mean.

use vstd::prelude::*;
use vstd::slice::slice_subrange;

use crate::algorithms::{spec_mean, spec_standard_deviation, Algorithms};
use crate::evaluation::position::{Action, Position, StrategyAttributes};
use crate::evaluation::signal::{Signal, SignalResult};
use crate::fixed::{
    add_fixed, fixed_from_int, mul_fixed, spec_add_fixed, spec_fixed_from_int, spec_mul_fixed,
    spec_sub_fixed, sub_fixed,
};
use crate::prices::price::{times_of, Ohlc, Price, PricePoint};
use crate::strategies::exit::exit::{exit_side, exit_side_type, favourable, favourable_type, Exit};

verus! {

/// Milliseconds in the most recent minute.
pub const LAST_MINUTE_MILLIS: u64 = 60_000;

/// Index of the bar with which the most recent minute begins: walking back
/// from index `i`, the first bar that is a minute or more older than the
/// last one, or the first bar of the series.
pub open spec fn minute_start(times: Seq<u64>, i: int) -> int
    decreases i,
{
    if 0 < i < times.len() && times.last() - times[i] < LAST_MINUTE_MILLIS {
        minute_start(times, i - 1)
    } else {
        i
    }
}

/// Closes when the price crosses a band around the trailing mean from the
/// near side: the two-minute mean of the favourable extreme still inside
/// the border, the mean over the most recent minute at or beyond it.
#[derive(Debug, Clone, Copy, PartialEq, Eq, Structural)]
pub struct Bollinger {
    pub std_dev_factor: i64,
    pub period_minutes: i32,
}

impl Bollinger {
    pub fn new(std_dev_factor: i64, period_minutes: i32) -> (r: Bollinger)
        ensures
            r == (Bollinger { std_dev_factor, period_minutes }),
    {
        Bollinger { std_dev_factor, period_minutes }
    }

    /// The band border of this direction on the series: the mean plus
    /// `std_dev_factor` standard deviations for a buy, the mean less as many
    /// for a sell.
    pub open spec fn border(&self, action: Action, prices: Seq<PricePoint>) -> i64 {
        let price_type = exit_side_type(action, Ohlc::Close);
        let minutes = spec_fixed_from_int(self.period_minutes as int);
        let mean = spec_mean(prices, price_type, minutes);
        let width = spec_mul_fixed(
            spec_standard_deviation(prices, price_type, minutes, mean),
            self.std_dev_factor,
        );
        match action {
            Action::Buy => spec_add_fixed(mean, width),
            Action::Sell => spec_sub_fixed(mean, width),
        }
    }

    /// Mean of the favourable extreme over the last two minutes.
    pub open spec fn two_minute_mean(action: Action, prices: Seq<PricePoint>) -> i64 {
        spec_mean(prices, favourable_type(action), spec_fixed_from_int(2))
    }

    /// Mean of the favourable extreme over the last minute of the bars from
    /// the one with which the most recent minute begins.
    pub open spec fn last_minute_mean(action: Action, prices: Seq<PricePoint>) -> i64 {
        spec_mean(
            prices.subrange(
                minute_start(times_of(prices), prices.len() - 1),
                prices.len() as int,
            ),
            favourable_type(action),
            spec_fixed_from_int(1),
        )
    }
}

impl Exit for Bollinger {
    open spec fn open_attributes(
        &self,
        signal: Signal,
        position: Position,
        prices: Seq<PricePoint>,
    ) -> StrategyAttributes {
        position.strategy_attributes
    }

    open spec fn exit_ready(&self, attributes: StrategyAttributes) -> bool {
        true
    }

    open spec fn exit_attributes(
        &self,
        signal: Signal,
        position: Position,
        prices: Seq<PricePoint>,
    ) -> StrategyAttributes {
        position.strategy_attributes
    }

    open spec fn exit_price(
        &self,
        signal: Signal,
        position: Position,
        prices: Seq<PricePoint>,
    ) -> Option<i64> {
        let border = self.border(signal.action, prices);
        let before = Self::two_minute_mean(signal.action, prices);
        let now = Self::last_minute_mean(signal.action, prices);
        match signal.action {
            Action::Buy => if before < border && now >= border {
                Some(border)
            } else {
                None
            },
            Action::Sell => if before > border && now <= border {
                Some(border)
            } else {
                None
            },
        }
    }

    fn is_exit_ready(&self, attributes: &StrategyAttributes) -> (r: bool) {
        true
    }

    fn on_open(&self, signal_result: &mut SignalResult, prices: &[PricePoint]) {
    }

    fn check_exit(
        &self,
        signal_result: &mut SignalResult,
        prices: &[PricePoint],
    ) -> (r: Option<i64>) {
        let action = signal_result.signal.action;
        let price_type = exit_side(action, Ohlc::Close);
        let minutes = fixed_from_int(self.period_minutes as i64);
        let mean = Algorithms::calculate_mean(&price_type, prices, minutes);
        let std_dev = Algorithms::calculate_standard_deviation(&price_type, prices, minutes, mean);
        let n = prices.len();
        let last_ts = prices[n - 1].ts();
        let ghost times = times_of(prices@);
        let mut index: usize = n - 1;
        while index > 0 && last_ts as i128 - (prices[index].ts() as i128)
            < LAST_MINUTE_MILLIS as i128
            invariant
                index < n,
                n == prices@.len(),
                times == times_of(prices@),
                last_ts == times.last(),
                minute_start(times, index as int) == minute_start(times, n - 1),
            decreases index,
        {
            index = index - 1;
        }
        let price_type_close = favourable(action);
        let mean_1m = Algorithms::calculate_mean(&price_type_close, prices, fixed_from_int(2));
        let mean_1m_last = Algorithms::calculate_mean(
            &price_type_close,
            slice_subrange(prices, index, n),
            fixed_from_int(1),
        );
        let width = mul_fixed(std_dev, self.std_dev_factor);
        match action {
            Action::Buy => {
                let border = add_fixed(mean, width);
                if mean_1m < border && mean_1m_last >= border {
                    Some(border)
                } else {
                    None
                }
            },
            Action::Sell => {
                let border = sub_fixed(mean, width);
                if mean_1m > border && mean_1m_last <= border {
                    Some(border)
                } else {
                    None
                }
            },
        }
    }
}

} // verus!
