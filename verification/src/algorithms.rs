//! Statistics over the trailing window of a price series.

use vstd::prelude::*;
use vstd::slice::slice_subrange;

use crate::evaluation::position::Action;
use crate::evaluation::signal::Signal;
use crate::fixed::{
    add_fixed, average, div_fixed, divide, integer_part, mul_fixed, quotient, spec_add_fixed,
    spec_average, spec_div_fixed, spec_integer_part, spec_mul_fixed, spec_sqrt_fixed,
    spec_sub_fixed, sqrt_fixed, sub_fixed, SCALE,
};
use crate::prices::price::{times_of, values_of, Ohlc, Price, PriceType, Tick};
use crate::prices::price_manager::PriceManager;

verus! {

/// Minutes after which a sub-window of the volatility closes.
pub const SUB_WINDOW_MINUTES: i128 = 5;

/// Whole minutes from `earlier` to `later`, rounded toward zero.
pub open spec fn elapsed_minutes(later: u64, earlier: u64) -> int {
    quotient(quotient(later - earlier, 1000), 60)
}

/// Exact sum of a sequence of amounts.
pub open spec fn sum_values(values: Seq<i64>) -> int
    decreases values.len(),
{
    if values.len() == 0 {
        0
    } else {
        values[0] + sum_values(values.drop_first())
    }
}

/// Where the walk back from index `i` stops: the index after the nearest
/// point at or before `i` that lies more than `limit` minutes before the
/// last point, or 0 if there is none.
pub open spec fn walk_back(times: Seq<u64>, limit: int, i: int) -> int
    decreases i + 1,
{
    if i < 0 || i >= times.len() {
        0
    } else if elapsed_minutes(times.last(), times[i]) > limit {
        i + 1
    } else {
        walk_back(times, limit, i - 1)
    }
}

/// Index at which the trailing window of `minutes` begins. The window is
/// walked back from the last point and ends before the first point that is
/// more than the whole part of `minutes` older than the last one.
pub open spec fn window_start(times: Seq<u64>, minutes: i64) -> int {
    walk_back(times, spec_integer_part(minutes) as int, times.len() - 1)
}

/// The selected values inside the trailing window.
pub open spec fn window_values<P: Price>(
    prices: Seq<P>,
    price_type: PriceType,
    minutes: i64,
) -> Seq<i64> {
    values_of(prices, price_type).subrange(
        window_start(times_of(prices), minutes),
        prices.len() as int,
    )
}

/// Mean of the selected values inside the trailing window.
pub open spec fn spec_mean<P: Price>(prices: Seq<P>, price_type: PriceType, minutes: i64) -> i64 {
    let values = window_values(prices, price_type, minutes);
    spec_average(sum_values(values), values.len() as int)
}

/// Squared distances of the values from `mean`.
pub open spec fn squared_deviations(values: Seq<i64>, mean: i64) -> Seq<i64> {
    Seq::new(
        values.len(),
        |i: int| spec_mul_fixed(spec_sub_fixed(values[i], mean), spec_sub_fixed(values[i], mean)),
    )
}

/// Population standard deviation of the selected values inside the trailing
/// window, around a given mean.
pub open spec fn spec_standard_deviation<P: Price>(
    prices: Seq<P>,
    price_type: PriceType,
    minutes: i64,
    mean: i64,
) -> i64 {
    let values = window_values(prices, price_type, minutes);
    spec_sqrt_fixed(
        spec_average(sum_values(squared_deviations(values, mean)), values.len() as int),
    )
}

/// Range of a sub-window relative to its lowest value.
pub open spec fn relative_range(low: i64, high: i64) -> i64 {
    spec_div_fixed(spec_sub_fixed(high, low), low)
}

/// The lower of an optional bound and a value.
pub open spec fn lower_of(bound: Option<i64>, value: i64) -> i64 {
    match bound {
        Some(b) => if b < value { b } else { value },
        None => value,
    }
}

/// The higher of an optional bound and a value.
pub open spec fn higher_of(bound: Option<i64>, value: i64) -> i64 {
    match bound {
        Some(b) => if b > value { b } else { value },
        None => value,
    }
}

/// Sum and number of the relative ranges of the sub-windows that close while
/// the walk goes back from index `i` to index `start`. `last_insert` is the
/// time at which the last sub-window closed; `low` and `high` bound the
/// values of the sub-window that is being filled. A sub-window closes with
/// the first point that is more than five minutes older than `last_insert`.
pub open spec fn sub_windows(
    values: Seq<i64>,
    times: Seq<u64>,
    start: int,
    i: int,
    last_insert: u64,
    low: Option<i64>,
    high: Option<i64>,
) -> (int, int)
    decreases i - start + 1,
{
    if i < start || i < 0 || i >= values.len() || i >= times.len() {
        (0, 0)
    } else {
        let lo = lower_of(low, values[i]);
        let hi = higher_of(high, values[i]);
        if elapsed_minutes(last_insert, times[i]) > SUB_WINDOW_MINUTES {
            let rest = sub_windows(values, times, start, i - 1, times[i], None, None);
            (rest.0 + relative_range(lo, hi), rest.1 + 1)
        } else {
            sub_windows(values, times, start, i - 1, last_insert, Some(lo), Some(hi))
        }
    }
}

/// Average relative range of the sub-windows of the trailing window; zero
/// where no sub-window closes.
pub open spec fn spec_volatility<P: Price>(
    prices: Seq<P>,
    price_type: PriceType,
    period_minutes: i64,
) -> i64 {
    let times = times_of(prices);
    let ranges = sub_windows(
        values_of(prices, price_type),
        times,
        window_start(times, period_minutes),
        prices.len() - 1,
        times.last(),
        None,
        None,
    );
    spec_average(ranges.0, ranges.1)
}

/// The factor by which volatility moves a border: `1 + f * v` for a buy and
/// `1 - f * v` for a sell.
pub open spec fn spec_volatility_factor(
    action: Action,
    volatility: i64,
    strategy_factor: i64,
) -> i64 {
    let signed = match action {
        Action::Buy => strategy_factor,
        Action::Sell => spec_sub_fixed(0, strategy_factor),
    };
    spec_add_fixed(SCALE, spec_mul_fixed(signed, volatility))
}

/// A buy is stopped when the bid low is at or under its stop-loss, a sell
/// when the ask high is at or over it.
pub open spec fn spec_stop_loss_hit<P: Price>(signal: Signal, price: P) -> bool {
    match signal.action {
        Action::Buy => price.value((Tick::Bid, Ohlc::Low)) <= signal.stop_loss,
        Action::Sell => price.value((Tick::Ask, Ohlc::High)) >= signal.stop_loss,
    }
}

/// On a series whose selected values are all equal no sub-window has a
/// range.
pub proof fn lemma_sub_windows_flat(
    values: Seq<i64>,
    times: Seq<u64>,
    start: int,
    i: int,
    last_insert: u64,
    low: Option<i64>,
    high: Option<i64>,
    level: i64,
)
    requires
        forall|k: int| 0 <= k < values.len() ==> values[k] == level,
        low.is_some() ==> low == Some(level),
        high.is_some() ==> high == Some(level),
    ensures
        sub_windows(values, times, start, i, last_insert, low, high).0 == 0,
    decreases i - start + 1,
{
    if i < start || i < 0 || i >= values.len() || i >= times.len() {
    } else {
        assert(lower_of(low, values[i]) == level);
        assert(higher_of(high, values[i]) == level);
        assert(relative_range(level, level) == 0);
        if elapsed_minutes(last_insert, times[i]) > SUB_WINDOW_MINUTES {
            lemma_sub_windows_flat(values, times, start, i - 1, times[i], None, None, level);
        } else {
            lemma_sub_windows_flat(
                values,
                times,
                start,
                i - 1,
                last_insert,
                Some(level),
                Some(level),
                level,
            );
        }
    }
}

/// The volatility of a series whose selected values are all equal is zero.
pub proof fn lemma_volatility_flat<P: Price>(
    prices: Seq<P>,
    price_type: PriceType,
    period_minutes: i64,
    level: i64,
)
    requires
        forall|k: int| 0 <= k < prices.len() ==> (#[trigger] prices[k]).value(price_type) == level,
    ensures
        spec_volatility(prices, price_type, period_minutes) == 0,
{
    let times = times_of(prices);
    lemma_sub_windows_flat(
        values_of(prices, price_type),
        times,
        window_start(times, period_minutes),
        prices.len() - 1,
        times.last(),
        None,
        None,
        level,
    );
}

/// Whole minutes from `earlier` to `later`.
pub fn minutes_between(later: u64, earlier: u64) -> (r: i128)
    ensures
        r == elapsed_minutes(later, earlier),
        -0x1_0000_0000_0000_0000 < r < 0x1_0000_0000_0000_0000,
{
    let millis: i128 = later as i128 - earlier as i128;
    let seconds: i128 = divide(millis, 1000);
    divide(seconds, 60)
}

/// The statistics that the entry and exit rules are built on.
pub struct Algorithms;

impl Algorithms {
    /// Whether the quote hits the stop-loss of the signal.
    pub fn check_stop_loss_hit<P: Price>(signal: &Signal, price: &P) -> (r: bool)
        ensures
            r == spec_stop_loss_hit(*signal, *price),
    {
        match signal.action {
            Action::Buy => price.get(&(Tick::Bid, Ohlc::Low)) <= signal.stop_loss,
            Action::Sell => price.get(&(Tick::Ask, Ohlc::High)) >= signal.stop_loss,
        }
    }

    /// Volatility of the selected values over the trailing period: the
    /// average relative range of its sub-windows.
    pub fn calculate_volatility<P: Price>(
        price_type: &PriceType,
        prices: &[P],
        period_minutes: i64,
    ) -> (r: i64)
        requires
            prices@.len() > 0,
        ensures
            r == spec_volatility(prices@, *price_type, period_minutes),
    {
        let n = prices.len();
        let anchor = prices[n - 1].ts();
        let limit = integer_part(period_minutes);
        let ghost values = values_of(prices@, *price_type);
        let ghost times = times_of(prices@);
        let ghost start = window_start(times, period_minutes);
        let mut total: i128 = 0;
        let mut count: usize = 0;
        let mut last_insert: u64 = anchor;
        let mut low: Option<i64> = None;
        let mut high: Option<i64> = None;
        let mut i: usize = n;
        let mut done = false;
        proof {
            lemma_walk_back_range(times, limit as int, n - 1);
        }
        while i > 0 && !done
            invariant
                0 <= i <= n,
                n == prices@.len(),
                values == values_of(prices@, *price_type),
                times == times_of(prices@),
                anchor == times.last(),
                limit == spec_integer_part(period_minutes),
                start == window_start(times, period_minutes),
                0 <= start <= n,
                count <= n - i,
                -0x8000_0000_0000_0000 * count <= total <= 0x8000_0000_0000_0000 * count,
                !done ==> walk_back(times, limit as int, i - 1) == start,
                done ==> i == start,
                start <= i,
                sub_windows(values, times, start, n - 1, anchor, None, None) == (
                    total + sub_windows(values, times, start, i - 1, last_insert, low, high).0,
                    count + sub_windows(values, times, start, i - 1, last_insert, low, high).1,
                ),
            decreases i + (if done { 0int } else { 1int }),
        {
            let ts = prices[i - 1].ts();
            if minutes_between(anchor, ts) > limit as i128 {
                done = true;
            } else {
                proof {
                    lemma_walk_back_range(times, limit as int, i - 2);
                }
                let value = prices[i - 1].get(price_type);
                let lo = match low {
                    Some(b) => if b < value { b } else { value },
                    None => value,
                };
                let hi = match high {
                    Some(b) => if b > value { b } else { value },
                    None => value,
                };
                if minutes_between(last_insert, ts) > SUB_WINDOW_MINUTES {
                    let range = div_fixed(sub_fixed(hi, lo), lo);
                    total = total + range as i128;
                    count = count + 1;
                    last_insert = ts;
                    low = None;
                    high = None;
                } else {
                    low = Some(lo);
                    high = Some(hi);
                }
                i = i - 1;
            }
        }
        average(total, count)
    }

    /// The factor by which volatility moves a border.
    pub fn calculate_volatility_factor(
        action: Action,
        volatility: i64,
        strategy_factor: i64,
    ) -> (r: i64)
        ensures
            r == spec_volatility_factor(action, volatility, strategy_factor),
    {
        let signed = match action {
            Action::Buy => strategy_factor,
            Action::Sell => sub_fixed(0, strategy_factor),
        };
        add_fixed(SCALE, mul_fixed(signed, volatility))
    }

    /// Mean of the selected values over the trailing window.
    pub fn calculate_mean<P: Price>(price_type: &PriceType, prices: &[P], minutes: i64) -> (r: i64)
        requires
            prices@.len() > 0,
        ensures
            r == spec_mean(prices@, *price_type, minutes),
    {
        let n = prices.len();
        let anchor = prices[n - 1].ts();
        let limit = integer_part(minutes);
        let ghost values = values_of(prices@, *price_type);
        let ghost times = times_of(prices@);
        let ghost start = window_start(times, minutes);
        let mut sum: i128 = 0;
        let mut i: usize = n;
        let mut done = false;
        proof {
            lemma_walk_back_range(times, limit as int, n - 1);
            assert(values.subrange(n as int, n as int) =~= Seq::<i64>::empty());
        }
        while i > 0 && !done
            invariant
                0 <= i <= n,
                n == prices@.len(),
                values == values_of(prices@, *price_type),
                times == times_of(prices@),
                anchor == times.last(),
                limit == spec_integer_part(minutes),
                start == window_start(times, minutes),
                0 <= start <= i,
                !done ==> walk_back(times, limit as int, i - 1) == start,
                done ==> i == start,
                -0x8000_0000_0000_0000 * (n - i) <= sum <= 0x8000_0000_0000_0000 * (n - i),
                sum == sum_values(values.subrange(i as int, n as int)),
            decreases i + (if done { 0int } else { 1int }),
        {
            if minutes_between(anchor, prices[i - 1].ts()) > limit as i128 {
                done = true;
            } else {
                proof {
                    lemma_walk_back_range(times, limit as int, i - 2);
                    assert(values.subrange(i - 1, n as int).drop_first() =~= values.subrange(
                        i as int,
                        n as int,
                    ));
                }
                sum = sum + prices[i - 1].get(price_type) as i128;
                i = i - 1;
            }
        }
        average(sum, n - i)
    }

    /// Population standard deviation of the selected values over the
    /// trailing window, around a given mean.
    pub fn calculate_standard_deviation<P: Price>(
        price_type: &PriceType,
        prices: &[P],
        minutes: i64,
        mean: i64,
    ) -> (r: i64)
        requires
            prices@.len() > 0,
        ensures
            r == spec_standard_deviation(prices@, *price_type, minutes, mean),
    {
        let n = prices.len();
        let anchor = prices[n - 1].ts();
        let limit = integer_part(minutes);
        let ghost values = values_of(prices@, *price_type);
        let ghost times = times_of(prices@);
        let ghost start = window_start(times, minutes);
        let ghost squares = squared_deviations(values, mean);
        let mut sum: i128 = 0;
        let mut i: usize = n;
        let mut done = false;
        proof {
            lemma_walk_back_range(times, limit as int, n - 1);
            assert(squares.subrange(n as int, n as int) =~= Seq::<i64>::empty());
        }
        while i > 0 && !done
            invariant
                0 <= i <= n,
                n == prices@.len(),
                values == values_of(prices@, *price_type),
                times == times_of(prices@),
                squares == squared_deviations(values, mean),
                anchor == times.last(),
                limit == spec_integer_part(minutes),
                start == window_start(times, minutes),
                0 <= start <= i,
                !done ==> walk_back(times, limit as int, i - 1) == start,
                done ==> i == start,
                -0x8000_0000_0000_0000 * (n - i) <= sum <= 0x8000_0000_0000_0000 * (n - i),
                sum == sum_values(squares.subrange(i as int, n as int)),
            decreases i + (if done { 0int } else { 1int }),
        {
            if minutes_between(anchor, prices[i - 1].ts()) > limit as i128 {
                done = true;
            } else {
                proof {
                    lemma_walk_back_range(times, limit as int, i - 2);
                    assert(squares.subrange(i - 1, n as int).drop_first() =~= squares.subrange(
                        i as int,
                        n as int,
                    ));
                }
                let distance = sub_fixed(prices[i - 1].get(price_type), mean);
                sum = sum + mul_fixed(distance, distance) as i128;
                i = i - 1;
            }
        }
        proof {
            assert(squares.subrange(start, n as int) =~= squared_deviations(
                values.subrange(start, n as int),
                mean,
            ));
        }
        sqrt_fixed(average(sum, n - i))
    }
}

/// Mean over the trailing window of the stored prices of a symbol from
/// index `index_from` to index `index_to`, both included.
pub fn algo_mean(
    price_manager: &PriceManager,
    symbol: &String,
    price_type: &PriceType,
    index_from: usize,
    index_to: usize,
    minutes: i64,
) -> (r: i64)
    requires
        price_manager.series(symbol@).is_some(),
        index_from <= index_to < price_manager.series(symbol@).unwrap().len(),
    ensures
        r == spec_mean(
            price_manager.series(symbol@).unwrap().subrange(index_from as int, index_to + 1),
            *price_type,
            minutes,
        ),
{
    let prices = price_manager.get(symbol).unwrap();
    let n = prices.len();
    assert(index_to < n);
    Algorithms::calculate_mean(
        price_type,
        slice_subrange(prices.as_slice(), index_from, index_to + 1),
        minutes,
    )
}

/// Standard deviation around `mean` over the trailing window of the stored
/// prices of a symbol from index `index_from` to index `index_to`, both
/// included.
pub fn algo_std_dev(
    price_manager: &PriceManager,
    symbol: &String,
    price_type: &PriceType,
    index_from: usize,
    index_to: usize,
    minutes: i64,
    mean: i64,
) -> (r: i64)
    requires
        price_manager.series(symbol@).is_some(),
        index_from <= index_to < price_manager.series(symbol@).unwrap().len(),
    ensures
        r == spec_standard_deviation(
            price_manager.series(symbol@).unwrap().subrange(index_from as int, index_to + 1),
            *price_type,
            minutes,
            mean,
        ),
{
    let prices = price_manager.get(symbol).unwrap();
    let n = prices.len();
    assert(index_to < n);
    Algorithms::calculate_standard_deviation(
        price_type,
        slice_subrange(prices.as_slice(), index_from, index_to + 1),
        minutes,
        mean,
    )
}

/// The walk back stops inside the series. Every point from where it stops
/// up to index `i` lies no more than `limit` minutes before the last point,
/// and the point before, if there is one, lies more than that before it.
pub proof fn lemma_walk_back_range(times: Seq<u64>, limit: int, i: int)
    requires
        i < times.len(),
    ensures
        0 <= walk_back(times, limit, i) <= i + 1 || i < 0,
        i < 0 ==> walk_back(times, limit, i) == 0,
        forall|k: int|
            walk_back(times, limit, i) <= k <= i ==> elapsed_minutes(
                times.last(),
                #[trigger] times[k],
            ) <= limit,
        walk_back(times, limit, i) > 0 ==> elapsed_minutes(
            times.last(),
            times[walk_back(times, limit, i) - 1],
        ) > limit,
    decreases i + 1,
{
    if i >= 0 && !(elapsed_minutes(times.last(), times[i]) > limit) {
        lemma_walk_back_range(times, limit, i - 1);
    }
}

} // verus!
