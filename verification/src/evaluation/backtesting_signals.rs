//! The signal lifecycle simulator: for the signals of one symbol it decides,
//! tick by tick along the symbol's price series, whether and when each is
//! initiated, opened, closed or given up.

use chrono::Datelike;
use vstd::prelude::*;
use vstd::slice::slice_subrange;

use crate::algorithms::{spec_stop_loss_hit, Algorithms};
use crate::evaluation::backtest_conditions::BacktestConditions;
use crate::evaluation::position::{Action, Position, PositionIgnored};
use crate::evaluation::signal::{Signal, SignalResult};
use crate::fixed::{
    divide, mul_fixed, quotient, scale_fixed, spec_mul_fixed, spec_scale_fixed, spec_sub_fixed,
    sub_fixed,
};
use crate::prices::price::{Ohlc, Price, PricePoint};
use crate::prices::price_manager::PriceManager;
use crate::strategies::entry::entry::{with_attributes, Entry};
use crate::strategies::exit::exit::{exit_side, exit_side_type, Exit};
use crate::strategies::filter::filter::Filter;
use crate::strategies::strategy::Strategy;

verus! {

/// Longest delay, in seconds, between a signal and the next price, and
/// between two prices that follow each other.
pub const MAX_PRICE_DELAY_SECONDS: i128 = 900;

/// Longest time, in milliseconds, that a signal waits for its entry.
pub const MAX_ENTRY_WAIT_MILLIS: i128 = 1_200_000;

/// Milliseconds in a calendar day.
pub const DAY_MILLIS: u64 = 86_400_000;

/// Seconds in a calendar day.
pub const DAY_SECONDS: i64 = 86_400;

/// The last second of the calendar: the end of the year 262142.
pub const LAST_CALENDAR_SECOND: u64 = 8_210_266_876_799;

/// Day of the week of the second `seconds` after the epoch, counted from
/// Monday as 0. The epoch, 1 January 1970, was a Thursday.
pub open spec fn weekday_of_second(seconds: int) -> int {
    (seconds / (DAY_SECONDS as int) + 3) % 7
}

/// Whether a signal's time stamp, read as seconds, falls on a Saturday or a
/// Sunday.
pub open spec fn spec_is_weekend(timestamp: u64) -> bool {
    weekday_of_second(timestamp as int) >= 5
}

/// Calls `chrono::DateTime::from_timestamp` with no nanoseconds, then
/// `Datelike::weekday` and `Weekday::num_days_from_monday`. Claimed: for a
/// second of the calendar the result is the day of the week in UTC, from 0
/// for Monday to 6 for Sunday. Seconds beyond the calendar, for which
/// `from_timestamp` has no date, are left out.
#[verifier::external_body]
fn weekday_number(seconds: i64) -> (r: u32)
    requires
        0 <= seconds <= LAST_CALENDAR_SECOND,
    ensures
        r == weekday_of_second(seconds as int),
{
    chrono::DateTime::from_timestamp(seconds, 0).unwrap().weekday().num_days_from_monday()
}

/// The signal is rejected by the filter, or it is marked as initiated and
/// the entry rule prepares its scratch.
pub open spec fn spec_check_init(
    strategy: Strategy,
    result: SignalResult,
    prices: Seq<PricePoint>,
) -> SignalResult {
    if strategy.filter.rejects(result.signal, prices) {
        result
    } else {
        let inited = Position { inited: true, ..result.position };
        SignalResult {
            position: with_attributes(
                inited,
                strategy.entry.init_attributes(result.signal, inited, prices),
            ),
            ..result
        }
    }
}

/// The position closed at a price, on a quote.
pub open spec fn closed_at(result: SignalResult, price: i64, time: u64) -> SignalResult {
    SignalResult {
        position: Position {
            time_stamp_close: Some(time),
            price_close: Some(price),
            closed: true,
            ..result.position
        },
        ..result
    }
}

/// The stop-loss comes first: where the last quote hits it the position
/// closes at the stop-loss and the exit rule is not asked. Otherwise the
/// exit rule looks at the last quote, and the position closes at the price
/// that it gives, if any.
pub open spec fn spec_check_close(
    strategy: Strategy,
    result: SignalResult,
    prices: Seq<PricePoint>,
) -> SignalResult {
    let last = prices.last();
    if spec_stop_loss_hit(result.signal, last) {
        closed_at(result, result.signal.stop_loss, last.time())
    } else {
        let after = SignalResult {
            position: with_attributes(
                result.position,
                strategy.exit.exit_attributes(result.signal, result.position, prices),
            ),
            ..result
        };
        match strategy.exit.exit_price(result.signal, result.position, prices) {
            Some(price) => closed_at(after, price, last.time()),
            None => after,
        }
    }
}

/// Where the entry rule gives a price on the last quote the position opens
/// at it, the exit rule prepares its scratch, and the close is looked for at
/// once on the same quote.
pub open spec fn spec_check_open(
    strategy: Strategy,
    result: SignalResult,
    prices: Seq<PricePoint>,
) -> SignalResult {
    match strategy.entry.entry_price(result.signal, result.position, prices) {
        None => result,
        Some(price) => {
            let opened = Position {
                time_stamp_open: Some(prices.last().time()),
                price_open: Some(price),
                opened: true,
                ..result.position
            };
            let prepared = with_attributes(
                opened,
                strategy.exit.open_attributes(result.signal, opened, prices),
            );
            spec_check_close(strategy, SignalResult { position: prepared, ..result }, prices)
        },
    }
}

/// What holds of a running position whatever the rules are: its record is
/// consistent, it was initiated, no reason for giving it up is set, and it
/// has no delta yet.
pub open spec fn steady(result: SignalResult) -> bool {
    &&& result.position.consistent()
    &&& result.position.inited
    &&& result.position.ignored.count() == 0
    &&& result.position.delta.is_none()
}

/// What holds of a position that the simulator is still working on under
/// a strategy: it is steady, and its scratch holds what the next hook
/// reads.
pub open spec fn in_play(strategy: Strategy, result: SignalResult) -> bool {
    &&& steady(result)
    &&& !result.position.opened ==> strategy.entry.entry_ready(
        result.position.strategy_attributes,
    )
    &&& result.position.opened ==> strategy.exit.exit_ready(result.position.strategy_attributes)
}

/// The steps that a tick takes over the running positions, in this order.
/// After a gap in the prices only the first is taken; the second only where
/// a day ends.
#[derive(Debug, Clone, Copy, PartialEq, Eq, Structural)]
pub enum Phase {
    /// Every position is given up for the gap.
    Gap,
    /// Positions that have not opened are given up; the others are marked
    /// as closed, their close price still to be found.
    EndOfDay,
    /// Positions that have not opened are given up if their stop-loss is
    /// hit already or they have waited too long.
    NoEntry,
    /// Positions that have not opened look for their entry; opened ones
    /// without a close price look for their exit.
    Advance,
    /// Closed positions are settled and handed out.
    Settle,
}

/// What a settlement is computed with.
#[derive(Debug, Clone, Copy, PartialEq, Eq, Structural)]
pub struct Terms {
    pub lot_size: i64,
    pub commission: i64,
    pub contract_size: u32,
}

/// What settlements of a symbol are computed with under the conditions.
pub open spec fn terms_for(conditions: BacktestConditions, symbol: Seq<char>) -> Terms {
    Terms {
        lot_size: conditions.lot_size,
        commission: conditions.commission,
        contract_size: conditions.spec_contract_size(symbol).unwrap(),
    }
}

/// The position with one more reason for being given up.
pub open spec fn flagged(result: SignalResult, phase: Phase) -> SignalResult {
    let ignored = result.position.ignored;
    let marked = match phase {
        Phase::Gap => PositionIgnored { price_gap: true, ..ignored },
        Phase::EndOfDay => PositionIgnored {
            end_of_day: true,
            ..ignored
        },
        Phase::NoEntry => PositionIgnored { no_entry: true, ..ignored },
        _ => ignored,
    };
    SignalResult { position: Position { ignored: marked, ..result.position }, ..result }
}

/// A signal that has not opened goes on waiting while its stop-loss is not
/// hit on the current quote and no more than twenty minutes have passed
/// since the signal.
pub open spec fn still_waiting(signal: Signal, current: PricePoint) -> bool {
    !spec_stop_loss_hit(signal, current) && current.time() - signal.time_stamp
        <= MAX_ENTRY_WAIT_MILLIS
}

/// Realized delta of a trade: the price difference times contract size and
/// lots, negated for a sell, less the commission of both sides.
pub open spec fn spec_delta(
    action: Action,
    price_open: i64,
    price_close: i64,
    terms: Terms,
) -> i64 {
    let volume = spec_scale_fixed(terms.lot_size, terms.contract_size as int);
    let signed = match action {
        Action::Buy => volume,
        Action::Sell => spec_sub_fixed(0, volume),
    };
    spec_sub_fixed(
        spec_mul_fixed(spec_sub_fixed(price_close, price_open), signed),
        spec_scale_fixed(spec_mul_fixed(terms.commission, terms.lot_size), 2),
    )
}

/// The settled position. A close that was forced without a price takes the
/// close of the current quote on the exit side, and the quote's time.
pub open spec fn settled(terms: Terms, result: SignalResult, current: PricePoint) -> SignalResult {
    let position = result.position;
    let price_close = match position.price_close {
        Some(price) => price,
        None => current.value(exit_side_type(result.signal.action, Ohlc::Close)),
    };
    let time_stamp_close = match position.price_close {
        Some(_) => position.time_stamp_close,
        None => Some(current.time()),
    };
    SignalResult {
        position: Position {
            price_close: Some(price_close),
            time_stamp_close,
            delta: Some(
                spec_delta(result.signal.action, position.price_open.unwrap(), price_close, terms),
            ),
            ..position
        },
        ..result
    }
}

/// What a phase makes of one running position on the window of prices up
/// to the current quote.
pub open spec fn phase_step(
    phase: Phase,
    strategy: Strategy,
    terms: Terms,
    result: SignalResult,
    window: Seq<PricePoint>,
) -> SignalResult {
    match phase {
        Phase::Gap => flagged(result, phase),
        Phase::EndOfDay => if result.position.opened {
            SignalResult { position: Position { closed: true, ..result.position }, ..result }
        } else {
            flagged(result, phase)
        },
        Phase::NoEntry => if result.position.opened || still_waiting(result.signal, window.last()) {
            result
        } else {
            flagged(result, phase)
        },
        Phase::Advance => {
            let entered = if result.position.opened {
                result
            } else {
                spec_check_open(strategy, result, window)
            };
            if entered.position.opened && entered.position.price_close.is_none() {
                spec_check_close(strategy, entered, window)
            } else {
                entered
            }
        },
        Phase::Settle => if result.position.closed {
            settled(terms, result, window.last())
        } else {
            result
        },
    }
}

/// Whether the position leaves the running set after the phase and is
/// handed out.
pub open spec fn phase_flushes(phase: Phase, after: SignalResult) -> bool {
    match phase {
        Phase::Gap => true,
        Phase::EndOfDay => after.position.ignored.end_of_day,
        Phase::NoEntry => after.position.ignored.no_entry,
        Phase::Advance => false,
        Phase::Settle => after.position.closed,
    }
}

/// A phase taken over the first `n` running positions: those that stay, and
/// those that are handed out, each in the order of the running set.
pub open spec fn pass(
    phase: Phase,
    strategy: Strategy,
    terms: Terms,
    window: Seq<PricePoint>,
    running: Seq<SignalResult>,
    n: int,
) -> (Seq<SignalResult>, Seq<SignalResult>)
    decreases n,
{
    if n <= 0 || n > running.len() {
        (Seq::empty(), Seq::empty())
    } else {
        let before = pass(phase, strategy, terms, window, running, n - 1);
        let after = phase_step(phase, strategy, terms, running[n - 1], window);
        if phase_flushes(phase, after) {
            (before.0, before.1.push(after))
        } else {
            (before.0.push(after), before.1)
        }
    }
}

/// A signal is admitted only if the next price comes no more than fifteen
/// minutes after it and its day check holds.
pub open spec fn admissible(signal: Signal, next_time: u64) -> bool {
    quotient(next_time - signal.time_stamp, 1000) <= MAX_PRICE_DELAY_SECONDS && spec_is_weekend(
        signal.time_stamp,
    )
}

/// Admission: while the next price is later than the first pending signal,
/// that signal leaves the queue; it joins the running set if it is
/// admissible and the filter lets it pass.
pub open spec fn admission(
    strategy: Strategy,
    pending: Seq<Signal>,
    running: Seq<SignalResult>,
    window: Seq<PricePoint>,
    next_time: u64,
) -> (Seq<Signal>, Seq<SignalResult>)
    decreases pending.len(),
{
    if pending.len() == 0 || next_time <= pending[0].time_stamp {
        (pending, running)
    } else {
        let candidate = spec_check_init(strategy, SignalResult::fresh(pending[0]), window);
        let joined = if admissible(pending[0], next_time) && candidate.position.inited {
            running.push(candidate)
        } else {
            running
        };
        admission(strategy, pending.remove(0), joined, window, next_time)
    }
}

/// Whether the price at index `p` is the last of its day: the one before
/// the last of the series, or one after which the calendar day changes.
pub open spec fn day_ends(prices: Seq<PricePoint>, p: int) -> bool {
    p == prices.len() - 2 || prices[p].time() / DAY_MILLIS != prices[p + 1].time() / DAY_MILLIS
}

/// Whether more than fifteen minutes lie between the price at index `p` and
/// the next one.
pub open spec fn gap_after(prices: Seq<PricePoint>, p: int) -> bool {
    quotient(prices[p + 1].time() - prices[p].time(), 1000) > MAX_PRICE_DELAY_SECONDS
}

/// One tick at price index `p`, on the pending signals, the running
/// positions and the results so far.
pub open spec fn tick(
    strategy: Strategy,
    terms: Terms,
    prices: Seq<PricePoint>,
    p: int,
    state: (Seq<Signal>, Seq<SignalResult>, Seq<SignalResult>),
) -> (Seq<Signal>, Seq<SignalResult>, Seq<SignalResult>) {
    let window = prices.subrange(0, p + 1);
    let admitted = admission(strategy, state.0, state.1, window, prices[p + 1].time());
    let running = admitted.1;
    if running.len() == 0 {
        (admitted.0, running, state.2)
    } else if gap_after(prices, p) {
        let gone = pass(Phase::Gap, strategy, terms, window, running, running.len() as int);
        (admitted.0, gone.0, state.2 + gone.1)
    } else {
        let a = if day_ends(prices, p) {
            pass(Phase::EndOfDay, strategy, terms, window, running, running.len() as int)
        } else {
            (running, Seq::empty())
        };
        let b = pass(Phase::NoEntry, strategy, terms, window, a.0, a.0.len() as int);
        let c = pass(Phase::Advance, strategy, terms, window, b.0, b.0.len() as int);
        let d = pass(Phase::Settle, strategy, terms, window, c.0, c.0.len() as int);
        (admitted.0, d.0, state.2 + a.1 + b.1 + c.1 + d.1)
    }
}

/// The results after the ticks from price index `p` on. The last price is
/// only looked ahead to.
pub open spec fn run_from(
    strategy: Strategy,
    terms: Terms,
    prices: Seq<PricePoint>,
    p: int,
    state: (Seq<Signal>, Seq<SignalResult>, Seq<SignalResult>),
) -> Seq<SignalResult>
    decreases prices.len() - p,
{
    if p < 0 || p + 1 >= prices.len() {
        state.2
    } else {
        run_from(strategy, terms, prices, p + 1, tick(strategy, terms, prices, p, state))
    }
}

/// What the simulator hands out for the signals of one symbol on its price
/// series: the positions that were given up and those that closed, in the
/// order in which they left the running set.
pub open spec fn spec_simulate(
    strategy: Strategy,
    terms: Terms,
    signals: Seq<Signal>,
    prices: Seq<PricePoint>,
) -> Seq<SignalResult> {
    run_from(strategy, terms, prices, 0, (signals, Seq::empty(), Seq::empty()))
}

/// What a phase asks of a running position.
pub open spec fn phase_ready(phase: Phase, strategy: Strategy, result: SignalResult) -> bool {
    &&& in_play(strategy, result)
    &&& (phase == Phase::Gap || phase == Phase::EndOfDay) ==> !result.position.closed
}

/// Every position of the running set is in play and not closed.
pub open spec fn all_running(strategy: Strategy, running: Seq<SignalResult>) -> bool {
    forall|i: int|
        0 <= i < running.len() ==> in_play(strategy, #[trigger] running[i])
            && !running[i].position.closed
}

/// Every position of the running set is in play.
pub open spec fn all_in_play(strategy: Strategy, running: Seq<SignalResult>) -> bool {
    forall|i: int| 0 <= i < running.len() ==> in_play(strategy, #[trigger] running[i])
}

/// Every result is concluded.
pub open spec fn all_concluded(results: Seq<SignalResult>) -> bool {
    forall|i: int| 0 <= i < results.len() ==> (#[trigger] results[i]).position.concluded()
}

/// Every signal's time stamp, read as seconds, lies in the calendar.
pub open spec fn all_in_calendar(signals: Seq<Signal>) -> bool {
    forall|i: int| 0 <= i < signals.len() ==> (#[trigger] signals[i]).time_stamp
        <= LAST_CALENDAR_SECOND
}

/// With nothing pending and nothing running the remaining ticks change
/// nothing.
pub proof fn lemma_idle(
    strategy: Strategy,
    terms: Terms,
    prices: Seq<PricePoint>,
    p: int,
    results: Seq<SignalResult>,
)
    ensures
        run_from(
            strategy,
            terms,
            prices,
            p,
            (Seq::<Signal>::empty(), Seq::<SignalResult>::empty(), results),
        ) == results,
    decreases prices.len() - p,
{
    let state = (Seq::<Signal>::empty(), Seq::<SignalResult>::empty(), results);
    if !(p < 0 || p + 1 >= prices.len()) {
        assert(tick(strategy, terms, prices, p, state) == state);
        lemma_idle(strategy, terms, prices, p + 1, results);
    }
}


/// The simulator and aggregator over a table of price series.
pub struct BacktestingSignals<'a> {
    pub price_manager: &'a PriceManager,
}

impl<'a> BacktestingSignals<'a> {
    /// A simulator over the given price table.
    pub fn new(price_manager: &'a PriceManager) -> (r: BacktestingSignals<'a>)
        ensures
            r.price_manager == price_manager,
    {
        BacktestingSignals { price_manager }
    }

    /// Runs the filter on a signal and, if it passes, marks it as
    /// initiated and lets the entry rule prepare its scratch.
    pub fn signal_check_init(
        &self,
        strategy: &Strategy,
        signal_result: &mut SignalResult,
        prices: &[PricePoint],
    )
        requires
            prices@.len() > 0,
        ensures
            *final(signal_result) == spec_check_init(*strategy, *old(signal_result), prices@),
            final(signal_result).position.inited && !old(signal_result).position.inited
                ==> strategy.entry.entry_ready(final(signal_result).position.strategy_attributes),
    {
        if strategy.filter.check_filter(&signal_result.signal, prices) {
            return ;
        }
        signal_result.position.inited = true;
        strategy.entry.on_init(signal_result, prices);
    }

    /// Looks for the entry of a position on the last quote. A position that
    /// opens looks for its close on the same quote at once.
    pub fn signal_check_open(
        &self,
        strategy: &Strategy,
        signal_result: &mut SignalResult,
        prices: &[PricePoint],
    )
        requires
            prices@.len() > 0,
            strategy.entry.entry_ready(old(signal_result).position.strategy_attributes),
        ensures
            *final(signal_result) == spec_check_open(*strategy, *old(signal_result), prices@),
            in_play(*strategy, *old(signal_result)) && !old(signal_result).position.opened
                ==> in_play(*strategy, *final(signal_result)),
    {
        let price_open = strategy.entry.check_entry(signal_result, prices);
        if price_open.is_none() {
            return ;
        }
        let last_price = &prices[prices.len() - 1];
        signal_result.position.time_stamp_open = Some(last_price.ts());
        signal_result.position.price_open = price_open;
        signal_result.position.opened = true;
        strategy.exit.on_open(signal_result, prices);
        self.signal_check_close(strategy, signal_result, prices);
    }

    /// Looks for the close of an opened position on the last quote, the
    /// stop-loss first and then the exit rule.
    pub fn signal_check_close(
        &self,
        strategy: &Strategy,
        signal_result: &mut SignalResult,
        prices: &[PricePoint],
    )
        requires
            prices@.len() > 0,
            old(signal_result).position.price_open.is_some(),
            strategy.exit.exit_ready(old(signal_result).position.strategy_attributes),
        ensures
            *final(signal_result) == spec_check_close(*strategy, *old(signal_result), prices@),
            in_play(*strategy, *old(signal_result)) ==> in_play(*strategy, *final(signal_result)),
    {
        let last_price = &prices[prices.len() - 1];
        let price_close = if Algorithms::check_stop_loss_hit(&signal_result.signal, last_price) {
            Some(signal_result.signal.stop_loss)
        } else {
            strategy.exit.check_exit(signal_result, prices)
        };
        if price_close.is_none() {
            return ;
        }
        signal_result.position.time_stamp_close = Some(last_price.ts());
        signal_result.position.price_close = price_close;
        signal_result.position.closed = true;
    }

    /// Whether a time stamp, read as seconds, falls on a Saturday or a
    /// Sunday.
    pub fn is_weekend(timestamp: u64) -> (r: bool)
        requires
            timestamp <= LAST_CALENDAR_SECOND,
        ensures
            r == spec_is_weekend(timestamp),
    {
        weekday_number(timestamp as i64) >= 5
    }

    /// Realized delta of a trade.
    pub fn realized_delta(
        action: Action,
        price_open: i64,
        price_close: i64,
        terms: &Terms,
    ) -> (r: i64)
        ensures
            r == spec_delta(action, price_open, price_close, *terms),
    {
        let volume = scale_fixed(terms.lot_size, terms.contract_size as u64);
        let signed = match action {
            Action::Buy => volume,
            Action::Sell => sub_fixed(0, volume),
        };
        sub_fixed(
            mul_fixed(sub_fixed(price_close, price_open), signed),
            scale_fixed(mul_fixed(terms.commission, terms.lot_size), 2),
        )
    }

    /// Takes one phase on one running position. True hands the position
    /// out.
    fn apply_phase(
        &self,
        phase: Phase,
        strategy: &Strategy,
        terms: &Terms,
        signal_result: &mut SignalResult,
        window: &[PricePoint],
    ) -> (flush: bool)
        requires
            window@.len() > 0,
            phase_ready(phase, *strategy, *old(signal_result)),
        ensures
            *final(signal_result) == phase_step(
                phase,
                *strategy,
                *terms,
                *old(signal_result),
                window@,
            ),
            flush == phase_flushes(phase, *final(signal_result)),
            flush ==> final(signal_result).position.concluded(),
            !flush ==> in_play(*strategy, *final(signal_result)),
            !flush && phase == Phase::Settle ==> !final(signal_result).position.closed,
    {
        let current = &window[window.len() - 1];
        match phase {
            Phase::Gap => {
                signal_result.position.ignored.price_gap = true;
                true
            },
            Phase::EndOfDay => {
                if signal_result.position.opened {
                    signal_result.position.closed = true;
                    false
                } else {
                    signal_result.position.ignored.end_of_day = true;
                    true
                }
            },
            Phase::NoEntry => {
                if signal_result.position.opened || (!Algorithms::check_stop_loss_hit(
                    &signal_result.signal,
                    current,
                ) && current.ts() as i128 - signal_result.signal.time_stamp as i128
                    <= MAX_ENTRY_WAIT_MILLIS) {
                    false
                } else {
                    signal_result.position.ignored.no_entry = true;
                    true
                }
            },
            Phase::Advance => {
                if !signal_result.position.opened {
                    self.signal_check_open(strategy, signal_result, window);
                }
                if signal_result.position.opened && signal_result.position.price_close.is_none() {
                    self.signal_check_close(strategy, signal_result, window);
                }
                false
            },
            Phase::Settle => {
                if !signal_result.position.closed {
                    return false;
                }
                let action = signal_result.signal.action;
                let price_close = match signal_result.position.price_close {
                    Some(price) => price,
                    None => {
                        let price = current.get(&exit_side(action, Ohlc::Close));
                        signal_result.position.price_close = Some(price);
                        signal_result.position.time_stamp_close = Some(current.ts());
                        price
                    },
                };
                let price_open = signal_result.position.price_open.unwrap();
                signal_result.position.delta = Some(
                    Self::realized_delta(action, price_open, price_close, terms),
                );
                true
            },
        }
    }

    /// Takes one phase over the running set. The positions that stay are
    /// returned; those that leave are appended to the results.
    fn run_pass(
        &self,
        phase: Phase,
        strategy: &Strategy,
        terms: &Terms,
        window: &[PricePoint],
        running: Vec<SignalResult>,
        results: &mut Vec<SignalResult>,
    ) -> (kept: Vec<SignalResult>)
        requires
            window@.len() > 0,
            all_in_play(*strategy, running@),
            phase == Phase::Gap || phase == Phase::EndOfDay ==> all_running(*strategy, running@),
            all_concluded(old(results)@),
        ensures
            kept@ == pass(phase, *strategy, *terms, window@, running@, running@.len() as int).0,
            final(results)@ == old(results)@ + pass(
                phase,
                *strategy,
                *terms,
                window@,
                running@,
                running@.len() as int,
            ).1,
            all_in_play(*strategy, kept@),
            phase == Phase::Settle ==> all_running(*strategy, kept@),
            phase == Phase::Gap ==> kept@.len() == 0,
            all_concluded(final(results)@),
    {
        let mut kept: Vec<SignalResult> = Vec::new();
        let ghost all = running@;
        let ghost before = results@;
        for item in it: running.into_iter()
            invariant
                it.seq() == all,
                window@.len() > 0,
                all_in_play(*strategy, all),
                phase == Phase::Gap || phase == Phase::EndOfDay ==> all_running(*strategy, all),
                kept@ == pass(phase, *strategy, *terms, window@, all, it.index() as int).0,
                results@ == before + pass(
                    phase,
                    *strategy,
                    *terms,
                    window@,
                    all,
                    it.index() as int,
                ).1,
                all_in_play(*strategy, kept@),
                phase == Phase::Settle ==> all_running(*strategy, kept@),
                phase == Phase::Gap ==> kept@.len() == 0,
                all_concluded(results@),
        {
            let mut item = item;
            assert(in_play(*strategy, all[it.index() as int]));
            let flush = self.apply_phase(phase, strategy, terms, &mut item, window);
            if flush {
                results.push(item);
            } else {
                kept.push(item);
            }
        }
        kept
    }

    /// Admission: moves the signals that the next price has passed out of
    /// the queue, and those that are admitted into the running set.
    fn admit_signals(
        &self,
        strategy: &Strategy,
        pending: &mut Vec<Signal>,
        running: &mut Vec<SignalResult>,
        window: &[PricePoint],
        next_time: u64,
    )
        requires
            window@.len() > 0,
            all_in_calendar(old(pending)@),
            all_running(*strategy, old(running)@),
        ensures
            (final(pending)@, final(running)@) == admission(
                *strategy,
                old(pending)@,
                old(running)@,
                window@,
                next_time,
            ),
            all_in_calendar(final(pending)@),
            all_running(*strategy, final(running)@),
    {
        while pending.len() > 0 && next_time > pending[0].time_stamp
            invariant
                window@.len() > 0,
                all_in_calendar(pending@),
                all_running(*strategy, running@),
                admission(*strategy, pending@, running@, window@, next_time) == admission(
                    *strategy,
                    old(pending)@,
                    old(running)@,
                    window@,
                    next_time,
                ),
            decreases pending@.len(),
        {
            let ghost queue = pending@;
            let signal = pending.remove(0);
            assert(signal == queue[0]);
            assert forall|i: int| 0 <= i < pending@.len() implies (#[trigger] pending@[i])
                .time_stamp <= LAST_CALENDAR_SECOND by {
                assert(pending@[i] == queue[i + 1]);
            }
            let delay = divide(next_time as i128 - signal.time_stamp as i128, 1000);
            let eligible = delay <= MAX_PRICE_DELAY_SECONDS && Self::is_weekend(signal.time_stamp);
            let mut signal_result = SignalResult::new(signal);
            self.signal_check_init(strategy, &mut signal_result, window);
            if eligible && signal_result.position.inited {
                running.push(signal_result);
            }
        }
    }

    /// Simulates the signals of one symbol on the symbol's price series,
    /// tick by tick. The signals are taken in the order given.
    pub fn backtest(
        &self,
        conditions: &BacktestConditions,
        strategy: &Strategy,
        signals: Vec<Signal>,
        symbol: String,
    ) -> (results: Vec<SignalResult>)
        requires
            self.price_manager.series(symbol@).is_some(),
            self.price_manager.series(symbol@).unwrap().len() > 0,
            conditions.spec_contract_size(symbol@).is_some(),
            all_in_calendar(signals@),
        ensures
            results@ == spec_simulate(
                *strategy,
                terms_for(*conditions, symbol@),
                signals@,
                self.price_manager.series(symbol@).unwrap(),
            ),
            all_concluded(results@),
    {
        let mut results: Vec<SignalResult> = Vec::new();
        let mut running: Vec<SignalResult> = Vec::new();
        let mut pending = signals;
        let series = self.price_manager.get(&symbol).unwrap();
        let prices = series.as_slice();
        let terms = Terms {
            lot_size: conditions.lot_size,
            commission: conditions.commission,
            contract_size: conditions.contract_size(&symbol).unwrap(),
        };
        let n = prices.len();
        let mut p: usize = 0;
        let mut idle = false;
        while p + 1 < n && !idle
            invariant
                n == prices@.len(),
                p < n,
                all_in_calendar(pending@),
                all_running(*strategy, running@),
                all_concluded(results@),
                idle ==> pending@.len() == 0 && running@.len() == 0,
                run_from(*strategy, terms, prices@, p as int, (pending@, running@, results@))
                    == spec_simulate(*strategy, terms, signals@, prices@),
            decreases n - p, (if idle { 0int } else { 1int }),
        {
            let window = slice_subrange(prices, 0, p + 1);
            let ghost state = (pending@, running@, results@);
            let ghost before = results@;
            self.admit_signals(strategy, &mut pending, &mut running, window, prices[p + 1].ts());
            let gap = divide(prices[p + 1].ts() as i128 - prices[p].ts() as i128, 1000)
                > MAX_PRICE_DELAY_SECONDS;
            let day_ends = p == n - 2 || prices[p].ts() / DAY_MILLIS != prices[p + 1].ts()
                / DAY_MILLIS;
            if running.len() > 0 && gap {
                running = self.run_pass(
                    Phase::Gap,
                    strategy,
                    &terms,
                    window,
                    running,
                    &mut results,
                );
            } else if running.len() > 0 {
                if day_ends {
                    running = self.run_pass(
                        Phase::EndOfDay,
                        strategy,
                        &terms,
                        window,
                        running,
                        &mut results,
                    );
                } else {
                    assert(results@ == before + Seq::<SignalResult>::empty());
                }
                running = self.run_pass(
                    Phase::NoEntry,
                    strategy,
                    &terms,
                    window,
                    running,
                    &mut results,
                );
                running = self.run_pass(
                    Phase::Advance,
                    strategy,
                    &terms,
                    window,
                    running,
                    &mut results,
                );
                running = self.run_pass(
                    Phase::Settle,
                    strategy,
                    &terms,
                    window,
                    running,
                    &mut results,
                );
                idle = running.len() == 0 && pending.len() == 0;
            }
            assert((pending@, running@, results@) == tick(
                *strategy,
                terms,
                prices@,
                p as int,
                state,
            ));
            p = p + 1;
        }
        proof {
            if idle {
                assert(pending@ =~= Seq::<Signal>::empty());
                assert(running@ =~= Seq::<SignalResult>::empty());
                lemma_idle(*strategy, terms, prices@, p as int, results@);
            }
        }
        results
    }
}

} // verus!
