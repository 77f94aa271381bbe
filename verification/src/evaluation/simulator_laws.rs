//! What holds of every run of the simulator, whatever the rules, the signals
//! and the prices are.

use vstd::prelude::*;

use crate::evaluation::backtesting_signals::{
    admissible, admission, all_concluded, day_ends, gap_after, pass, phase_flushes, phase_step,
    run_from, spec_check_close, spec_check_init, spec_check_open, spec_delta, spec_simulate,
    steady, tick, Phase, Terms,
};
use crate::evaluation::position::Action;
use crate::evaluation::signal::{Signal, SignalResult};
use crate::fixed::{quotient, spec_mul_fixed, spec_scale_fixed, spec_sub_fixed, SCALE};
use crate::prices::price::{Price, PricePoint};
use crate::strategies::strategy::Strategy;

verus! {

/// Round trip. With one lot, a contract size of one and no commission the
/// delta of a buy is the close price less the open price, and the delta of
/// a sell is the open price less the close price.
pub proof fn lemma_delta_of_one_unit(price_open: i64, price_close: i64)
    ensures
        spec_delta(
            Action::Buy,
            price_open,
            price_close,
            Terms { lot_size: SCALE, commission: 0, contract_size: 1 },
        ) == spec_sub_fixed(price_close, price_open),
        spec_delta(
            Action::Sell,
            price_open,
            price_close,
            Terms { lot_size: SCALE, commission: 0, contract_size: 1 },
        ) == spec_sub_fixed(0, spec_sub_fixed(price_close, price_open)),
{
    let difference = spec_sub_fixed(price_close, price_open) as int;
    assert(quotient(difference * SCALE, SCALE as int) == difference) by (nonlinear_arith)
        requires
            SCALE == 1_000_000,
    {
        if difference >= 0 {
            assert(difference * SCALE >= 0);
            assert((difference * SCALE) / (SCALE as int) == difference);
        } else {
            assert(difference * SCALE < 0);
            assert((-(difference * SCALE)) / (SCALE as int) == -difference);
        }
    }
    assert(quotient(difference * (-SCALE), SCALE as int) == -difference) by (nonlinear_arith)
        requires
            SCALE == 1_000_000,
    {
        if difference > 0 {
            assert(difference * (-SCALE) < 0);
            assert((-(difference * (-SCALE))) / (SCALE as int) == difference);
        } else {
            assert(difference * (-SCALE) >= 0);
            assert((difference * (-SCALE)) / (SCALE as int) == -difference);
        }
    }
    assert(spec_scale_fixed(SCALE, 1) == SCALE);
    assert(spec_sub_fixed(0, SCALE) == -SCALE);
    assert(spec_mul_fixed(0, SCALE) == 0);
    assert(spec_scale_fixed(0, 2) == 0);
}

/// Something holds of every signal.
pub open spec fn signals_keep(signals: Seq<Signal>, keep: spec_fn(Signal) -> bool) -> bool {
    forall|i: int| 0 <= i < signals.len() ==> keep(#[trigger] signals[i])
}

/// Something holds of the signal of every result.
pub open spec fn results_keep(results: Seq<SignalResult>, keep: spec_fn(Signal) -> bool) -> bool {
    forall|i: int| 0 <= i < results.len() ==> keep((#[trigger] results[i]).signal)
}

/// No phase changes the signal of a position.
pub proof fn lemma_phase_step_signal(
    phase: Phase,
    strategy: Strategy,
    terms: Terms,
    result: SignalResult,
    window: Seq<PricePoint>,
)
    ensures
        phase_step(phase, strategy, terms, result, window).signal == result.signal,
{
    assert(spec_check_close(strategy, result, window).signal == result.signal);
    let entered = spec_check_open(strategy, result, window);
    assert(entered.signal == result.signal);
    assert(spec_check_close(strategy, entered, window).signal == result.signal);
}

/// A pass keeps the signals of the running set.
pub proof fn lemma_pass_signals(
    phase: Phase,
    strategy: Strategy,
    terms: Terms,
    window: Seq<PricePoint>,
    running: Seq<SignalResult>,
    n: int,
    keep: spec_fn(Signal) -> bool,
)
    requires
        results_keep(running, keep),
    ensures
        results_keep(pass(phase, strategy, terms, window, running, n).0, keep),
        results_keep(pass(phase, strategy, terms, window, running, n).1, keep),
    decreases n,
{
    if !(n <= 0 || n > running.len()) {
        lemma_pass_signals(phase, strategy, terms, window, running, n - 1, keep);
        lemma_phase_step_signal(phase, strategy, terms, running[n - 1], window);
    }
}

/// Admission keeps the signals of the queue and of the running set.
pub proof fn lemma_admission_signals(
    strategy: Strategy,
    pending: Seq<Signal>,
    running: Seq<SignalResult>,
    window: Seq<PricePoint>,
    next_time: u64,
    keep: spec_fn(Signal) -> bool,
)
    requires
        signals_keep(pending, keep),
        results_keep(running, keep),
    ensures
        signals_keep(admission(strategy, pending, running, window, next_time).0, keep),
        results_keep(admission(strategy, pending, running, window, next_time).1, keep),
    decreases pending.len(),
{
    if !(pending.len() == 0 || next_time <= pending[0].time_stamp) {
        let candidate = spec_check_init(strategy, SignalResult::fresh(pending[0]), window);
        assert(candidate.signal == pending[0]);
        let joined = if admissible(pending[0], next_time) && candidate.position.inited {
            running.push(candidate)
        } else {
            running
        };
        let rest = pending.remove(0);
        assert forall|i: int| 0 <= i < rest.len() implies keep(#[trigger] rest[i]) by {
            assert(rest[i] == pending[i + 1]);
        }
        lemma_admission_signals(strategy, rest, joined, window, next_time, keep);
    }
}

/// A tick keeps the signals it works on.
pub proof fn lemma_tick_signals(
    strategy: Strategy,
    terms: Terms,
    prices: Seq<PricePoint>,
    p: int,
    state: (Seq<Signal>, Seq<SignalResult>, Seq<SignalResult>),
    keep: spec_fn(Signal) -> bool,
)
    requires
        signals_keep(state.0, keep),
        results_keep(state.1, keep),
        results_keep(state.2, keep),
    ensures
        signals_keep(tick(strategy, terms, prices, p, state).0, keep),
        results_keep(tick(strategy, terms, prices, p, state).1, keep),
        results_keep(tick(strategy, terms, prices, p, state).2, keep),
{
    let window = prices.subrange(0, p + 1);
    lemma_admission_signals(strategy, state.0, state.1, window, prices[p + 1].time(), keep);
    let admitted = admission(strategy, state.0, state.1, window, prices[p + 1].time());
    let running = admitted.1;
    if running.len() == 0 {
    } else if gap_after(prices, p) {
        lemma_pass_signals(
            Phase::Gap,
            strategy,
            terms,
            window,
            running,
            running.len() as int,
            keep,
        );
    } else {
        let a = if day_ends(prices, p) {
            pass(Phase::EndOfDay, strategy, terms, window, running, running.len() as int)
        } else {
            (running, Seq::empty())
        };
        if day_ends(prices, p) {
            lemma_pass_signals(
                Phase::EndOfDay,
                strategy,
                terms,
                window,
                running,
                running.len() as int,
                keep,
            );
        }
        lemma_pass_signals(Phase::NoEntry, strategy, terms, window, a.0, a.0.len() as int, keep);
        let b = pass(Phase::NoEntry, strategy, terms, window, a.0, a.0.len() as int);
        lemma_pass_signals(Phase::Advance, strategy, terms, window, b.0, b.0.len() as int, keep);
        let c = pass(Phase::Advance, strategy, terms, window, b.0, b.0.len() as int);
        lemma_pass_signals(Phase::Settle, strategy, terms, window, c.0, c.0.len() as int, keep);
    }
}

/// The ticks from a price index on keep the signals they work on.
pub proof fn lemma_run_from_signals(
    strategy: Strategy,
    terms: Terms,
    prices: Seq<PricePoint>,
    p: int,
    state: (Seq<Signal>, Seq<SignalResult>, Seq<SignalResult>),
    keep: spec_fn(Signal) -> bool,
)
    requires
        signals_keep(state.0, keep),
        results_keep(state.1, keep),
        results_keep(state.2, keep),
    ensures
        results_keep(run_from(strategy, terms, prices, p, state), keep),
    decreases prices.len() - p,
{
    if !(p < 0 || p + 1 >= prices.len()) {
        lemma_tick_signals(strategy, terms, prices, p, state, keep);
        lemma_run_from_signals(
            strategy,
            terms,
            prices,
            p + 1,
            tick(strategy, terms, prices, p, state),
            keep,
        );
    }
}

/// A pass hands every position either on or out.
pub proof fn lemma_pass_count(
    phase: Phase,
    strategy: Strategy,
    terms: Terms,
    window: Seq<PricePoint>,
    running: Seq<SignalResult>,
    n: int,
)
    requires
        0 <= n <= running.len(),
    ensures
        pass(phase, strategy, terms, window, running, n).0.len() + pass(
            phase,
            strategy,
            terms,
            window,
            running,
            n,
        ).1.len() == n,
    decreases n,
{
    if n > 0 {
        lemma_pass_count(phase, strategy, terms, window, running, n - 1);
    }
}

/// Admission takes no more into the running set than it takes out of the
/// queue.
pub proof fn lemma_admission_count(
    strategy: Strategy,
    pending: Seq<Signal>,
    running: Seq<SignalResult>,
    window: Seq<PricePoint>,
    next_time: u64,
)
    ensures
        admission(strategy, pending, running, window, next_time).0.len() + admission(
            strategy,
            pending,
            running,
            window,
            next_time,
        ).1.len() <= pending.len() + running.len(),
    decreases pending.len(),
{
    if !(pending.len() == 0 || next_time <= pending[0].time_stamp) {
        let candidate = spec_check_init(strategy, SignalResult::fresh(pending[0]), window);
        let joined = if admissible(pending[0], next_time) && candidate.position.inited {
            running.push(candidate)
        } else {
            running
        };
        lemma_admission_count(strategy, pending.remove(0), joined, window, next_time);
    }
}

/// A tick makes no position out of nothing: the signals that wait, the
/// positions that run and the results together do not grow in number.
pub proof fn lemma_tick_count(
    strategy: Strategy,
    terms: Terms,
    prices: Seq<PricePoint>,
    p: int,
    state: (Seq<Signal>, Seq<SignalResult>, Seq<SignalResult>),
)
    ensures
        tick(strategy, terms, prices, p, state).0.len() + tick(
            strategy,
            terms,
            prices,
            p,
            state,
        ).1.len() + tick(strategy, terms, prices, p, state).2.len() <= state.0.len()
            + state.1.len() + state.2.len(),
{
    let window = prices.subrange(0, p + 1);
    lemma_admission_count(strategy, state.0, state.1, window, prices[p + 1].time());
    let running = admission(strategy, state.0, state.1, window, prices[p + 1].time()).1;
    if running.len() == 0 {
    } else if gap_after(prices, p) {
        lemma_pass_count(Phase::Gap, strategy, terms, window, running, running.len() as int);
    } else {
        let a = if day_ends(prices, p) {
            pass(Phase::EndOfDay, strategy, terms, window, running, running.len() as int)
        } else {
            (running, Seq::empty())
        };
        if day_ends(prices, p) {
            lemma_pass_count(
                Phase::EndOfDay,
                strategy,
                terms,
                window,
                running,
                running.len() as int,
            );
        }
        lemma_pass_count(Phase::NoEntry, strategy, terms, window, a.0, a.0.len() as int);
        let b = pass(Phase::NoEntry, strategy, terms, window, a.0, a.0.len() as int);
        lemma_pass_count(Phase::Advance, strategy, terms, window, b.0, b.0.len() as int);
        let c = pass(Phase::Advance, strategy, terms, window, b.0, b.0.len() as int);
        lemma_pass_count(Phase::Settle, strategy, terms, window, c.0, c.0.len() as int);
    }
}

/// The ticks from a price index on hand out no more results than there
/// are signals waiting, positions running and results already.
pub proof fn lemma_run_from_count(
    strategy: Strategy,
    terms: Terms,
    prices: Seq<PricePoint>,
    p: int,
    state: (Seq<Signal>, Seq<SignalResult>, Seq<SignalResult>),
)
    ensures
        run_from(strategy, terms, prices, p, state).len() <= state.0.len() + state.1.len()
            + state.2.len(),
    decreases prices.len() - p,
{
    if !(p < 0 || p + 1 >= prices.len()) {
        lemma_tick_count(strategy, terms, prices, p, state);
        lemma_run_from_count(
            strategy,
            terms,
            prices,
            p + 1,
            tick(strategy, terms, prices, p, state),
        );
    }
}

/// The simulator hands out at most one result for each signal, and each
/// result carries one of the signals given: what holds of every signal
/// given holds of the signal of every result.
pub proof fn lemma_simulate_signals(
    strategy: Strategy,
    terms: Terms,
    signals: Seq<Signal>,
    prices: Seq<PricePoint>,
    keep: spec_fn(Signal) -> bool,
)
    requires
        signals_keep(signals, keep),
    ensures
        spec_simulate(strategy, terms, signals, prices).len() <= signals.len(),
        results_keep(spec_simulate(strategy, terms, signals, prices), keep),
{
    lemma_run_from_count(strategy, terms, prices, 0, (signals, Seq::empty(), Seq::empty()));
    lemma_run_from_signals(strategy, terms, prices, 0, (signals, Seq::empty(), Seq::empty()), keep);
}

/// Every position is steady.
pub open spec fn all_steady(running: Seq<SignalResult>) -> bool {
    forall|i: int| 0 <= i < running.len() ==> steady(#[trigger] running[i])
}

/// Every position is steady and has not closed.
pub open spec fn all_open_ended(running: Seq<SignalResult>) -> bool {
    forall|i: int|
        0 <= i < running.len() ==> steady(#[trigger] running[i]) && !running[i].position.closed
}

/// A phase leaves a steady position steady, or hands it out concluded.
/// After the settlement no position that stays has closed.
pub proof fn lemma_phase_step_steady(
    phase: Phase,
    strategy: Strategy,
    terms: Terms,
    result: SignalResult,
    window: Seq<PricePoint>,
)
    requires
        steady(result),
        phase == Phase::Gap || phase == Phase::EndOfDay ==> !result.position.closed,
    ensures
        phase_flushes(phase, phase_step(phase, strategy, terms, result, window)) ==> phase_step(
            phase,
            strategy,
            terms,
            result,
            window,
        ).position.concluded(),
        !phase_flushes(phase, phase_step(phase, strategy, terms, result, window)) ==> steady(
            phase_step(phase, strategy, terms, result, window),
        ),
        phase == Phase::Settle && !phase_flushes(
            phase,
            phase_step(phase, strategy, terms, result, window),
        ) ==> !phase_step(phase, strategy, terms, result, window).position.closed,
{
    if phase == Phase::Advance {
        let entered = if result.position.opened {
            result
        } else {
            spec_check_open(strategy, result, window)
        };
        assert(steady(entered));
    }
}

/// A pass leaves the positions that stay steady and hands the others out
/// concluded.
pub proof fn lemma_pass_steady(
    phase: Phase,
    strategy: Strategy,
    terms: Terms,
    window: Seq<PricePoint>,
    running: Seq<SignalResult>,
    n: int,
)
    requires
        all_steady(running),
        phase == Phase::Gap || phase == Phase::EndOfDay ==> all_open_ended(running),
    ensures
        all_steady(pass(phase, strategy, terms, window, running, n).0),
        phase == Phase::Settle ==> all_open_ended(
            pass(phase, strategy, terms, window, running, n).0,
        ),
        all_concluded(pass(phase, strategy, terms, window, running, n).1),
    decreases n,
{
    if !(n <= 0 || n > running.len()) {
        lemma_pass_steady(phase, strategy, terms, window, running, n - 1);
        assert(steady(running[n - 1]));
        lemma_phase_step_steady(phase, strategy, terms, running[n - 1], window);
    }
}

/// Admission leaves the running set steady, with no position closed.
pub proof fn lemma_admission_steady(
    strategy: Strategy,
    pending: Seq<Signal>,
    running: Seq<SignalResult>,
    window: Seq<PricePoint>,
    next_time: u64,
)
    requires
        all_open_ended(running),
    ensures
        all_open_ended(admission(strategy, pending, running, window, next_time).1),
    decreases pending.len(),
{
    if !(pending.len() == 0 || next_time <= pending[0].time_stamp) {
        let candidate = spec_check_init(strategy, SignalResult::fresh(pending[0]), window);
        let joined = if admissible(pending[0], next_time) && candidate.position.inited {
            running.push(candidate)
        } else {
            running
        };
        lemma_admission_steady(strategy, pending.remove(0), joined, window, next_time);
    }
}

/// A tick leaves the running set steady, with no position closed, and the
/// results concluded.
pub proof fn lemma_tick_steady(
    strategy: Strategy,
    terms: Terms,
    prices: Seq<PricePoint>,
    p: int,
    state: (Seq<Signal>, Seq<SignalResult>, Seq<SignalResult>),
)
    requires
        all_open_ended(state.1),
        all_concluded(state.2),
    ensures
        all_open_ended(tick(strategy, terms, prices, p, state).1),
        all_concluded(tick(strategy, terms, prices, p, state).2),
{
    let window = prices.subrange(0, p + 1);
    lemma_admission_steady(strategy, state.0, state.1, window, prices[p + 1].time());
    let running = admission(strategy, state.0, state.1, window, prices[p + 1].time()).1;
    if running.len() == 0 {
    } else if gap_after(prices, p) {
        lemma_pass_steady(Phase::Gap, strategy, terms, window, running, running.len() as int);
        lemma_pass_count(Phase::Gap, strategy, terms, window, running, running.len() as int);
        lemma_pass_gap_empties(strategy, terms, window, running, running.len() as int);
    } else {
        let a = if day_ends(prices, p) {
            pass(Phase::EndOfDay, strategy, terms, window, running, running.len() as int)
        } else {
            (running, Seq::empty())
        };
        if day_ends(prices, p) {
            lemma_pass_steady(
                Phase::EndOfDay,
                strategy,
                terms,
                window,
                running,
                running.len() as int,
            );
        }
        lemma_pass_steady(Phase::NoEntry, strategy, terms, window, a.0, a.0.len() as int);
        let b = pass(Phase::NoEntry, strategy, terms, window, a.0, a.0.len() as int);
        lemma_pass_steady(Phase::Advance, strategy, terms, window, b.0, b.0.len() as int);
        let c = pass(Phase::Advance, strategy, terms, window, b.0, b.0.len() as int);
        lemma_pass_steady(Phase::Settle, strategy, terms, window, c.0, c.0.len() as int);
    }
}

/// After a gap no position stays.
pub proof fn lemma_pass_gap_empties(
    strategy: Strategy,
    terms: Terms,
    window: Seq<PricePoint>,
    running: Seq<SignalResult>,
    n: int,
)
    ensures
        pass(Phase::Gap, strategy, terms, window, running, n).0.len() == 0,
    decreases n,
{
    if !(n <= 0 || n > running.len()) {
        lemma_pass_gap_empties(strategy, terms, window, running, n - 1);
    }
}

/// The ticks from a price index on hand out only concluded positions.
pub proof fn lemma_run_from_concluded(
    strategy: Strategy,
    terms: Terms,
    prices: Seq<PricePoint>,
    p: int,
    state: (Seq<Signal>, Seq<SignalResult>, Seq<SignalResult>),
)
    requires
        all_open_ended(state.1),
        all_concluded(state.2),
    ensures
        all_concluded(run_from(strategy, terms, prices, p, state)),
    decreases prices.len() - p,
{
    if !(p < 0 || p + 1 >= prices.len()) {
        lemma_tick_steady(strategy, terms, prices, p, state);
        lemma_run_from_concluded(
            strategy,
            terms,
            prices,
            p + 1,
            tick(strategy, terms, prices, p, state),
        );
    }
}

/// Lifecycle. Whatever the rules, the signals and the prices are, every
/// position that the simulator hands out is concluded: it opened only after
/// it was initiated and closed only after it opened; if it closed, its
/// delta is settled and no reason for giving it up is set; if it did not,
/// exactly one of the reasons gap, no entry and end of day is set.
pub proof fn lemma_simulate_concluded(
    strategy: Strategy,
    terms: Terms,
    signals: Seq<Signal>,
    prices: Seq<PricePoint>,
)
    ensures
        all_concluded(spec_simulate(strategy, terms, signals, prices)),
{
    lemma_run_from_concluded(strategy, terms, prices, 0, (signals, Seq::empty(), Seq::empty()));
}

} // verus!
