//! The portfolio accounts: how the results of one source become its
//! statistics under the ceiling on committed margin.

use vstd::prelude::*;

use crate::evaluation::backtest_conditions::BacktestConditions;
use crate::evaluation::backtest_result::{BacktestResult, IgnoredCounts};
use crate::evaluation::backtesting_signals::{BacktestingSignals, DAY_MILLIS};
use crate::evaluation::position::Position;
use crate::evaluation::signal::SignalResult;
use crate::fixed::{
    add_fixed, average, clamp, div_fixed, divide, mul_fixed, narrow, quotient, scale_fixed,
    spec_add_fixed, spec_average, spec_div_fixed, spec_fixed_from_int, spec_mul_fixed,
    spec_scale_fixed,
    spec_sqrt_fixed, spec_sub_fixed, sqrt_fixed, sub_fixed, SCALE,
};

verus! {

/// An optional time as a number; no time comes before every time.
pub open spec fn time_key(time: Option<u64>) -> int {
    match time {
        None => -1,
        Some(t) => t as int,
    }
}

/// What the results are ordered by: the time at which the position opened.
/// A position that never opened comes before all that did.
pub open spec fn open_key(result: SignalResult) -> int {
    time_key(result.position.time_stamp_open)
}

/// Where an item with this key goes among the first `n` of a sorted list:
/// behind the last item whose key is not greater.
pub open spec fn insertion_point(sorted: Seq<SignalResult>, key: int, n: int) -> int
    decreases n,
{
    if n <= 0 || n > sorted.len() {
        0
    } else if open_key(sorted[n - 1]) <= key {
        n
    } else {
        insertion_point(sorted, key, n - 1)
    }
}

/// The first `n` results in the order of their open times; results with
/// equal open times keep the order in which they came.
pub open spec fn sorted_by_open(results: Seq<SignalResult>, n: int) -> Seq<SignalResult>
    decreases n,
{
    if n <= 0 || n > results.len() {
        Seq::empty()
    } else {
        let before = sorted_by_open(results, n - 1);
        before.insert(
            insertion_point(before, open_key(results[n - 1]), before.len() as int),
            results[n - 1],
        )
    }
}

/// A list is ordered by open time.
pub open spec fn ordered_by_open(results: Seq<SignalResult>) -> bool {
    forall|i: int, j: int|
        0 <= i <= j < results.len() ==> open_key(#[trigger] results[i]) <= open_key(
            #[trigger] results[j],
        )
}

/// The insertion point lies in the list, everything before it has a key
/// that is not greater, and everything from it on has a greater key.
pub proof fn lemma_insertion_point(sorted: Seq<SignalResult>, key: int, n: int)
    requires
        0 <= n <= sorted.len(),
        ordered_by_open(sorted),
    ensures
        0 <= insertion_point(sorted, key, n) <= n,
        forall|i: int|
            0 <= i < insertion_point(sorted, key, n) ==> open_key(#[trigger] sorted[i]) <= key,
        forall|i: int|
            insertion_point(sorted, key, n) <= i < n ==> open_key(#[trigger] sorted[i]) > key,
    decreases n,
{
    if n > 0 && open_key(sorted[n - 1]) > key {
        lemma_insertion_point(sorted, key, n - 1);
    }
}

/// Sorting keeps every result, and orders them by open time.
pub proof fn lemma_sorted_by_open(results: Seq<SignalResult>, n: int)
    requires
        0 <= n <= results.len(),
    ensures
        sorted_by_open(results, n).len() == n,
        ordered_by_open(sorted_by_open(results, n)),
        sorted_by_open(results, n).to_multiset() == results.subrange(0, n).to_multiset(),
    decreases n,
{
    broadcast use vstd::seq_lib::group_to_multiset_ensures;

    if n == 0 {
        assert(results.subrange(0, 0) =~= Seq::<SignalResult>::empty());
    } else {
        lemma_sorted_by_open(results, n - 1);
        let before = sorted_by_open(results, n - 1);
        let item = results[n - 1];
        let at = insertion_point(before, open_key(item), before.len() as int);
        lemma_insertion_point(before, open_key(item), before.len() as int);
        let after = before.insert(at, item);
        assert forall|i: int, j: int| 0 <= i <= j < after.len() implies open_key(
            #[trigger] after[i],
        ) <= open_key(#[trigger] after[j]) by {
            if i < at && j > at {
                assert(after[i] == before[i]);
                assert(after[j] == before[j - 1]);
            } else if i < at && j < at {
                assert(after[i] == before[i]);
                assert(after[j] == before[j]);
            } else if i > at {
                assert(after[i] == before[i - 1]);
                assert(after[j] == before[j - 1]);
            } else if i == at && j > at {
                assert(after[j] == before[j - 1]);
            } else if j == at && i < at {
                assert(after[i] == before[i]);
            }
        }
        assert(results.subrange(0, n) =~= results.subrange(0, n - 1).push(item));
        vstd::seq_lib::to_multiset_insert(before, at, item);
    }
}


/// The daily risk-free rate plus one: 0.04 / (21 * 12) + 1, in millionths.
pub const RISK_FREE_RATE: i64 = 1_000_158;

/// The constant is what the arithmetic of amounts makes of its formula.
pub proof fn lemma_risk_free_rate()
    ensures
        RISK_FREE_RATE == spec_add_fixed(
            spec_div_fixed(40_000, spec_fixed_from_int(21int * 12int)),
            SCALE,
        ),
{
    assert(spec_fixed_from_int(21int * 12int) == 252_000_000);
    assert(40_000 * SCALE == 40_000_000_000int);
    assert(quotient(40_000_000_000, 252_000_000) == 158);
}

/// The accounts of one source while its closed positions are gone through
/// in the order of their open times.
pub ghost struct Ledger {
    /// Close time and margin of the positions whose margin is committed,
    /// oldest first.
    pub window: Seq<(Option<u64>, i64)>,
    /// Sum of the margins in the window.
    pub committed: int,
    /// Sum of the deltas of the admitted positions.
    pub profit: int,
    /// Number of admitted positions.
    pub trades: int,
    /// Wins less losses among the admitted positions.
    pub hits: int,
    /// The admitted positions.
    pub positions: Seq<Position>,
    /// Number of positions left out for want of margin.
    pub missing_margin: int,
    /// Close time of the first position of the open day bucket.
    pub bucket_start: u64,
    /// Sum of the deltas in the open day bucket.
    pub bucket_sum: int,
    /// Number of positions in the open day bucket.
    pub bucket_count: int,
    /// Sum of the returns of the closed day buckets.
    pub daily_sum: int,
    /// Number of closed day buckets.
    pub daily_count: int,
    /// Sum of the squared shortfalls of the daily returns under the
    /// risk-free rate.
    pub downside_sum: int,
    /// Number of daily returns under the risk-free rate.
    pub downside_count: int,
}

/// The accounts before any position.
pub open spec fn empty_ledger() -> Ledger {
    Ledger {
        window: Seq::empty(),
        committed: 0,
        profit: 0,
        trades: 0,
        hits: 0,
        positions: Seq::empty(),
        missing_margin: 0,
        bucket_start: 0,
        bucket_sum: 0,
        bucket_count: 0,
        daily_sum: 0,
        daily_count: 0,
        downside_sum: 0,
        downside_count: 0,
    }
}

/// Sum of the margins in a window.
pub open spec fn window_total(window: Seq<(Option<u64>, i64)>) -> int
    decreases window.len(),
{
    if window.len() == 0 {
        0
    } else {
        window[0].1 + window_total(window.drop_first())
    }
}

/// The window after the entries at its front that closed before `open` have
/// left it, and the margin that stays committed. Eviction stops at the
/// first entry that has not closed by then.
pub open spec fn evicted(window: Seq<(Option<u64>, i64)>, committed: int, open: Option<u64>) -> (
    Seq<(Option<u64>, i64)>,
    int,
)
    decreases window.len(),
{
    if window.len() > 0 && time_key(open) > time_key(window[0].0) {
        evicted(window.drop_first(), committed - window[0].1, open)
    } else {
        (window, committed)
    }
}

/// Margin of a position: open price times contract size times lots.
pub open spec fn spec_margin(price_open: i64, contract_size: u32, lot_size: i64) -> i64 {
    spec_mul_fixed(spec_scale_fixed(price_open, contract_size as int), lot_size)
}

/// Return of a closed day bucket: the sum of its deltas over the margin of
/// the position that closes it, taken once for each position of the bucket.
pub open spec fn bucket_return(bucket_sum: int, bucket_count: int, margin: i64) -> i64 {
    spec_div_fixed(narrow(bucket_sum), spec_scale_fixed(margin, bucket_count))
}

/// Whether the position is admitted to the accounts: the margin that is
/// committed once the window has been cleared, and its own, stay under the
/// ceiling.
pub open spec fn admits(
    conditions: BacktestConditions,
    ledger: Ledger,
    result: SignalResult,
) -> bool {
    let cleared = evicted(ledger.window, ledger.committed, result.position.time_stamp_open);
    let margin = spec_margin(
        result.position.price_open.unwrap(),
        conditions.spec_contract_size(result.signal.symbol@).unwrap(),
        conditions.lot_size,
    );
    cleared.1 + margin < conditions.max_margin
}

/// The accounts after one closed position.
pub open spec fn account(
    conditions: BacktestConditions,
    ledger: Ledger,
    result: SignalResult,
) -> Ledger {
    let position = result.position;
    let cleared = evicted(ledger.window, ledger.committed, position.time_stamp_open);
    let margin = spec_margin(
        position.price_open.unwrap(),
        conditions.spec_contract_size(result.signal.symbol@).unwrap(),
        conditions.lot_size,
    );
    if cleared.1 + margin < conditions.max_margin {
        let delta = position.delta.unwrap();
        let close = position.time_stamp_close.unwrap();
        let admitted = Ledger {
            window: cleared.0.push((position.time_stamp_close, margin)),
            committed: cleared.1 + margin,
            profit: ledger.profit + delta,
            trades: ledger.trades + 1,
            hits: ledger.hits + if delta > 0 { 1int } else { -1int },
            positions: ledger.positions.push(position),
            ..ledger
        };
        if ledger.bucket_count > 0 && close - ledger.bucket_start > DAY_MILLIS {
            let day = bucket_return(ledger.bucket_sum, ledger.bucket_count, margin);
            let shortfall = spec_sub_fixed(day, RISK_FREE_RATE);
            Ledger {
                bucket_start: close,
                bucket_sum: delta as int,
                bucket_count: 1,
                daily_sum: ledger.daily_sum + day,
                daily_count: ledger.daily_count + 1,
                downside_sum: ledger.downside_sum + if shortfall < 0 {
                    spec_mul_fixed(shortfall, shortfall) as int
                } else {
                    0int
                },
                downside_count: ledger.downside_count + if shortfall < 0 { 1int } else { 0int },
                ..admitted
            }
        } else {
            Ledger {
                bucket_start: if ledger.bucket_count > 0 { ledger.bucket_start } else { close },
                bucket_sum: ledger.bucket_sum + delta,
                bucket_count: ledger.bucket_count + 1,
                ..admitted
            }
        }
    } else {
        Ledger {
            window: cleared.0,
            committed: cleared.1,
            missing_margin: ledger.missing_margin + 1,
            ..ledger
        }
    }
}

/// The accounts after the closed positions among the first `n` results.
pub open spec fn ledger_after(
    conditions: BacktestConditions,
    results: Seq<SignalResult>,
    n: int,
) -> Ledger
    decreases n,
{
    if n <= 0 || n > results.len() {
        empty_ledger()
    } else {
        let before = ledger_after(conditions, results, n - 1);
        if results[n - 1].position.closed {
            account(conditions, before, results[n - 1])
        } else {
            before
        }
    }
}

/// How many of the first `n` results carry each reason for being given up.
pub open spec fn tally(results: Seq<SignalResult>, n: int) -> (int, int, int)
    decreases n,
{
    if n <= 0 || n > results.len() {
        (0, 0, 0)
    } else {
        let before = tally(results, n - 1);
        let ignored = results[n - 1].position.ignored;
        (
            before.0 + if ignored.price_gap { 1int } else { 0int },
            before.1 + if ignored.no_entry { 1int } else { 0int },
            before.2 + if ignored.end_of_day { 1int } else { 0int },
        )
    }
}

/// Wins less losses over the number of trades.
pub open spec fn spec_hit_rate(ledger: Ledger) -> i64 {
    narrow(quotient(ledger.hits * SCALE, ledger.trades))
}

/// Mean of the daily returns.
pub open spec fn spec_profit_per_day(ledger: Ledger) -> i64 {
    spec_average(ledger.daily_sum, ledger.daily_count)
}

/// Root of the mean squared shortfall of the daily returns under the
/// risk-free rate.
pub open spec fn spec_downside_deviation(ledger: Ledger) -> i64 {
    spec_sqrt_fixed(spec_average(ledger.downside_sum, ledger.downside_count))
}

/// Mean daily return plus one, less the risk-free rate, over the downside
/// deviation; zero where there is no downside deviation.
pub open spec fn spec_sortino_ratio(ledger: Ledger) -> i64 {
    let deviation = spec_downside_deviation(ledger);
    if deviation > 0 {
        spec_div_fixed(
            spec_sub_fixed(spec_add_fixed(spec_profit_per_day(ledger), SCALE), RISK_FREE_RATE),
            deviation,
        )
    } else {
        0
    }
}

/// What the accounts need of the results: every closed position has its
/// open price, its close time and its delta, and the conditions name the
/// contract size of its symbol.
pub open spec fn accountable(conditions: BacktestConditions, results: Seq<SignalResult>) -> bool {
    forall|i: int|
        0 <= i < results.len() && (#[trigger] results[i]).position.closed ==> {
            &&& results[i].position.price_open.is_some()
            &&& results[i].position.time_stamp_close.is_some()
            &&& results[i].position.delta.is_some()
            &&& conditions.spec_contract_size(results[i].signal.symbol@).is_some()
        }
}

/// The statistics are those of the accounts of the results, taken in the
/// order of their open times.
pub open spec fn summarizes(
    conditions: BacktestConditions,
    results: Seq<SignalResult>,
    summary: BacktestResult,
) -> bool {
    let sorted = sorted_by_open(results, results.len() as int);
    let ledger = ledger_after(conditions, sorted, sorted.len() as int);
    let counts = tally(results, results.len() as int);
    &&& summary.profit == narrow(ledger.profit)
    &&& summary.num_trades == ledger.trades
    &&& summary.sortino_ratio == spec_sortino_ratio(ledger)
    &&& summary.positions@ == ledger.positions
    &&& summary.ignored_counts.missing_margin == ledger.missing_margin
    &&& summary.ignored_counts.price_gap == counts.0
    &&& summary.ignored_counts.no_entry == counts.1
    &&& summary.ignored_counts.end_of_day == counts.2
    &&& summary.hit_rate == spec_hit_rate(ledger)
    &&& summary.profit_per_day == spec_profit_per_day(ledger)
}

/// The accounts as the aggregator keeps them.
struct Accounts {
    pub window: Vec<(Option<u64>, i64)>,
    pub committed: i128,
    pub profit: i128,
    pub trades: usize,
    pub hits: i128,
    pub positions: Vec<Position>,
    pub missing_margin: usize,
    pub bucket_start: u64,
    pub bucket_sum: i128,
    pub bucket_count: usize,
    pub daily_sum: i128,
    pub daily_count: usize,
    pub downside_sum: i128,
    pub downside_count: usize,
}

impl View for Accounts {
    type V = Ledger;

    closed spec fn view(&self) -> Ledger {
        Ledger {
            window: self.window@,
            committed: self.committed as int,
            profit: self.profit as int,
            trades: self.trades as int,
            hits: self.hits as int,
            positions: self.positions@,
            missing_margin: self.missing_margin as int,
            bucket_start: self.bucket_start,
            bucket_sum: self.bucket_sum as int,
            bucket_count: self.bucket_count as int,
            daily_sum: self.daily_sum as int,
            daily_count: self.daily_count as int,
            downside_sum: self.downside_sum as int,
            downside_count: self.downside_count as int,
        }
    }
}

/// The accounts of at most `limit` positions: no count is over `limit`,
/// the committed margin is the sum of the margins in the window, and each
/// other sum is within what as many amounts as it counts can reach.
pub open spec fn within(ledger: Ledger, limit: int) -> bool {
    &&& 0 <= ledger.window.len() <= limit
    &&& ledger.committed == window_total(ledger.window)
    &&& 0 <= ledger.trades <= limit
    &&& -0x8000_0000_0000_0000 * ledger.trades <= ledger.profit <= 0x8000_0000_0000_0000
        * ledger.trades
    &&& -ledger.trades <= ledger.hits <= ledger.trades
    &&& 0 <= ledger.missing_margin <= limit
    &&& 0 <= ledger.bucket_count <= limit
    &&& -0x8000_0000_0000_0000 * ledger.bucket_count <= ledger.bucket_sum
        <= 0x8000_0000_0000_0000 * ledger.bucket_count
    &&& 0 <= ledger.daily_count <= limit
    &&& -0x8000_0000_0000_0000 * ledger.daily_count <= ledger.daily_sum
        <= 0x8000_0000_0000_0000 * ledger.daily_count
    &&& 0 <= ledger.downside_count <= limit
    &&& -0x8000_0000_0000_0000 * ledger.downside_count <= ledger.downside_sum
        <= 0x8000_0000_0000_0000 * ledger.downside_count
}

/// Margin invariant. Where the committed margin is the sum of the margins
/// in the window it remains so after a position is accounted for, and when a
/// position is admitted the margin committed with it stays under the
/// ceiling.
pub proof fn lemma_margin_ceiling(
    conditions: BacktestConditions,
    ledger: Ledger,
    result: SignalResult,
)
    requires
        ledger.committed == window_total(ledger.window),
    ensures
        account(conditions, ledger, result).committed == window_total(
            account(conditions, ledger, result).window,
        ),
        admits(conditions, ledger, result) ==> account(conditions, ledger, result).committed
            < conditions.max_margin,
        !admits(conditions, ledger, result) ==> account(conditions, ledger, result).positions
            == ledger.positions && account(conditions, ledger, result).missing_margin
            == ledger.missing_margin + 1,
{
    let open = result.position.time_stamp_open;
    lemma_evicted_total(ledger.window, ledger.committed, open);
    let cleared = evicted(ledger.window, ledger.committed, open);
    let margin = spec_margin(
        result.position.price_open.unwrap(),
        conditions.spec_contract_size(result.signal.symbol@).unwrap(),
        conditions.lot_size,
    );
    if cleared.1 + margin < conditions.max_margin {
        lemma_window_total_push(cleared.0, (result.position.time_stamp_close, margin));
    }
}

/// At every point of the accounts the committed margin is the sum of the
/// margins in the window.
pub proof fn lemma_ledger_committed(
    conditions: BacktestConditions,
    results: Seq<SignalResult>,
    n: int,
)
    ensures
        ledger_after(conditions, results, n).committed == window_total(
            ledger_after(conditions, results, n).window,
        ),
    decreases n,
{
    if !(n <= 0 || n > results.len()) {
        lemma_ledger_committed(conditions, results, n - 1);
        if results[n - 1].position.closed {
            lemma_margin_ceiling(
                conditions,
                ledger_after(conditions, results, n - 1),
                results[n - 1],
            );
        }
    }
}

/// Margin invariant over a whole run of the accounts. Whenever a closed
/// position is admitted, the sum of the margins of the positions that are
/// then in the window, its own among them, is under the ceiling.
pub proof fn lemma_margin_invariant(
    conditions: BacktestConditions,
    results: Seq<SignalResult>,
    n: int,
)
    requires
        0 < n <= results.len(),
        results[n - 1].position.closed,
        admits(conditions, ledger_after(conditions, results, n - 1), results[n - 1]),
    ensures
        window_total(ledger_after(conditions, results, n).window) < conditions.max_margin,
{
    lemma_ledger_committed(conditions, results, n - 1);
    lemma_margin_ceiling(conditions, ledger_after(conditions, results, n - 1), results[n - 1]);
}

/// The statistics of given results are determined: two summaries of the
/// same results under the same conditions agree in every number and in the
/// positions they list.
pub proof fn lemma_summary_determined(
    conditions: BacktestConditions,
    results: Seq<SignalResult>,
    first: BacktestResult,
    second: BacktestResult,
)
    requires
        summarizes(conditions, results, first),
        summarizes(conditions, results, second),
    ensures
        first.profit == second.profit,
        first.num_trades == second.num_trades,
        first.sortino_ratio == second.sortino_ratio,
        first.positions@ == second.positions@,
        first.ignored_counts == second.ignored_counts,
        first.hit_rate == second.hit_rate,
        first.profit_per_day == second.profit_per_day,
{
}

/// Eviction keeps the committed margin equal to the sum of the margins in
/// the window, and leaves a tail of the window.
pub proof fn lemma_evicted_total(window: Seq<(Option<u64>, i64)>, committed: int, open: Option<u64>)
    requires
        committed == window_total(window),
    ensures
        evicted(window, committed, open).1 == window_total(evicted(window, committed, open).0),
        evicted(window, committed, open).0.len() <= window.len(),
    decreases window.len(),
{
    if window.len() > 0 && time_key(open) > time_key(window[0].0) {
        lemma_evicted_total(window.drop_first(), committed - window[0].1, open);
    }
}

/// The total of a window with one more entry at its end.
pub proof fn lemma_window_total_push(window: Seq<(Option<u64>, i64)>, entry: (Option<u64>, i64))
    ensures
        window_total(window.push(entry)) == window_total(window) + entry.1,
    decreases window.len(),
{
    let longer = window.push(entry);
    assert(window_total(longer) == longer[0].1 + window_total(longer.drop_first()));
    if window.len() == 0 {
        assert(longer.drop_first() =~= Seq::<(Option<u64>, i64)>::empty());
        assert(window_total(longer.drop_first()) == 0);
    } else {
        assert(longer.drop_first() =~= window.drop_first().push(entry));
        lemma_window_total_push(window.drop_first(), entry);
    }
}

/// The total of a window lies within what its entries can reach.
pub proof fn lemma_window_total_bounds(window: Seq<(Option<u64>, i64)>)
    ensures
        -0x8000_0000_0000_0000 * window.len() <= window_total(window) <= 0x8000_0000_0000_0000
            * window.len(),
    decreases window.len(),
{
    if window.len() > 0 {
        lemma_window_total_bounds(window.drop_first());
    }
}

impl Accounts {
    fn new() -> (r: Accounts)
        ensures
            r@ == empty_ledger(),
            within(r@, 0),
    {
        Accounts {
            window: Vec::new(),
            committed: 0,
            profit: 0,
            trades: 0,
            hits: 0,
            positions: Vec::new(),
            missing_margin: 0,
            bucket_start: 0,
            bucket_sum: 0,
            bucket_count: 0,
            daily_sum: 0,
            daily_count: 0,
            downside_sum: 0,
            downside_count: 0,
        }
    }

    /// Lets the entries at the front of the window go that closed before
    /// `open`, and releases their margin.
    fn evict(&mut self, open: Option<u64>, Ghost(limit): Ghost<int>)
        requires
            within(old(self)@, limit),
            0 <= limit < usize::MAX,
        ensures
            (final(self)@.window, final(self)@.committed) == evicted(
                old(self)@.window,
                old(self)@.committed,
                open,
            ),
            final(self)@ == (Ledger {
                window: final(self)@.window,
                committed: final(self)@.committed,
                ..old(self)@
            }),
            within(final(self)@, limit),
    {
        while self.window.len() > 0 && !key_not_greater(open, self.window[0].0)
            invariant
                0 <= limit < usize::MAX,
                within(self@, limit),
                evicted(self@.window, self@.committed, open) == evicted(
                    old(self)@.window,
                    old(self)@.committed,
                    open,
                ),
                self@ == (Ledger {
                    window: self@.window,
                    committed: self@.committed,
                    ..old(self)@
                }),
            decreases self.window@.len(),
        {
            proof {
                lemma_window_total_bounds(self.window@);
            }
            let ghost longer = self.window@;
            let entry = self.window.remove(0);
            assert(self.window@ =~= longer.drop_first());
            self.committed = self.committed - entry.1 as i128;
        }
    }

    /// Accounts for one closed position.
    fn record(
        &mut self,
        conditions: &BacktestConditions,
        result: &SignalResult,
        Ghost(limit): Ghost<int>,
    )
        requires
            within(old(self)@, limit),
            0 <= limit < usize::MAX,
            result.position.price_open.is_some(),
            result.position.time_stamp_close.is_some(),
            result.position.delta.is_some(),
            conditions.spec_contract_size(result.signal.symbol@).is_some(),
        ensures
            final(self)@ == account(*conditions, old(self)@, *result),
            within(final(self)@, limit + 1),
    {
        let position = result.position;
        self.evict(position.time_stamp_open, Ghost(limit));
        let contract_size = conditions.contract_size(&result.signal.symbol).unwrap();
        let margin = mul_fixed(
            scale_fixed(position.price_open.unwrap(), contract_size as u64),
            conditions.lot_size,
        );
        proof {
            lemma_window_total_bounds(self.window@);
        }
        if self.committed + (margin as i128) < conditions.max_margin as i128 {
            let delta = position.delta.unwrap();
            let close = position.time_stamp_close.unwrap();
            proof {
                lemma_window_total_push(self.window@, (position.time_stamp_close, margin));
            }
            self.window.push((position.time_stamp_close, margin));
            self.committed = self.committed + margin as i128;
            self.profit = self.profit + delta as i128;
            self.trades = self.trades + 1;
            self.hits = self.hits + if delta > 0 { 1i128 } else { -1i128 };
            self.positions.push(position);
            let day_over = close as i128 - self.bucket_start as i128 > DAY_MILLIS as i128;
            if self.bucket_count > 0 && day_over {
                let day = div_fixed(
                    clamp(self.bucket_sum),
                    scale_fixed(margin, self.bucket_count as u64),
                );
                let shortfall = sub_fixed(day, RISK_FREE_RATE);
                self.daily_sum = self.daily_sum + day as i128;
                self.daily_count = self.daily_count + 1;
                if shortfall < 0 {
                    self.downside_sum = self.downside_sum + mul_fixed(shortfall, shortfall) as i128;
                    self.downside_count = self.downside_count + 1;
                }
                self.bucket_start = close;
                self.bucket_sum = delta as i128;
                self.bucket_count = 1;
            } else {
                if self.bucket_count == 0 {
                    self.bucket_start = close;
                }
                self.bucket_sum = self.bucket_sum + delta as i128;
                self.bucket_count = self.bucket_count + 1;
            }
        } else {
            self.missing_margin = self.missing_margin + 1;
        }
    }
}

/// Sorting keeps what the accounts need of the results.
pub proof fn lemma_sorted_accountable(conditions: BacktestConditions, results: Seq<SignalResult>)
    requires
        accountable(conditions, results),
    ensures
        accountable(conditions, sorted_by_open(results, results.len() as int)),
{
    broadcast use vstd::seq_lib::group_to_multiset_ensures;

    let sorted = sorted_by_open(results, results.len() as int);
    lemma_sorted_by_open(results, results.len() as int);
    assert(results.subrange(0, results.len() as int) =~= results);
    assert forall|i: int| 0 <= i < sorted.len() && (#[trigger] sorted[i]).position.closed implies {
        &&& sorted[i].position.price_open.is_some()
        &&& sorted[i].position.time_stamp_close.is_some()
        &&& sorted[i].position.delta.is_some()
        &&& conditions.spec_contract_size(sorted[i].signal.symbol@).is_some()
    } by {
        assert(sorted.contains(sorted[i]));
        assert(sorted.to_multiset().count(sorted[i]) > 0);
        assert(results.to_multiset().count(sorted[i]) > 0);
        assert(results.contains(sorted[i]));
        let j = choose|j: int| 0 <= j < results.len() && results[j] == sorted[i];
        assert(results[j].position.closed);
    }
}

impl<'a> BacktestingSignals<'a> {
    /// Whether the results hold what the accounts need: every closed
    /// position its open price, its close time and its delta, and the
    /// conditions the contract size of its symbol.
    pub fn can_account(
        &self,
        conditions: &BacktestConditions,
        results: &Vec<SignalResult>,
    ) -> (r: bool)
        ensures
            r == accountable(*conditions, results@),
    {
        let mut i: usize = 0;
        while i < results.len()
            invariant
                i <= results@.len(),
                forall|j: int|
                    0 <= j < i && (#[trigger] results@[j]).position.closed ==> {
                        &&& results@[j].position.price_open.is_some()
                        &&& results@[j].position.time_stamp_close.is_some()
                        &&& results@[j].position.delta.is_some()
                        &&& conditions.spec_contract_size(results@[j].signal.symbol@).is_some()
                    },
            decreases results@.len() - i,
        {
            let position = results[i].position;
            if position.closed && (position.price_open.is_none()
                || position.time_stamp_close.is_none() || position.delta.is_none()
                || conditions.contract_size(&results[i].signal.symbol).is_none()) {
                return false;
            }
            i = i + 1;
        }
        true
    }

    /// Turns the results of one source into its statistics. The reasons for
    /// which positions were given up are counted over all results; the
    /// closed positions are then gone through in the order of their open
    /// times, each admitted to the accounts only while the margin that is
    /// committed stays under the ceiling.
    pub fn backtest_eval_results(
        &self,
        conditions: &BacktestConditions,
        results: Vec<SignalResult>,
    ) -> (summary: BacktestResult)
        requires
            accountable(*conditions, results@),
        ensures
            summarizes(*conditions, results@, summary),
    {
        let mut price_gap: usize = 0;
        let mut no_entry: usize = 0;
        let mut end_of_day: usize = 0;
        let mut k: usize = 0;
        while k < results.len()
            invariant
                k <= results@.len(),
                price_gap <= k,
                no_entry <= k,
                end_of_day <= k,
                tally(results@, k as int) == (price_gap as int, no_entry as int, end_of_day as int),
            decreases results@.len() - k,
        {
            let ignored = results[k].position.ignored;
            if ignored.price_gap {
                price_gap = price_gap + 1;
            }
            if ignored.no_entry {
                no_entry = no_entry + 1;
            }
            if ignored.end_of_day {
                end_of_day = end_of_day + 1;
            }
            k = k + 1;
        }
        proof {
            lemma_sorted_accountable(*conditions, results@);
        }
        let ghost given = results@;
        let sorted = sort_by_open(results);
        let mut accounts = Accounts::new();
        let mut i: usize = 0;
        while i < sorted.len()
            invariant
                i <= sorted@.len(),
                accountable(*conditions, sorted@),
                within(accounts@, i as int),
                accounts@ == ledger_after(*conditions, sorted@, i as int),
            decreases sorted@.len() - i,
        {
            if sorted[i].position.closed {
                accounts.record(conditions, &sorted[i], Ghost(i as int));
            }
            i = i + 1;
        }
        let ghost ledger = accounts@;
        assert(-0x1_0000_0000_0000_0000 * 1_000_000 <= accounts.hits * SCALE
            <= 0x1_0000_0000_0000_0000 * 1_000_000) by (nonlinear_arith)
            requires
                -0x1_0000_0000_0000_0000 <= accounts.hits <= 0x1_0000_0000_0000_0000,
                SCALE == 1_000_000,
        ;
        let hit_rate = clamp(divide(accounts.hits * SCALE as i128, accounts.trades as i128));
        let profit_per_day = average(accounts.daily_sum, accounts.daily_count);
        let deviation = sqrt_fixed(average(accounts.downside_sum, accounts.downside_count));
        let sortino_ratio = if deviation > 0 {
            div_fixed(sub_fixed(add_fixed(profit_per_day, SCALE), RISK_FREE_RATE), deviation)
        } else {
            0
        };
        let ignored_counts = IgnoredCounts {
            missing_margin: accounts.missing_margin,
            price_gap,
            no_entry,
            end_of_day,
        };
        BacktestResult::new(
            clamp(accounts.profit),
            accounts.trades,
            sortino_ratio,
            accounts.positions,
            ignored_counts,
            hit_rate,
            profit_per_day,
        )
    }
}

/// Orders the results by open time, keeping the order of equal ones.
pub fn sort_by_open(results: Vec<SignalResult>) -> (sorted: Vec<SignalResult>)
    ensures
        sorted@ == sorted_by_open(results@, results@.len() as int),
        sorted@.len() == results@.len(),
        ordered_by_open(sorted@),
        sorted@.to_multiset() == results@.to_multiset(),
{
    let mut sorted: Vec<SignalResult> = Vec::new();
    let ghost all = results@;
    for item in it: results.into_iter()
        invariant
            it.seq() == all,
            sorted@ == sorted_by_open(all, it.index() as int),
            sorted@.len() == it.index(),
    {
        let key = item.position.time_stamp_open;
        let mut at: usize = sorted.len();
        while at > 0 && !key_not_greater(sorted[at - 1].position.time_stamp_open, key)
            invariant
                at <= sorted@.len(),
                key == item.position.time_stamp_open,
                insertion_point(sorted@, open_key(item), at as int) == insertion_point(
                    sorted@,
                    open_key(item),
                    sorted@.len() as int,
                ),
            decreases at,
        {
            at = at - 1;
        }
        sorted.insert(at, item);
    }
    proof {
        lemma_sorted_by_open(all, all.len() as int);
        assert(all.subrange(0, all.len() as int) =~= all);
    }
    sorted
}

/// Whether the first open time is not later than the second; no time comes
/// before every time.
pub fn key_not_greater(first: Option<u64>, second: Option<u64>) -> (r: bool)
    ensures
        r == (time_key(first) <= time_key(second)),
{
    match first {
        None => true,
        Some(a) => match second {
            None => false,
            Some(b) => a <= b,
        },
    }
}

} // verus!
