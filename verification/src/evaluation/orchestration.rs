//! Runs over all sources: signals are grouped by source and by symbol, each
//! symbol is simulated on its price series, and each source is accounted
//! for.

use vstd::prelude::*;

use crate::evaluation::aggregation::{accountable, summarizes};
use crate::evaluation::backtest_conditions::BacktestConditions;
use crate::evaluation::backtest_result::BacktestResult;
use crate::evaluation::backtesting_signals::{
    all_concluded, spec_check_close, spec_check_init, spec_check_open, spec_simulate, terms_for,
    BacktestingSignals, LAST_CALENDAR_SECOND,
};
use crate::evaluation::signal::{Signal, SignalResult};
use crate::evaluation::simulator_laws::lemma_simulate_signals;
use crate::lookup::{
    find_index, first_match, lemma_first_index, lemma_listed_index, listed_index, listing, put,
    put_under,
};
use crate::prices::price_manager::PriceManager;
use crate::strategies::entry::entry::Entry;
use crate::strategies::exit::exit::Exit;
use crate::strategies::strategy::{spec_strategy, Strategy, StrategyManager, StrategyRules};

verus! {

/// What signals are grouped by.
#[derive(Debug, Clone, Copy, PartialEq, Eq, Structural)]
pub enum Grouping {
    Source,
    Symbol,
}

/// The name under which a signal falls.
pub open spec fn group_key(signal: Signal, by: Grouping) -> Seq<char> {
    match by {
        Grouping::Source => signal.source@,
        Grouping::Symbol => signal.symbol@,
    }
}

/// The first `n` signals in groups: the groups in the order in which their
/// names first occur, the signals of a group in the order given.
pub open spec fn grouped(signals: Seq<Signal>, n: int, by: Grouping) -> Seq<
    (Seq<char>, Seq<Signal>),
>
    decreases n,
{
    if n <= 0 || n > signals.len() {
        Seq::empty()
    } else {
        put(grouped(signals, n - 1, by), group_key(signals[n - 1], by), seq![signals[n - 1]])
    }
}

/// No group is empty, every signal of a group falls under the group's name,
/// and what holds of every signal given holds of every signal in a group.
pub proof fn lemma_grouped(
    signals: Seq<Signal>,
    n: int,
    by: Grouping,
    keep: spec_fn(Signal) -> bool,
)
    requires
        0 <= n <= signals.len(),
        forall|j: int| 0 <= j < signals.len() ==> keep(#[trigger] signals[j]),
    ensures
        forall|g: int|
            0 <= g < grouped(signals, n, by).len() ==> (#[trigger] grouped(
                signals,
                n,
                by,
            )[g]).1.len() > 0,
        forall|g: int, k: int|
            0 <= g < grouped(signals, n, by).len() && 0 <= k < grouped(signals, n, by)[g].1.len()
                ==> keep(#[trigger] grouped(signals, n, by)[g].1[k]) && group_key(
                grouped(signals, n, by)[g].1[k],
                by,
            ) == grouped(signals, n, by)[g].0,
    decreases n,
{
    if n > 0 {
        lemma_grouped(signals, n - 1, by, keep);
        let before = grouped(signals, n - 1, by);
        let signal = signals[n - 1];
        let key = group_key(signal, by);
        lemma_listed_index(before, key);
        let after = grouped(signals, n, by);
        assert forall|g: int, k: int|
            0 <= g < after.len() && 0 <= k < after[g].1.len() implies keep(
            #[trigger] after[g].1[k],
        ) && group_key(after[g].1[k], by) == after[g].0 by {
            match listed_index(before, key) {
                Some(i) => {
                    if g == i {
                        if k < before[i].1.len() {
                            assert(after[g].1[k] == before[g].1[k]);
                        } else {
                            assert(after[g].1[k] == signal);
                        }
                    } else {
                        assert(after[g] == before[g]);
                    }
                },
                None => {
                    if g < before.len() {
                        assert(after[g] == before[g]);
                    } else {
                        assert(after[g].1[k] == signal);
                    }
                },
            }
        }
        assert forall|g: int| 0 <= g < after.len() implies (#[trigger] after[g]).1.len() > 0 by {
            match listed_index(before, key) {
                Some(i) => {
                    if g != i {
                        assert(after[g] == before[g]);
                    }
                },
                None => {
                    if g < before.len() {
                        assert(after[g] == before[g]);
                    }
                },
            }
        }
    }
}

/// Groups the signals by source or by symbol.
pub fn group_signals(signals: Vec<Signal>, by: Grouping) -> (groups: Vec<(String, Vec<Signal>)>)
    ensures
        listing(groups@) == grouped(signals@, signals@.len() as int, by),
{
    let mut groups: Vec<(String, Vec<Signal>)> = Vec::new();
    let ghost all = signals@;
    assert(listing(groups@) =~= Seq::<(Seq<char>, Seq<Signal>)>::empty());
    for signal in it: signals.into_iter()
        invariant
            it.seq() == all,
            listing(groups@) == grouped(all, it.index() as int, by),
    {
        let key = match by {
            Grouping::Source => signal.source.clone(),
            Grouping::Symbol => signal.symbol.clone(),
        };
        let mut one: Vec<Signal> = Vec::new();
        one.push(signal);
        assert(one@ =~= seq![signal]);
        put_under(&mut groups, key, &mut one);
    }
    groups
}

/// What a run needs for a signal: a price series for its symbol that is
/// not empty, the contract size of its symbol, and a time stamp that, read
/// as seconds, lies in the calendar.
pub open spec fn runnable(
    price_manager: PriceManager,
    conditions: BacktestConditions,
    signal: Signal,
) -> bool {
    &&& price_manager.series(signal.symbol@).is_some()
    &&& price_manager.series(signal.symbol@).unwrap().len() > 0
    &&& conditions.spec_contract_size(signal.symbol@).is_some()
    &&& signal.time_stamp <= LAST_CALENDAR_SECOND
}

/// Every signal can be run.
pub open spec fn all_runnable(
    price_manager: PriceManager,
    conditions: BacktestConditions,
    signals: Seq<Signal>,
) -> bool {
    forall|i: int|
        0 <= i < signals.len() ==> runnable(price_manager, conditions, #[trigger] signals[i])
}

/// The results of the first `n` groups of signals, each group simulated on
/// the series of its symbol, one group after the other.
pub open spec fn symbol_results(
    price_manager: PriceManager,
    conditions: BacktestConditions,
    strategy: Strategy,
    groups: Seq<(Seq<char>, Seq<Signal>)>,
    n: int,
) -> Seq<SignalResult>
    decreases n,
{
    if n <= 0 || n > groups.len() {
        Seq::empty()
    } else {
        symbol_results(price_manager, conditions, strategy, groups, n - 1) + spec_simulate(
            strategy,
            terms_for(conditions, groups[n - 1].0),
            groups[n - 1].1,
            price_manager.series(groups[n - 1].0).unwrap(),
        )
    }
}

/// The results of one source: its signals grouped by symbol, the symbols
/// in the order in which they first occur.
pub open spec fn spec_source_results(
    price_manager: PriceManager,
    conditions: BacktestConditions,
    strategy: Strategy,
    signals: Seq<Signal>,
) -> Seq<SignalResult> {
    let groups = grouped(signals, signals.len() as int, Grouping::Symbol);
    symbol_results(price_manager, conditions, strategy, groups, groups.len() as int)
}

/// The fault of the first of the first `n` sources whose rules do not build
/// a strategy, if there is one.
pub open spec fn first_fault(
    strategy_rules: Seq<(String, StrategyRules)>,
    groups: Seq<(Seq<char>, Seq<Signal>)>,
    n: int,
) -> Option<&'static str>
    decreases n,
{
    if n <= 0 || n > groups.len() {
        None
    } else {
        match first_fault(strategy_rules, groups, n - 1) {
            Some(message) => Some(message),
            None => match spec_strategy(first_match(strategy_rules, groups[n - 1].0).unwrap()) {
                Err(message) => Some(message),
                Ok(_) => None,
            },
        }
    }
}

/// The statistics of one source are those of its results under the strategy
/// that its rules name.
pub open spec fn source_summary(
    price_manager: PriceManager,
    conditions: BacktestConditions,
    strategy_rules: Seq<(String, StrategyRules)>,
    group: (Seq<char>, Seq<Signal>),
    entry: (String, BacktestResult),
) -> bool {
    &&& entry.0@ == group.0
    &&& spec_strategy(first_match(strategy_rules, group.0).unwrap()) is Ok
    &&& summarizes(
        conditions,
        spec_source_results(
            price_manager,
            conditions,
            spec_strategy(first_match(strategy_rules, group.0).unwrap())->Ok_0,
            group.1,
        ),
        entry.1,
    )
}

/// What a run over all sources gives. Where the rules of a source name no
/// strategy the run gives the fault of the first such source. Otherwise it
/// gives one entry for each source, in the order in which the sources first
/// occur among the signals, with the statistics of that source.
pub open spec fn execution_outcome(
    price_manager: PriceManager,
    conditions: BacktestConditions,
    strategy_rules: Seq<(String, StrategyRules)>,
    signals: Seq<Signal>,
    outcome: Result<Vec<(String, BacktestResult)>, &'static str>,
) -> bool {
    let groups = grouped(signals, signals.len() as int, Grouping::Source);
    match first_fault(strategy_rules, groups, groups.len() as int) {
        Some(message) => outcome == Err::<Vec<(String, BacktestResult)>, &'static str>(message),
        None => outcome is Ok && outcome->Ok_0@.len() == groups.len() && forall|g: int|
            0 <= g < outcome->Ok_0@.len() ==> source_summary(
                price_manager,
                conditions,
                strategy_rules,
                groups[g],
                #[trigger] outcome->Ok_0@[g],
            ),
    }
}

/// A run is determined by what it is given: two outcomes of a run on the
/// same prices, conditions, rules and signals are the same fault, or list
/// the same sources in the same order with statistics that agree in every
/// number and in the positions they list.
pub proof fn lemma_execution_determined(
    price_manager: PriceManager,
    conditions: BacktestConditions,
    strategy_rules: Seq<(String, StrategyRules)>,
    signals: Seq<Signal>,
    first: Result<Vec<(String, BacktestResult)>, &'static str>,
    second: Result<Vec<(String, BacktestResult)>, &'static str>,
)
    requires
        execution_outcome(price_manager, conditions, strategy_rules, signals, first),
        execution_outcome(price_manager, conditions, strategy_rules, signals, second),
    ensures
        first is Err <==> second is Err,
        first is Err ==> first->Err_0 == second->Err_0,
        first is Ok ==> first->Ok_0@.len() == second->Ok_0@.len() && forall|g: int|
            0 <= g < first->Ok_0@.len() ==> {
                let a = #[trigger] first->Ok_0@[g];
                let b = second->Ok_0@[g];
                &&& a.0@ == b.0@
                &&& a.1.profit == b.1.profit
                &&& a.1.num_trades == b.1.num_trades
                &&& a.1.sortino_ratio == b.1.sortino_ratio
                &&& a.1.positions@ == b.1.positions@
                &&& a.1.ignored_counts == b.1.ignored_counts
                &&& a.1.hit_rate == b.1.hit_rate
                &&& a.1.profit_per_day == b.1.profit_per_day
            },
{
    let groups = grouped(signals, signals.len() as int, Grouping::Source);
    if first is Ok {
        assert forall|g: int| 0 <= g < first->Ok_0@.len() implies {
            let a = #[trigger] first->Ok_0@[g];
            let b = second->Ok_0@[g];
            &&& a.0@ == b.0@
            &&& a.1.profit == b.1.profit
            &&& a.1.num_trades == b.1.num_trades
            &&& a.1.sortino_ratio == b.1.sortino_ratio
            &&& a.1.positions@ == b.1.positions@
            &&& a.1.ignored_counts == b.1.ignored_counts
            &&& a.1.hit_rate == b.1.hit_rate
            &&& a.1.profit_per_day == b.1.profit_per_day
        } by {
            assert(source_summary(
                price_manager,
                conditions,
                strategy_rules,
                groups[g],
                first->Ok_0@[g],
            ));
            assert(source_summary(
                price_manager,
                conditions,
                strategy_rules,
                groups[g],
                second->Ok_0@[g],
            ));
        }
    }
}

/// The rules name every source that occurs among the signals.
pub open spec fn rules_cover(
    strategy_rules: Seq<(String, StrategyRules)>,
    signals: Seq<Signal>,
) -> bool {
    forall|i: int|
        0 <= i < signals.len() ==> first_match(
            strategy_rules,
            (#[trigger] signals[i]).source@,
        ).is_some()
}

impl<'a> BacktestingSignals<'a> {
    /// Whether every signal can be run: its symbol has prices and a
    /// contract size, and its time stamp lies in the calendar.
    pub fn can_run(&self, conditions: &BacktestConditions, signals: &Vec<Signal>) -> (r: bool)
        ensures
            r == all_runnable(*self.price_manager, *conditions, signals@),
    {
        let mut i: usize = 0;
        while i < signals.len()
            invariant
                i <= signals@.len(),
                forall|j: int|
                    0 <= j < i ==> runnable(
                        *self.price_manager,
                        *conditions,
                        #[trigger] signals@[j],
                    ),
            decreases signals@.len() - i,
        {
            let signal = &signals[i];
            let priced = conditions.contract_size(&signal.symbol).is_some();
            let quoted = match self.price_manager.get(&signal.symbol) {
                Some(series) => series.len() > 0,
                None => false,
            };
            if !priced || !quoted || signal.time_stamp > LAST_CALENDAR_SECOND {
                return false;
            }
            i = i + 1;
        }
        true
    }

    /// Whether the rules name every source that occurs among the signals.
    pub fn has_rules_for(
        &self,
        strategy_rules: &Vec<(String, StrategyRules)>,
        signals: &Vec<Signal>,
    ) -> (r: bool)
        ensures
            r == rules_cover(strategy_rules@, signals@),
    {
        let mut i: usize = 0;
        while i < signals.len()
            invariant
                i <= signals@.len(),
                forall|j: int|
                    0 <= j < i ==> first_match(
                        strategy_rules@,
                        (#[trigger] signals@[j]).source@,
                    ).is_some(),
            decreases signals@.len() - i,
        {
            proof {
                lemma_first_index(strategy_rules@, signals@[i as int].source@);
            }
            if find_index(strategy_rules, &signals[i].source).is_none() {
                return false;
            }
            i = i + 1;
        }
        true
    }

    /// Groups the signals by source.
    pub fn group_signals_by_source(&self, signals: Vec<Signal>) -> (groups: Vec<
        (String, Vec<Signal>),
    >)
        ensures
            listing(groups@) == grouped(signals@, signals@.len() as int, Grouping::Source),
    {
        group_signals(signals, Grouping::Source)
    }

    /// Groups the signals by symbol.
    pub fn group_signals_by_symbol(&self, signals: Vec<Signal>) -> (groups: Vec<
        (String, Vec<Signal>),
    >)
        ensures
            listing(groups@) == grouped(signals@, signals@.len() as int, Grouping::Symbol),
    {
        group_signals(signals, Grouping::Symbol)
    }

    /// Simulates the signals of one source under the strategy that the
    /// rules of the source name, symbol by symbol. Rules that name no
    /// strategy give their fault, and nothing is simulated.
    pub fn backtest_source(
        &self,
        source: &str,
        conditions: &BacktestConditions,
        strategy_rules: &Vec<(String, StrategyRules)>,
        signals: Vec<Signal>,
    ) -> (r: Result<Vec<SignalResult>, &'static str>)
        requires
            first_match(strategy_rules@, source@).is_some(),
            all_runnable(*self.price_manager, *conditions, signals@),
        ensures
            match spec_strategy(first_match(strategy_rules@, source@).unwrap()) {
                Err(message) => r == Err::<Vec<SignalResult>, &'static str>(message),
                Ok(strategy) => r is Ok && r->Ok_0@ == spec_source_results(
                    *self.price_manager,
                    *conditions,
                    strategy,
                    signals@,
                ) && all_concluded(r->Ok_0@) && accountable(*conditions, r->Ok_0@),
            },
    {
        let owned = source.to_owned();
        proof {
            lemma_first_index(strategy_rules@, source@);
        }
        let at = find_index(strategy_rules, &owned).unwrap();
        let strategy = match StrategyManager::convert_rules_to_strategy(&strategy_rules[at].1) {
            Ok(built) => built,
            Err(message) => { return Err(message); },
        };
        let ghost given = signals@;
        let groups = self.group_signals_by_symbol(signals);
        let ghost lists = listing(groups@);
        let ghost can_run = |signal: Signal| runnable(*self.price_manager, *conditions, signal);
        proof {
            lemma_grouped(given, given.len() as int, Grouping::Symbol, can_run);
        }
        let mut results: Vec<SignalResult> = Vec::new();
        let ghost all = groups@;
        assert(results@ =~= Seq::<SignalResult>::empty());
        for group in it: groups.into_iter()
            invariant
                it.seq() == all,
                lists == listing(all),
                lists == grouped(given, given.len() as int, Grouping::Symbol),
                forall|g: int| 0 <= g < lists.len() ==> (#[trigger] lists[g]).1.len() > 0,
                forall|g: int, k: int|
                    0 <= g < lists.len() && 0 <= k < lists[g].1.len() ==> runnable(
                        *self.price_manager,
                        *conditions,
                        #[trigger] lists[g].1[k],
                    ) && lists[g].1[k].symbol@ == lists[g].0,
                results@ == symbol_results(
                    *self.price_manager,
                    *conditions,
                    strategy,
                    lists,
                    it.index() as int,
                ),
                all_concluded(results@),
                accountable(*conditions, results@),
        {
            let (symbol, signals) = group;
            let ghost g = it.index() as int;
            assert(lists[g] == (symbol@, signals@));
            assert(runnable(*self.price_manager, *conditions, lists[g].1[0]));
            assert forall|k: int| 0 <= k < signals@.len() implies (#[trigger] signals@[k])
                .time_stamp <= LAST_CALENDAR_SECOND by {
                assert(runnable(*self.price_manager, *conditions, lists[g].1[k]));
            }
            let ghost terms = terms_for(*conditions, symbol@);
            let ghost priced = |signal: Signal|
                conditions.spec_contract_size(signal.symbol@).is_some();
            proof {
                assert forall|k: int| 0 <= k < signals@.len() implies priced(
                    #[trigger] signals@[k],
                ) by {
                    assert(runnable(*self.price_manager, *conditions, lists[g].1[k]));
                }
                lemma_simulate_signals(
                    strategy,
                    terms,
                    signals@,
                    self.price_manager.series(symbol@).unwrap(),
                    priced,
                );
            }
            let mut part = self.backtest(conditions, &strategy, signals, symbol);
            let ghost before = results@;
            let ghost added = part@;
            results.append(&mut part);
            assert forall|i: int| 0 <= i < results@.len() implies (#[trigger] results@[i])
                .position.concluded() by {
                if i >= before.len() {
                    assert(results@[i] == added[i - before.len()]);
                } else {
                    assert(results@[i] == before[i]);
                }
            }
            assert forall|i: int|
                0 <= i < results@.len() && (#[trigger] results@[i]).position.closed implies {
                &&& results@[i].position.price_open.is_some()
                &&& results@[i].position.time_stamp_close.is_some()
                &&& results@[i].position.delta.is_some()
                &&& conditions.spec_contract_size(results@[i].signal.symbol@).is_some()
            } by {
                if i >= before.len() {
                    assert(results@[i] == added[i - before.len()]);
                    assert(added[i - before.len()].position.concluded());
                    assert(priced(added[i - before.len()].signal));
                } else {
                    assert(results@[i] == before[i]);
                }
            }
        }
        Ok(results)
    }

    /// Runs every source, one after the other, in the order in which the
    /// sources first occur among the signals. The rules of all sources are
    /// looked at before anything is simulated: the first source whose rules
    /// name no strategy gives its fault.
    pub fn backtest_execute(
        &self,
        conditions: BacktestConditions,
        strategy_rules: &Vec<(String, StrategyRules)>,
        signals: Vec<Signal>,
    ) -> (r: Result<Vec<(String, BacktestResult)>, &'static str>)
        requires
            all_runnable(*self.price_manager, conditions, signals@),
            rules_cover(strategy_rules@, signals@),
        ensures
            execution_outcome(*self.price_manager, conditions, strategy_rules@, signals@, r),
    {
        let ghost given = signals@;
        let groups = self.group_signals_by_source(signals);
        let ghost lists = listing(groups@);
        let ghost ready = |signal: Signal|
            runnable(*self.price_manager, conditions, signal) && first_match(
                strategy_rules@,
                signal.source@,
            ).is_some();
        proof {
            lemma_grouped(given, given.len() as int, Grouping::Source, ready);
        }
        let mut k: usize = 0;
        while k < groups.len()
            invariant
                k <= groups@.len(),
                lists == listing(groups@),
                given == signals@,
                lists == grouped(given, given.len() as int, Grouping::Source),
                forall|g: int| 0 <= g < lists.len() ==> (#[trigger] lists[g]).1.len() > 0,
                forall|g: int, j: int|
                    0 <= g < lists.len() && 0 <= j < lists[g].1.len() ==> runnable(
                        *self.price_manager,
                        conditions,
                        #[trigger] lists[g].1[j],
                    ) && first_match(strategy_rules@, lists[g].1[j].source@).is_some()
                        && lists[g].1[j].source@ == lists[g].0,
                first_fault(strategy_rules@, lists, k as int).is_none(),
            decreases groups@.len() - k,
        {
            assert(lists[k as int] == (groups@[k as int].0@, groups@[k as int].1@));
            assert(runnable(*self.price_manager, conditions, lists[k as int].1[0]));
            proof {
                lemma_first_index(strategy_rules@, groups@[k as int].0@);
            }
            let at = find_index(strategy_rules, &groups[k].0).unwrap();
            match StrategyManager::convert_rules_to_strategy(&strategy_rules[at].1) {
                Ok(_) => {},
                Err(message) => {
                    proof {
                        assert(first_fault(strategy_rules@, lists, k as int + 1) == Some(message));
                        lemma_first_fault_stays(
                            strategy_rules@,
                            lists,
                            k as int + 1,
                            lists.len() as int,
                        );
                    }
                    return Err(message);
                },
            }
            k = k + 1;
        }
        let mut summaries: Vec<(String, BacktestResult)> = Vec::new();
        let ghost all = groups@;
        for group in it: groups.into_iter()
            invariant
                it.seq() == all,
                lists == listing(all),
                lists == grouped(given, given.len() as int, Grouping::Source),
                forall|g: int| 0 <= g < lists.len() ==> (#[trigger] lists[g]).1.len() > 0,
                forall|g: int, j: int|
                    0 <= g < lists.len() && 0 <= j < lists[g].1.len() ==> runnable(
                        *self.price_manager,
                        conditions,
                        #[trigger] lists[g].1[j],
                    ) && first_match(strategy_rules@, lists[g].1[j].source@).is_some()
                        && lists[g].1[j].source@ == lists[g].0,
                first_fault(strategy_rules@, lists, lists.len() as int).is_none(),
                summaries@.len() == it.index(),
                forall|g: int|
                    0 <= g < summaries@.len() ==> source_summary(
                        *self.price_manager,
                        conditions,
                        strategy_rules@,
                        lists[g],
                        #[trigger] summaries@[g],
                    ),
        {
            let (source, signals) = group;
            let ghost g = it.index() as int;
            assert(lists[g] == (source@, signals@));
            assert(runnable(*self.price_manager, conditions, lists[g].1[0]));
            assert forall|j: int| 0 <= j < signals@.len() implies runnable(
                *self.price_manager,
                conditions,
                #[trigger] signals@[j],
            ) by {
                assert(runnable(*self.price_manager, conditions, lists[g].1[j]));
            }
            proof {
                lemma_first_fault_none(strategy_rules@, lists, lists.len() as int, g);
            }
            let results = match self.backtest_source(
                source.as_str(),
                &conditions,
                strategy_rules,
                signals,
            ) {
                Ok(results) => results,
                Err(message) => { return Err(message); },
            };
            let summary = self.backtest_eval_results(&conditions, results);
            let ghost before = summaries@;
            summaries.push((source, summary));
            assert forall|h: int| 0 <= h < summaries@.len() implies source_summary(
                *self.price_manager,
                conditions,
                strategy_rules@,
                lists[h],
                #[trigger] summaries@[h],
            ) by {
                if h < before.len() {
                    assert(summaries@[h] == before[h]);
                }
            }
        }
        Ok(summaries)
    }

    /// Runs the filter and, if it lets the signal pass, the preparation of
    /// its entry, on the series of the signal's symbol.
    pub fn check_filter_extern(&self, strategy_rules: StrategyRules, signal: Signal) -> (r: Result<
        SignalResult,
        &'static str,
    >)
        requires
            self.price_manager.series(signal.symbol@).is_some(),
            self.price_manager.series(signal.symbol@).unwrap().len() > 0,
        ensures
            match spec_strategy(strategy_rules) {
                Err(message) => r == Err::<SignalResult, &'static str>(message),
                Ok(strategy) => r == Ok::<SignalResult, &'static str>(
                    spec_check_init(
                        strategy,
                        SignalResult::fresh(signal),
                        self.price_manager.series(signal.symbol@).unwrap(),
                    ),
                ),
            },
    {
        let strategy = match StrategyManager::convert_rules_to_strategy(&strategy_rules) {
            Ok(built) => built,
            Err(message) => { return Err(message); },
        };
        let prices = self.price_manager.get(&signal.symbol).unwrap();
        let mut signal_result = SignalResult::new(signal);
        self.signal_check_init(&strategy, &mut signal_result, prices.as_slice());
        Ok(signal_result)
    }

    /// Looks for the entry of the signal on the last quote of the series of
    /// its symbol.
    pub fn check_entry_extern(
        &self,
        strategy_rules: StrategyRules,
        signal_result: SignalResult,
    ) -> (r: Result<SignalResult, &'static str>)
        requires
            self.price_manager.series(signal_result.signal.symbol@).is_some(),
            self.price_manager.series(signal_result.signal.symbol@).unwrap().len() > 0,
            spec_strategy(strategy_rules) is Ok ==> spec_strategy(
                strategy_rules,
            )->Ok_0.entry.entry_ready(signal_result.position.strategy_attributes),
        ensures
            match spec_strategy(strategy_rules) {
                Err(message) => r == Err::<SignalResult, &'static str>(message),
                Ok(strategy) => r == Ok::<SignalResult, &'static str>(
                    spec_check_open(
                        strategy,
                        signal_result,
                        self.price_manager.series(signal_result.signal.symbol@).unwrap(),
                    ),
                ),
            },
    {
        let strategy = match StrategyManager::convert_rules_to_strategy(&strategy_rules) {
            Ok(built) => built,
            Err(message) => { return Err(message); },
        };
        let prices = self.price_manager.get(&signal_result.signal.symbol).unwrap();
        let mut signal_result = signal_result;
        self.signal_check_open(&strategy, &mut signal_result, prices.as_slice());
        Ok(signal_result)
    }

    /// Looks for the exit of the signal on the last quote of the series of
    /// its symbol.
    pub fn check_exit_extern(
        &self,
        strategy_rules: StrategyRules,
        signal_result: SignalResult,
    ) -> (r: Result<SignalResult, &'static str>)
        requires
            self.price_manager.series(signal_result.signal.symbol@).is_some(),
            self.price_manager.series(signal_result.signal.symbol@).unwrap().len() > 0,
            spec_strategy(strategy_rules) is Ok ==> signal_result.position.price_open.is_some()
                && spec_strategy(strategy_rules)->Ok_0.exit.exit_ready(
                signal_result.position.strategy_attributes,
            ),
        ensures
            match spec_strategy(strategy_rules) {
                Err(message) => r == Err::<SignalResult, &'static str>(message),
                Ok(strategy) => r == Ok::<SignalResult, &'static str>(
                    spec_check_close(
                        strategy,
                        signal_result,
                        self.price_manager.series(signal_result.signal.symbol@).unwrap(),
                    ),
                ),
            },
    {
        let strategy = match StrategyManager::convert_rules_to_strategy(&strategy_rules) {
            Ok(built) => built,
            Err(message) => { return Err(message); },
        };
        let prices = self.price_manager.get(&signal_result.signal.symbol).unwrap();
        let mut signal_result = signal_result;
        self.signal_check_close(&strategy, &mut signal_result, prices.as_slice());
        Ok(signal_result)
    }
}

/// A fault among the first `n` sources is the fault among the first `m`,
/// for every `m` from `n` on.
pub proof fn lemma_first_fault_stays(
    strategy_rules: Seq<(String, StrategyRules)>,
    groups: Seq<(Seq<char>, Seq<Signal>)>,
    n: int,
    m: int,
)
    requires
        0 <= n <= m <= groups.len(),
        first_fault(strategy_rules, groups, n).is_some(),
    ensures
        first_fault(strategy_rules, groups, m) == first_fault(strategy_rules, groups, n),
    decreases m - n,
{
    if n < m {
        lemma_first_fault_stays(strategy_rules, groups, n, m - 1);
    }
}

/// Without a fault among the first `n` sources the rules of each of them
/// build a strategy.
pub proof fn lemma_first_fault_none(
    strategy_rules: Seq<(String, StrategyRules)>,
    groups: Seq<(Seq<char>, Seq<Signal>)>,
    n: int,
    g: int,
)
    requires
        0 <= g < n <= groups.len(),
        first_fault(strategy_rules, groups, n).is_none(),
    ensures
        spec_strategy(first_match(strategy_rules, groups[g].0).unwrap()) is Ok,
    decreases n,
{
    if g < n - 1 {
        lemma_first_fault_none(strategy_rules, groups, n - 1, g);
    }
}

} // verus!
