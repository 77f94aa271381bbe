//! Strategies and how they are built from named rules.

use vstd::prelude::*;

use crate::evaluation::position::{Position, StrategyAttributes};
use crate::evaluation::signal::{Signal, SignalResult};
use crate::fixed::{integer_part, spec_integer_part};
use crate::lookup::{find_first, first_match, is_named};
use crate::prices::price::PricePoint;
use crate::strategies::entry::bollinger::Bollinger as BollingerEntry;
use crate::strategies::entry::entry::Entry;
use crate::strategies::entry::immediate::Immediate;
use crate::strategies::entry::volatility_mean::VolatilityMean;
use crate::strategies::entry::volatility_pullback::VolatilityPullback;
use crate::strategies::exit::bollinger::Bollinger as BollingerExit;
use crate::strategies::exit::exit::Exit;
use crate::strategies::exit::fixed_tp::FixedTP;
use crate::strategies::exit::trailing_stop::TrailingStop;
use crate::strategies::filter::filter::Filter;
use crate::strategies::filter::no_filter::NoFilter;

verus! {

/// One named rule with its numeric parameters. The first entry of a
/// parameter counts.
#[derive(Debug, Clone)]
pub struct Rule {
    pub name: String,
    pub parameters: Vec<(String, i64)>,
}

/// The three named rules that a strategy is built from.
#[derive(Debug, Clone)]
pub struct StrategyRules {
    pub entry: Rule,
    pub exit: Rule,
    pub filter: Rule,
}

/// The entry rules that can be named.
#[derive(Debug, Clone, Copy, PartialEq, Eq, Structural)]
pub enum EntryKind {
    VolatilityMean(VolatilityMean),
    VolatilityPullback(VolatilityPullback),
    Bollinger(BollingerEntry),
    Immediate(Immediate),
}

/// The exit rules that can be named.
#[derive(Debug, Clone, Copy, PartialEq, Eq, Structural)]
pub enum ExitKind {
    Bollinger(BollingerExit),
    FixedTP(FixedTP),
    TrailingStop(TrailingStop),
}

/// The filters that can be named.
#[derive(Debug, Clone, Copy, PartialEq, Eq, Structural)]
pub enum FilterKind {
    NoFilter(NoFilter),
}

/// One entry rule, one exit rule and one filter.
#[derive(Debug, Clone, Copy, PartialEq, Eq, Structural)]
pub struct Strategy {
    pub entry: EntryKind,
    pub exit: ExitKind,
    pub filter: FilterKind,
}

/// Builds strategies from named rules.
pub struct StrategyManager {}

impl Entry for EntryKind {
    open spec fn init_attributes(
        &self,
        signal: Signal,
        position: Position,
        prices: Seq<PricePoint>,
    ) -> StrategyAttributes {
        match *self {
            EntryKind::VolatilityMean(rule) => rule.init_attributes(signal, position, prices),
            EntryKind::VolatilityPullback(rule) => rule.init_attributes(signal, position, prices),
            EntryKind::Bollinger(rule) => rule.init_attributes(signal, position, prices),
            EntryKind::Immediate(rule) => rule.init_attributes(signal, position, prices),
        }
    }

    open spec fn entry_ready(&self, attributes: StrategyAttributes) -> bool {
        match *self {
            EntryKind::VolatilityMean(rule) => rule.entry_ready(attributes),
            EntryKind::VolatilityPullback(rule) => rule.entry_ready(attributes),
            EntryKind::Bollinger(rule) => rule.entry_ready(attributes),
            EntryKind::Immediate(rule) => rule.entry_ready(attributes),
        }
    }

    open spec fn entry_price(
        &self,
        signal: Signal,
        position: Position,
        prices: Seq<PricePoint>,
    ) -> Option<i64> {
        match *self {
            EntryKind::VolatilityMean(rule) => rule.entry_price(signal, position, prices),
            EntryKind::VolatilityPullback(rule) => rule.entry_price(signal, position, prices),
            EntryKind::Bollinger(rule) => rule.entry_price(signal, position, prices),
            EntryKind::Immediate(rule) => rule.entry_price(signal, position, prices),
        }
    }

    fn is_entry_ready(&self, attributes: &StrategyAttributes) -> (r: bool) {
        match self {
            EntryKind::VolatilityMean(rule) => rule.is_entry_ready(attributes),
            EntryKind::VolatilityPullback(rule) => rule.is_entry_ready(attributes),
            EntryKind::Bollinger(rule) => rule.is_entry_ready(attributes),
            EntryKind::Immediate(rule) => rule.is_entry_ready(attributes),
        }
    }

    fn on_init(&self, signal_result: &mut SignalResult, prices: &[PricePoint]) {
        match self {
            EntryKind::VolatilityMean(rule) => rule.on_init(signal_result, prices),
            EntryKind::VolatilityPullback(rule) => rule.on_init(signal_result, prices),
            EntryKind::Bollinger(rule) => rule.on_init(signal_result, prices),
            EntryKind::Immediate(rule) => rule.on_init(signal_result, prices),
        }
    }

    fn check_entry(&self, signal_result: &SignalResult, prices: &[PricePoint]) -> (r: Option<i64>) {
        match self {
            EntryKind::VolatilityMean(rule) => rule.check_entry(signal_result, prices),
            EntryKind::VolatilityPullback(rule) => rule.check_entry(signal_result, prices),
            EntryKind::Bollinger(rule) => rule.check_entry(signal_result, prices),
            EntryKind::Immediate(rule) => rule.check_entry(signal_result, prices),
        }
    }
}

impl Exit for ExitKind {
    open spec fn open_attributes(
        &self,
        signal: Signal,
        position: Position,
        prices: Seq<PricePoint>,
    ) -> StrategyAttributes {
        match *self {
            ExitKind::Bollinger(rule) => rule.open_attributes(signal, position, prices),
            ExitKind::FixedTP(rule) => rule.open_attributes(signal, position, prices),
            ExitKind::TrailingStop(rule) => rule.open_attributes(signal, position, prices),
        }
    }

    open spec fn exit_ready(&self, attributes: StrategyAttributes) -> bool {
        match *self {
            ExitKind::Bollinger(rule) => rule.exit_ready(attributes),
            ExitKind::FixedTP(rule) => rule.exit_ready(attributes),
            ExitKind::TrailingStop(rule) => rule.exit_ready(attributes),
        }
    }

    open spec fn exit_attributes(
        &self,
        signal: Signal,
        position: Position,
        prices: Seq<PricePoint>,
    ) -> StrategyAttributes {
        match *self {
            ExitKind::Bollinger(rule) => rule.exit_attributes(signal, position, prices),
            ExitKind::FixedTP(rule) => rule.exit_attributes(signal, position, prices),
            ExitKind::TrailingStop(rule) => rule.exit_attributes(signal, position, prices),
        }
    }

    open spec fn exit_price(
        &self,
        signal: Signal,
        position: Position,
        prices: Seq<PricePoint>,
    ) -> Option<i64> {
        match *self {
            ExitKind::Bollinger(rule) => rule.exit_price(signal, position, prices),
            ExitKind::FixedTP(rule) => rule.exit_price(signal, position, prices),
            ExitKind::TrailingStop(rule) => rule.exit_price(signal, position, prices),
        }
    }

    fn is_exit_ready(&self, attributes: &StrategyAttributes) -> (r: bool) {
        match self {
            ExitKind::Bollinger(rule) => rule.is_exit_ready(attributes),
            ExitKind::FixedTP(rule) => rule.is_exit_ready(attributes),
            ExitKind::TrailingStop(rule) => rule.is_exit_ready(attributes),
        }
    }

    fn on_open(&self, signal_result: &mut SignalResult, prices: &[PricePoint]) {
        match self {
            ExitKind::Bollinger(rule) => rule.on_open(signal_result, prices),
            ExitKind::FixedTP(rule) => rule.on_open(signal_result, prices),
            ExitKind::TrailingStop(rule) => rule.on_open(signal_result, prices),
        }
    }

    fn check_exit(
        &self,
        signal_result: &mut SignalResult,
        prices: &[PricePoint],
    ) -> (r: Option<i64>) {
        match self {
            ExitKind::Bollinger(rule) => rule.check_exit(signal_result, prices),
            ExitKind::FixedTP(rule) => rule.check_exit(signal_result, prices),
            ExitKind::TrailingStop(rule) => rule.check_exit(signal_result, prices),
        }
    }
}

impl Filter for FilterKind {
    open spec fn rejects(&self, signal: Signal, prices: Seq<PricePoint>) -> bool {
        match *self {
            FilterKind::NoFilter(rule) => rule.rejects(signal, prices),
        }
    }

    fn check_filter(&self, signal: &Signal, prices: &[PricePoint]) -> (r: bool) {
        match self {
            FilterKind::NoFilter(rule) => rule.check_filter(signal, prices),
        }
    }
}

/// The parameter of a rule by name.
pub open spec fn parameter(rule: Rule, name: &str) -> Option<i64> {
    first_match(rule.parameters@, name@)
}

/// The whole minutes of a period, as far as `i32` holds them.
pub open spec fn whole_minutes(period: i64) -> i32 {
    let whole = spec_integer_part(period);
    if whole > i32::MAX {
        i32::MAX
    } else if whole < i32::MIN {
        i32::MIN
    } else {
        whole as i32
    }
}

/// The entry rule that `rule` names, or why there is none: its name is not
/// known, or a parameter that the named rule needs is absent.
pub open spec fn spec_entry(rule: Rule) -> Result<EntryKind, &'static str> {
    if rule.name@ == "volatility_mean"@ {
        if parameter(rule, "entry_factor").is_none() {
            Err("Missing entry_factor")
        } else if parameter(rule, "vol_timeframe").is_none() {
            Err("Missing vol_timeframe")
        } else {
            Ok(
                EntryKind::VolatilityMean(
                    VolatilityMean {
                        entry_factor: parameter(rule, "entry_factor").unwrap(),
                        vol_timeframe: parameter(rule, "vol_timeframe").unwrap(),
                    },
                ),
            )
        }
    } else if rule.name@ == "volatility_pullback"@ {
        if parameter(rule, "entry_factor").is_none() {
            Err("Missing entry_factor")
        } else if parameter(rule, "vol_timeframe").is_none() {
            Err("Missing vol_timeframe")
        } else {
            Ok(
                EntryKind::VolatilityPullback(
                    VolatilityPullback {
                        entry_factor: parameter(rule, "entry_factor").unwrap(),
                        vol_timeframe: parameter(rule, "vol_timeframe").unwrap(),
                    },
                ),
            )
        }
    } else if rule.name@ == "bollinger"@ {
        if parameter(rule, "std_dev_factor").is_none() {
            Err("Missing std_dev_factor")
        } else if parameter(rule, "period_minutes").is_none() {
            Err("Missing period_minutes")
        } else {
            Ok(
                EntryKind::Bollinger(
                    BollingerEntry {
                        std_dev_factor: parameter(rule, "std_dev_factor").unwrap(),
                        period_minutes: whole_minutes(parameter(rule, "period_minutes").unwrap()),
                    },
                ),
            )
        }
    } else if rule.name@ == "immediate"@ {
        Ok(EntryKind::Immediate(Immediate {  }))
    } else {
        Err("Invalid entry strategy name")
    }
}

/// The exit rule that `rule` names, or why there is none.
pub open spec fn spec_exit(rule: Rule) -> Result<ExitKind, &'static str> {
    if rule.name@ == "bollinger"@ {
        if parameter(rule, "std_dev_factor").is_none() {
            Err("Missing std_dev_factor")
        } else if parameter(rule, "period_minutes").is_none() {
            Err("Missing period_minutes")
        } else {
            Ok(
                ExitKind::Bollinger(
                    BollingerExit {
                        std_dev_factor: parameter(rule, "std_dev_factor").unwrap(),
                        period_minutes: whole_minutes(parameter(rule, "period_minutes").unwrap()),
                    },
                ),
            )
        }
    } else if rule.name@ == "fixed_tp"@ {
        if parameter(rule, "tp_factor").is_none() {
            Err("Missing tp_factor")
        } else if parameter(rule, "vol_timeframe").is_none() {
            Err("Missing vol_timeframe")
        } else {
            Ok(
                ExitKind::FixedTP(
                    FixedTP {
                        tp_factor: parameter(rule, "tp_factor").unwrap(),
                        vol_timeframe: parameter(rule, "vol_timeframe").unwrap(),
                    },
                ),
            )
        }
    } else if rule.name@ == "trailing_stop"@ {
        if parameter(rule, "sl_factor").is_none() {
            Err("Missing sl_factor")
        } else {
            Ok(
                ExitKind::TrailingStop(
                    TrailingStop { sl_factor: parameter(rule, "sl_factor").unwrap() },
                ),
            )
        }
    } else {
        Err("Invalid exit strategy name")
    }
}

/// The filter that `rule` names, or why there is none.
pub open spec fn spec_filter(rule: Rule) -> Result<FilterKind, &'static str> {
    if rule.name@ == "no_filter"@ {
        Ok(FilterKind::NoFilter(NoFilter))
    } else {
        Err("Invalid filter strategy name")
    }
}

/// The strategy that the three rules name, or the first fault among them,
/// the entry rule first, then the exit rule, then the filter.
pub open spec fn spec_strategy(rules: StrategyRules) -> Result<Strategy, &'static str> {
    match spec_entry(rules.entry) {
        Err(message) => Err(message),
        Ok(entry) => match spec_exit(rules.exit) {
            Err(message) => Err(message),
            Ok(exit) => match spec_filter(rules.filter) {
                Err(message) => Err(message),
                Ok(filter) => Ok(Strategy { entry, exit, filter }),
            },
        },
    }
}

/// The names of the rules of one kind differ from one another.
pub proof fn lemma_names_differ()
    ensures
        "volatility_mean"@ != "volatility_pullback"@,
        "volatility_mean"@ != "bollinger"@,
        "volatility_mean"@ != "immediate"@,
        "volatility_pullback"@ != "bollinger"@,
        "volatility_pullback"@ != "immediate"@,
        "bollinger"@ != "immediate"@,
        "bollinger"@ != "fixed_tp"@,
        "bollinger"@ != "trailing_stop"@,
        "fixed_tp"@ != "trailing_stop"@,
{
    reveal_strlit("volatility_mean");
    reveal_strlit("volatility_pullback");
    reveal_strlit("bollinger");
    reveal_strlit("immediate");
    reveal_strlit("fixed_tp");
    reveal_strlit("trailing_stop");
    assert("volatility_mean"@.len() == 15);
    assert("volatility_pullback"@.len() == 19);
    assert("bollinger"@.len() == 9);
    assert("immediate"@.len() == 9);
    assert("fixed_tp"@.len() == 8);
    assert("trailing_stop"@.len() == 13);
    assert("bollinger"@[0] != "immediate"@[0]);
}

/// The whole minutes of a period.
pub fn to_whole_minutes(period: i64) -> (r: i32)
    ensures
        r == whole_minutes(period),
{
    let whole = integer_part(period);
    if whole > i32::MAX as i64 {
        i32::MAX
    } else if whole < i32::MIN as i64 {
        i32::MIN
    } else {
        whole as i32
    }
}

impl StrategyManager {
    pub fn map_strategy_entry(rule: &Rule) -> (r: Result<EntryKind, &'static str>)
        ensures
            r == spec_entry(*rule),
    {
        proof {
            lemma_names_differ();
        }
        if is_named(&rule.name, "volatility_mean") {
            let entry_factor = match find_first(&rule.parameters, "entry_factor") {
                Some(value) => value,
                None => { return Err("Missing entry_factor"); },
            };
            let vol_timeframe = match find_first(&rule.parameters, "vol_timeframe") {
                Some(value) => value,
                None => { return Err("Missing vol_timeframe"); },
            };
            Ok(EntryKind::VolatilityMean(VolatilityMean::new(entry_factor, vol_timeframe)))
        } else if is_named(&rule.name, "volatility_pullback") {
            let entry_factor = match find_first(&rule.parameters, "entry_factor") {
                Some(value) => value,
                None => { return Err("Missing entry_factor"); },
            };
            let vol_timeframe = match find_first(&rule.parameters, "vol_timeframe") {
                Some(value) => value,
                None => { return Err("Missing vol_timeframe"); },
            };
            Ok(EntryKind::VolatilityPullback(VolatilityPullback::new(entry_factor, vol_timeframe)))
        } else if is_named(&rule.name, "bollinger") {
            let std_dev_factor = match find_first(&rule.parameters, "std_dev_factor") {
                Some(value) => value,
                None => { return Err("Missing std_dev_factor"); },
            };
            let period_minutes = match find_first(&rule.parameters, "period_minutes") {
                Some(value) => to_whole_minutes(value),
                None => { return Err("Missing period_minutes"); },
            };
            Ok(
                EntryKind::Bollinger(
                    BollingerEntry::new(
                        std_dev_factor,
                        period_minutes,
                    ),
                ),
            )
        } else if is_named(&rule.name, "immediate") {
            Ok(EntryKind::Immediate(Immediate::new()))
        } else {
            Err("Invalid entry strategy name")
        }
    }

    pub fn map_strategy_exit(rule: &Rule) -> (r: Result<ExitKind, &'static str>)
        ensures
            r == spec_exit(*rule),
    {
        proof {
            lemma_names_differ();
        }
        if is_named(&rule.name, "bollinger") {
            let std_dev_factor = match find_first(&rule.parameters, "std_dev_factor") {
                Some(value) => value,
                None => { return Err("Missing std_dev_factor"); },
            };
            let period_minutes = match find_first(&rule.parameters, "period_minutes") {
                Some(value) => to_whole_minutes(value),
                None => { return Err("Missing period_minutes"); },
            };
            Ok(
                ExitKind::Bollinger(
                    BollingerExit::new(
                        std_dev_factor,
                        period_minutes,
                    ),
                ),
            )
        } else if is_named(&rule.name, "fixed_tp") {
            let tp_factor = match find_first(&rule.parameters, "tp_factor") {
                Some(value) => value,
                None => { return Err("Missing tp_factor"); },
            };
            let vol_timeframe = match find_first(&rule.parameters, "vol_timeframe") {
                Some(value) => value,
                None => { return Err("Missing vol_timeframe"); },
            };
            Ok(ExitKind::FixedTP(FixedTP::new(tp_factor, vol_timeframe)))
        } else if is_named(&rule.name, "trailing_stop") {
            let sl_factor = match find_first(&rule.parameters, "sl_factor") {
                Some(value) => value,
                None => { return Err("Missing sl_factor"); },
            };
            Ok(ExitKind::TrailingStop(TrailingStop::new(sl_factor)))
        } else {
            Err("Invalid exit strategy name")
        }
    }

    pub fn map_strategy_filter(rule: &Rule) -> (r: Result<FilterKind, &'static str>)
        ensures
            r == spec_filter(*rule),
    {
        if is_named(&rule.name, "no_filter") {
            Ok(FilterKind::NoFilter(NoFilter::new()))
        } else {
            Err("Invalid filter strategy name")
        }
    }

    /// Builds the strategy that the rules name, or says which rule could not
    /// be built.
    pub fn convert_rules_to_strategy(rules: &StrategyRules) -> (r: Result<Strategy, &'static str>)
        ensures
            r == spec_strategy(*rules),
    {
        let entry = match StrategyManager::map_strategy_entry(&rules.entry) {
            Ok(built) => built,
            Err(message) => { return Err(message); },
        };
        let exit = match StrategyManager::map_strategy_exit(&rules.exit) {
            Ok(built) => built,
            Err(message) => { return Err(message); },
        };
        let filter = match StrategyManager::map_strategy_filter(&rules.filter) {
            Ok(built) => built,
            Err(message) => { return Err(message); },
        };
        Ok(Strategy { entry, exit, filter })
    }
}

} // verus!
