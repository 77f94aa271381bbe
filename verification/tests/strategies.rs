use backtest_lab::evaluation::position::{Action, AttributeKey, Position, StrategyAttributes};
use backtest_lab::evaluation::signal::{Signal, SignalResult};
use backtest_lab::fixed::SCALE;
use backtest_lab::prices::price::PricePoint;
use backtest_lab::prices::price_ohlc::PriceOhlc;
use backtest_lab::prices::price_tick::PriceTick;
use backtest_lab::strategies::entry::bollinger::Bollinger as BollingerEntry;
use backtest_lab::strategies::entry::entry::Entry;
use backtest_lab::strategies::entry::immediate::Immediate;
use backtest_lab::strategies::entry::volatility_mean::VolatilityMean;
use backtest_lab::strategies::entry::volatility_pullback::VolatilityPullback;
use backtest_lab::strategies::exit::bollinger::Bollinger as BollingerExit;
use backtest_lab::strategies::exit::exit::Exit;
use backtest_lab::strategies::exit::fixed_tp::FixedTP;
use backtest_lab::strategies::exit::trailing_stop::TrailingStop;
use backtest_lab::strategies::filter::filter::Filter;
use backtest_lab::strategies::filter::no_filter::NoFilter;
use backtest_lab::strategies::strategy::{
    EntryKind, ExitKind, FilterKind, Rule, Strategy, StrategyManager, StrategyRules,
};

const MINUTE: u64 = 60_000;

fn units(value: i64) -> i64 {
    value * SCALE
}

fn bar(time_stamp: u64, open: i64, high: i64, low: i64, close: i64) -> PricePoint {
    PricePoint::Ohlc(PriceOhlc {
        time_stamp,
        open: units(open),
        high: units(high),
        low: units(low),
        close: units(close),
    })
}

fn flat(time_stamp: u64, level: i64) -> PricePoint {
    bar(time_stamp, level, level, level, level)
}

fn quote(time_stamp: u64, ask: i64, bid: i64) -> PricePoint {
    PricePoint::Tick(PriceTick { time_stamp, ask: units(ask), bid: units(bid) })
}

fn result(action: Action, stop_loss: i64, take_profit: Vec<i64>) -> SignalResult {
    SignalResult::new(Signal {
        symbol: "EURUSD".to_string(),
        action,
        stop_loss: units(stop_loss),
        take_profit: take_profit.into_iter().map(units).collect(),
        time_stamp: 0,
        source: "desk".to_string(),
    })
}

fn opened(action: Action, stop_loss: i64, take_profit: Vec<i64>, price_open: i64) -> SignalResult {
    let mut result = result(action, stop_loss, take_profit);
    result.position.inited = true;
    result.position.opened = true;
    result.position.price_open = Some(units(price_open));
    result.position.time_stamp_open = Some(0);
    result
}

fn rule(name: &str, parameters: Vec<(&str, i64)>) -> Rule {
    Rule {
        name: name.to_string(),
        parameters: parameters.into_iter().map(|(key, value)| (key.to_string(), value)).collect(),
    }
}

fn rules(entry: Rule, exit: Rule, filter: Rule) -> StrategyRules {
    StrategyRules { entry, exit, filter }
}

fn good_exit() -> Rule {
    rule("trailing_stop", vec![("sl_factor", 10_000)])
}

fn good_filter() -> Rule {
    rule("no_filter", vec![])
}

#[test]
fn a_new_position_has_nothing_set() {
    let position = Position::new(Action::Sell);
    assert_eq!(position.action, Action::Sell);
    assert!(!position.inited && !position.opened && !position.closed);
    assert!(!position.ignored.price_gap && !position.ignored.no_entry);
    assert!(!position.ignored.end_of_day);
    assert_eq!(position.price_open, None);
    assert_eq!(position.price_close, None);
    assert_eq!(position.time_stamp_open, None);
    assert_eq!(position.time_stamp_close, None);
    assert_eq!(position.delta, None);
    assert_eq!(position.strategy_attributes.price_to_open, None);
    assert_eq!(position.strategy_attributes.take_profit, None);
    assert_eq!(position.strategy_attributes.extreme, None);
    assert_eq!(position.strategy_attributes.sl, None);
    let fresh = result(Action::Buy, 1, vec![]);
    assert_eq!(fresh.position, Position::new(Action::Buy));
    assert_eq!(fresh.ticket, None);
}

#[test]
fn strategy_is_built_from_its_names() {
    let built = StrategyManager::convert_rules_to_strategy(&rules(
        rule("immediate", vec![]),
        good_exit(),
        good_filter(),
    ));
    assert_eq!(
        built,
        Ok(Strategy {
            entry: EntryKind::Immediate(Immediate::new()),
            exit: ExitKind::TrailingStop(TrailingStop::new(10_000)),
            filter: FilterKind::NoFilter(NoFilter::new()),
        })
    );
}

#[test]
fn every_entry_rule_can_be_named() {
    let build = |entry: Rule| {
        StrategyManager::convert_rules_to_strategy(&rules(entry, good_exit(), good_filter()))
            .map(|strategy| strategy.entry)
    };
    assert_eq!(
        build(rule("volatility_mean", vec![("entry_factor", 7), ("vol_timeframe", units(30))])),
        Ok(EntryKind::VolatilityMean(VolatilityMean::new(7, units(30))))
    );
    assert_eq!(
        build(rule("volatility_pullback", vec![("vol_timeframe", units(5)), ("entry_factor", -3)])),
        Ok(EntryKind::VolatilityPullback(VolatilityPullback::new(-3, units(5))))
    );
    assert_eq!(
        build(rule("bollinger", vec![("std_dev_factor", units(2)), ("period_minutes", units(20))])),
        Ok(EntryKind::Bollinger(BollingerEntry::new(units(2), 20)))
    );
}

#[test]
fn every_exit_rule_can_be_named() {
    let build = |exit: Rule| {
        StrategyManager::convert_rules_to_strategy(&rules(
            rule("immediate", vec![]),
            exit,
            good_filter(),
        ))
        .map(|strategy| strategy.exit)
    };
    assert_eq!(
        build(rule("bollinger", vec![("std_dev_factor", units(2)), ("period_minutes", units(20))])),
        Ok(ExitKind::Bollinger(BollingerExit::new(units(2), 20)))
    );
    assert_eq!(
        build(rule("fixed_tp", vec![("tp_factor", 5), ("vol_timeframe", units(30))])),
        Ok(ExitKind::FixedTP(FixedTP::new(5, units(30))))
    );
    assert_eq!(
        build(rule("trailing_stop", vec![("sl_factor", 20_000)])),
        Ok(ExitKind::TrailingStop(TrailingStop::new(20_000)))
    );
}

#[test]
fn period_keeps_its_whole_minutes() {
    let built = StrategyManager::map_strategy_entry(&rule(
        "bollinger",
        vec![("std_dev_factor", units(2)), ("period_minutes", 5_900_000)],
    ));
    assert_eq!(built, Ok(EntryKind::Bollinger(BollingerEntry::new(units(2), 5))));
    let huge = StrategyManager::map_strategy_exit(&rule(
        "bollinger",
        vec![("std_dev_factor", units(2)), ("period_minutes", i64::MAX)],
    ));
    assert_eq!(huge, Ok(ExitKind::Bollinger(BollingerExit::new(units(2), i32::MAX))));
}

#[test]
fn the_first_entry_of_a_parameter_counts() {
    let built = StrategyManager::map_strategy_exit(&rule(
        "trailing_stop",
        vec![("other", 1), ("sl_factor", 2), ("sl_factor", 3)],
    ));
    assert_eq!(built, Ok(ExitKind::TrailingStop(TrailingStop::new(2))));
}

#[test]
fn unknown_names_are_faults() {
    assert_eq!(
        StrategyManager::map_strategy_entry(&rule("momentum", vec![])),
        Err("Invalid entry strategy name")
    );
    assert_eq!(
        StrategyManager::map_strategy_exit(&rule("immediate", vec![])),
        Err("Invalid exit strategy name")
    );
    assert_eq!(
        StrategyManager::map_strategy_filter(&rule("", vec![])),
        Err("Invalid filter strategy name")
    );
    assert_eq!(
        StrategyManager::map_strategy_filter(&rule("no_filter", vec![])),
        Ok(FilterKind::NoFilter(NoFilter::new()))
    );
}

#[test]
fn missing_parameters_are_faults() {
    let entry = |name: &str, parameters: Vec<(&str, i64)>| {
        StrategyManager::map_strategy_entry(&rule(name, parameters))
    };
    let exit = |name: &str, parameters: Vec<(&str, i64)>| {
        StrategyManager::map_strategy_exit(&rule(name, parameters))
    };
    assert_eq!(entry("volatility_mean", vec![("vol_timeframe", 1)]), Err("Missing entry_factor"));
    assert_eq!(entry("volatility_mean", vec![("entry_factor", 1)]), Err("Missing vol_timeframe"));
    assert_eq!(entry("volatility_pullback", vec![]), Err("Missing entry_factor"));
    assert_eq!(
        entry("volatility_pullback", vec![("entry_factor", 1)]),
        Err("Missing vol_timeframe")
    );
    assert_eq!(entry("bollinger", vec![("period_minutes", 1)]), Err("Missing std_dev_factor"));
    assert_eq!(entry("bollinger", vec![("std_dev_factor", 1)]), Err("Missing period_minutes"));
    assert_eq!(exit("bollinger", vec![]), Err("Missing std_dev_factor"));
    assert_eq!(exit("bollinger", vec![("std_dev_factor", 1)]), Err("Missing period_minutes"));
    assert_eq!(exit("fixed_tp", vec![("vol_timeframe", 1)]), Err("Missing tp_factor"));
    assert_eq!(exit("fixed_tp", vec![("tp_factor", 1)]), Err("Missing vol_timeframe"));
    assert_eq!(exit("trailing_stop", vec![]), Err("Missing sl_factor"));
}

#[test]
fn the_entry_rule_is_looked_at_first() {
    let built = StrategyManager::convert_rules_to_strategy(&rules(
        rule("nothing", vec![]),
        rule("nothing", vec![]),
        rule("nothing", vec![]),
    ));
    assert_eq!(built, Err("Invalid entry strategy name"));
    let built = StrategyManager::convert_rules_to_strategy(&rules(
        rule("immediate", vec![]),
        rule("nothing", vec![]),
        rule("nothing", vec![]),
    ));
    assert_eq!(built, Err("Invalid exit strategy name"));
    let built = StrategyManager::convert_rules_to_strategy(&rules(
        rule("immediate", vec![]),
        good_exit(),
        rule("nothing", vec![]),
    ));
    assert_eq!(built, Err("Invalid filter strategy name"));
}

#[test]
fn no_filter_lets_every_signal_pass() {
    let signal = result(Action::Buy, 1, vec![]).signal;
    assert!(!NoFilter::new().check_filter(&signal, &[]));
    assert!(!FilterKind::NoFilter(NoFilter::new()).check_filter(&signal, &[flat(0, 1)]));
}

#[test]
fn immediate_opens_at_the_close_of_its_side() {
    let prices = vec![quote(0, 101, 99)];
    let entry = Immediate::new();
    assert_eq!(entry.check_entry(&result(Action::Buy, 1, vec![]), &prices), Some(units(101)));
    assert_eq!(entry.check_entry(&result(Action::Sell, 1, vec![]), &prices), Some(units(99)));
    let mut untouched = result(Action::Buy, 1, vec![]);
    entry.on_init(&mut untouched, &prices);
    assert_eq!(untouched.position, Position::new(Action::Buy));
}

#[test]
fn bollinger_entry_opens_at_the_band() {
    let entry = BollingerEntry::new(units(1), 10);
    let mut prices = vec![flat(0, 30), flat(MINUTE, 40), bar(2 * MINUTE, 50, 50, 30, 50)];
    assert_eq!(entry.check_entry(&result(Action::Buy, 1, vec![]), &prices), Some(31_835_035));
    prices[2] = bar(2 * MINUTE, 50, 50, 32, 50);
    assert_eq!(entry.check_entry(&result(Action::Buy, 1, vec![]), &prices), None);
    prices[2] = bar(2 * MINUTE, 50, 49, 32, 50);
    assert_eq!(entry.check_entry(&result(Action::Sell, 1, vec![]), &prices), Some(48_164_965));
    prices[2] = bar(2 * MINUTE, 50, 48, 32, 50);
    assert_eq!(entry.check_entry(&result(Action::Sell, 1, vec![]), &prices), None);
}

#[test]
fn volatility_mean_fixes_its_border_when_initiated() {
    let entry = VolatilityMean::new(units(2), units(30));
    let prices = vec![flat(0, 80), flat(MINUTE, 100)];
    let mut buy = result(Action::Buy, 1, vec![]);
    entry.on_init(&mut buy, &prices);
    assert_eq!(buy.position.strategy_attributes.price_to_open, Some(units(90)));
    assert_eq!(entry.check_entry(&buy, &prices), None);
    assert_eq!(entry.check_entry(&buy, &[flat(2 * MINUTE, 90)]), Some(units(90)));
    assert_eq!(entry.check_entry(&buy, &[flat(2 * MINUTE, 70)]), Some(units(90)));
    let mut sell = result(Action::Sell, 1, vec![]);
    entry.on_init(&mut sell, &prices);
    assert_eq!(entry.check_entry(&sell, &prices), Some(units(90)));
    assert_eq!(entry.check_entry(&sell, &[flat(2 * MINUTE, 89)]), None);
}

#[test]
fn volatility_moves_the_border_with_the_direction() {
    let prices: Vec<PricePoint> = (0..14u64).map(|t| flat(t * MINUTE, 100 + t as i64)).collect();
    let entry = VolatilityPullback::new(units(2), units(30));
    let mut buy = result(Action::Buy, 1, vec![]);
    entry.on_init(&mut buy, &prices);
    // 113 * (1 + 2 * 0.052789)
    assert_eq!(buy.position.strategy_attributes.price_to_open, Some(124_930_314));
    let mut sell = result(Action::Sell, 1, vec![]);
    entry.on_init(&mut sell, &prices);
    // 113 * (1 - 2 * 0.052789)
    assert_eq!(sell.position.strategy_attributes.price_to_open, Some(101_069_686));
    let mean = VolatilityMean::new(units(2), units(30));
    let mut buy = result(Action::Buy, 1, vec![]);
    mean.on_init(&mut buy, &prices);
    // 106.5 * (1 + 2 * 0.052789)
    assert_eq!(buy.position.strategy_attributes.price_to_open, Some(117_744_057));
}

#[test]
fn fixed_target_comes_from_the_signal() {
    let exit = FixedTP::new(0, units(30));
    let prices = vec![flat(0, 100)];
    let mut buy = opened(Action::Buy, 90, vec![110, 120], 100);
    exit.on_open(&mut buy, &prices);
    assert_eq!(buy.position.strategy_attributes.take_profit, Some(units(110)));
    assert_eq!(exit.check_exit(&mut buy, &prices), None);
    assert_eq!(exit.check_exit(&mut buy, &[bar(MINUTE, 100, 110, 100, 100)]), Some(units(110)));
    assert_eq!(exit.check_exit(&mut buy, &[bar(MINUTE, 100, 115, 100, 100)]), Some(units(110)));
    let mut sell = opened(Action::Sell, 110, vec![95], 100);
    exit.on_open(&mut sell, &prices);
    assert_eq!(exit.check_exit(&mut sell, &prices), None);
    assert_eq!(exit.check_exit(&mut sell, &[bar(MINUTE, 100, 100, 95, 100)]), Some(units(95)));
}

#[test]
fn fixed_target_without_one_doubles_the_risk() {
    let exit = FixedTP::new(0, units(30));
    let prices = vec![flat(0, 100)];
    let mut buy = opened(Action::Buy, 90, vec![], 100);
    exit.on_open(&mut buy, &prices);
    assert_eq!(buy.position.strategy_attributes.take_profit, Some(units(120)));
    let mut sell = opened(Action::Sell, 110, vec![], 100);
    exit.on_open(&mut sell, &prices);
    assert_eq!(sell.position.strategy_attributes.take_profit, Some(units(80)));
}

#[test]
fn fixed_target_is_moved_by_volatility() {
    let prices: Vec<PricePoint> = (0..14u64).map(|t| flat(t * MINUTE, 100 + t as i64)).collect();
    let exit = FixedTP::new(units(2), units(30));
    let mut buy = opened(Action::Buy, 90, vec![110], 100);
    exit.on_open(&mut buy, &prices);
    // 110 * (1 + 2 * 0.052789)
    assert_eq!(buy.position.strategy_attributes.take_profit, Some(121_613_580));
}

#[test]
fn trailing_stop_follows_the_best_price() {
    let exit = TrailingStop::new(10_000);
    let mut buy = opened(Action::Buy, 50, vec![], 100);
    exit.on_open(&mut buy, &[bar(0, 100, 101, 99, 100)]);
    assert_eq!(buy.position.strategy_attributes.extreme, Some(units(101)));
    assert_eq!(exit.check_exit(&mut buy, &[bar(MINUTE, 100, 110, 109, 110)]), None);
    assert_eq!(buy.position.strategy_attributes.extreme, Some(units(110)));
    assert_eq!(buy.position.strategy_attributes.sl, Some(108_900_000));
    assert_eq!(
        exit.check_exit(&mut buy, &[bar(2 * MINUTE, 110, 110, 105, 106)]),
        Some(108_900_000)
    );
    assert_eq!(buy.position.strategy_attributes.extreme, Some(units(110)));
}

#[test]
fn trailing_stop_gives_no_close_on_the_losing_side() {
    let exit = TrailingStop::new(10_000);
    let mut buy = opened(Action::Buy, 50, vec![], 100);
    exit.on_open(&mut buy, &[flat(0, 100)]);
    // The stop, 99, lies under the open price.
    assert_eq!(exit.check_exit(&mut buy, &[bar(MINUTE, 100, 100, 98, 99)]), None);
    assert_eq!(buy.position.strategy_attributes.sl, Some(units(99)));
    // The low lies under the open price although the stop does not.
    assert_eq!(exit.check_exit(&mut buy, &[bar(2 * MINUTE, 100, 120, 99, 100)]), None);
    assert_eq!(buy.position.strategy_attributes.sl, Some(118_800_000));
}

#[test]
fn trailing_stop_of_a_sell_lies_over_the_best_price() {
    let exit = TrailingStop::new(10_000);
    let mut sell = opened(Action::Sell, 150, vec![], 100);
    exit.on_open(&mut sell, &[bar(0, 100, 101, 99, 100)]);
    assert_eq!(sell.position.strategy_attributes.extreme, Some(units(99)));
    assert_eq!(exit.check_exit(&mut sell, &[bar(MINUTE, 95, 91, 90, 90)]), Some(90_900_000));
    assert_eq!(sell.position.strategy_attributes.extreme, Some(units(90)));
    assert_eq!(exit.check_exit(&mut sell, &[bar(2 * MINUTE, 95, 90, 90, 90)]), None);
    assert_eq!(exit.check_exit(&mut sell, &[bar(2 * MINUTE, 95, 101, 90, 90)]), None);
}

#[test]
fn bollinger_exit_waits_for_the_crossing() {
    let exit = BollingerExit::new(units(1), 10);
    let crossing = vec![
        bar(0, 100, 90, 90, 100),
        bar(MINUTE, 100, 90, 90, 100),
        bar(2 * MINUTE, 100, 90, 90, 100),
        bar(3 * MINUTE, 100, 110, 90, 100),
    ];
    let mut buy = opened(Action::Buy, 50, vec![], 100);
    exit.on_open(&mut buy, &crossing);
    assert_eq!(exit.check_exit(&mut buy, &crossing), Some(units(100)));
    assert_eq!(buy.position.strategy_attributes, Position::new(Action::Buy).strategy_attributes);
    // Still under the border in the last minute.
    let under: Vec<PricePoint> = (0..4u64).map(|t| bar(t * MINUTE, 100, 90, 90, 100)).collect();
    assert_eq!(exit.check_exit(&mut buy, &under), None);
    // Over the border for two minutes already.
    let over: Vec<PricePoint> = (0..4u64).map(|t| bar(t * MINUTE, 100, 110, 90, 100)).collect();
    assert_eq!(exit.check_exit(&mut buy, &over), None);
}

#[test]
fn bollinger_exit_of_a_sell_crosses_downward() {
    let exit = BollingerExit::new(units(1), 10);
    let crossing = vec![
        bar(0, 100, 110, 110, 100),
        bar(MINUTE, 100, 110, 110, 100),
        bar(2 * MINUTE, 100, 110, 110, 100),
        bar(3 * MINUTE, 100, 110, 90, 100),
    ];
    let mut sell = opened(Action::Sell, 150, vec![], 100);
    assert_eq!(exit.check_exit(&mut sell, &crossing), Some(units(100)));
}

#[test]
fn a_named_rule_decides_as_the_rule_itself() {
    let prices = vec![quote(0, 101, 99)];
    let named = EntryKind::Immediate(Immediate::new());
    assert_eq!(named.check_entry(&result(Action::Sell, 1, vec![]), &prices), Some(units(99)));
    let named = ExitKind::FixedTP(FixedTP::new(0, units(30)));
    let mut buy = opened(Action::Buy, 90, vec![100], 100);
    named.on_open(&mut buy, &prices);
    assert_eq!(buy.position.strategy_attributes.take_profit, Some(units(100)));
    assert_eq!(named.check_exit(&mut buy, &prices), None);
    assert_eq!(named.check_exit(&mut buy, &[quote(MINUTE, 102, 100)]), Some(units(100)));
}

#[test]
fn rules_say_whether_the_scratch_is_ready() {
    let empty = Position::new(Action::Buy).strategy_attributes;
    let mut filled = empty;
    filled.price_to_open = Some(1);
    filled.take_profit = Some(1);
    filled.extreme = Some(1);
    assert!(Immediate::new().is_entry_ready(&empty));
    assert!(BollingerEntry::new(1, 1).is_entry_ready(&empty));
    assert!(!VolatilityMean::new(1, 1).is_entry_ready(&empty));
    assert!(VolatilityMean::new(1, 1).is_entry_ready(&filled));
    assert!(!EntryKind::VolatilityPullback(VolatilityPullback::new(1, 1)).is_entry_ready(&empty));
    assert!(EntryKind::VolatilityPullback(VolatilityPullback::new(1, 1)).is_entry_ready(&filled));
    assert!(BollingerExit::new(1, 1).is_exit_ready(&empty));
    assert!(!FixedTP::new(1, 1).is_exit_ready(&empty));
    assert!(FixedTP::new(1, 1).is_exit_ready(&filled));
    assert!(!ExitKind::TrailingStop(TrailingStop::new(1)).is_exit_ready(&empty));
    assert!(ExitKind::TrailingStop(TrailingStop::new(1)).is_exit_ready(&filled));
}

#[test]
fn directions_and_scratch_places_have_names() {
    assert_eq!(Action::from_name("buy"), Some(Action::Buy));
    assert_eq!(Action::from_name("sell"), Some(Action::Sell));
    assert_eq!(Action::from_name("Buy"), None);
    assert_eq!(Action::from_name(""), None);
    assert_eq!(Action::Buy.name(), "buy");
    assert_eq!(Action::Sell.name(), "sell");
    let keys = [
        (AttributeKey::PriceToOpen, "price_to_open"),
        (AttributeKey::TakeProfit, "take_profit"),
        (AttributeKey::Extreme, "extreme"),
        (AttributeKey::Sl, "sl"),
    ];
    let mut scratch = StrategyAttributes::new();
    for (index, (key, name)) in keys.iter().enumerate() {
        assert_eq!(key.name(), *name);
        assert_eq!(AttributeKey::from_name(name), Some(*key));
        assert_eq!(scratch.get(*key), None);
        scratch.insert(*key, index as i64);
    }
    assert_eq!(AttributeKey::from_name("stop"), None);
    assert_eq!(
        scratch,
        StrategyAttributes {
            price_to_open: Some(0),
            take_profit: Some(1),
            extreme: Some(2),
            sl: Some(3),
        }
    );
    assert_eq!(scratch.get(AttributeKey::Extreme), Some(2));
}
