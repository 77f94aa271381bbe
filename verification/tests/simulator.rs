use chrono::Datelike;

use backtest_lab::evaluation::backtest_conditions::BacktestConditions;
use backtest_lab::evaluation::backtesting_signals::{
    BacktestingSignals, Terms, LAST_CALENDAR_SECOND,
};
use backtest_lab::evaluation::position::Action;
use backtest_lab::evaluation::signal::{Signal, SignalResult};
use backtest_lab::fixed::SCALE;
use backtest_lab::prices::price::PricePoint;
use backtest_lab::prices::price_manager::PriceManager;
use backtest_lab::prices::price_ohlc::PriceOhlc;
use backtest_lab::strategies::entry::immediate::Immediate;
use backtest_lab::strategies::entry::volatility_mean::VolatilityMean;
use backtest_lab::strategies::exit::fixed_tp::FixedTP;
use backtest_lab::strategies::filter::no_filter::NoFilter;
use backtest_lab::strategies::strategy::{EntryKind, ExitKind, FilterKind, Strategy};

const MINUTE: u64 = 60_000;
// Read as seconds, this time stamp is the first second of a Saturday.
const SATURDAY: u64 = 172_800;

fn units(value: i64) -> i64 {
    value * SCALE
}

fn bar(time_stamp: u64, open: i64, high: i64, low: i64, close: i64) -> PricePoint {
    PricePoint::Ohlc(PriceOhlc {
        time_stamp,
        open: units(open),
        high: units(high),
        low: units(low),
        close: units(close),
    })
}

fn flat(time_stamp: u64, level: i64) -> PricePoint {
    bar(time_stamp, level, level, level, level)
}

fn signal(action: Action, stop_loss: i64, take_profit: Vec<i64>, time_stamp: u64) -> Signal {
    Signal {
        symbol: "EURUSD".to_string(),
        action,
        stop_loss: units(stop_loss),
        take_profit: take_profit.into_iter().map(units).collect(),
        time_stamp,
        source: "desk".to_string(),
    }
}

fn conditions() -> BacktestConditions {
    BacktestConditions {
        max_margin: units(1_000_000),
        commission: 0,
        lot_size: units(1),
        contract_sizes: vec![("EURUSD".to_string(), 1)],
    }
}

fn immediate_with_target() -> Strategy {
    Strategy {
        entry: EntryKind::Immediate(Immediate::new()),
        exit: ExitKind::FixedTP(FixedTP::new(0, units(30))),
        filter: FilterKind::NoFilter(NoFilter::new()),
    }
}

fn run(strategy: &Strategy, signals: Vec<Signal>, prices: Vec<PricePoint>) -> Vec<SignalResult> {
    let mut manager = PriceManager::new();
    manager.add_prices(vec![("EURUSD".to_string(), prices)]);
    let simulator = BacktestingSignals::new(&manager);
    simulator.backtest(&conditions(), strategy, signals, "EURUSD".to_string())
}

#[test]
fn buy_from_100_to_110_realizes_10() {
    let prices = vec![
        flat(170_000, 100),
        flat(170_000 + MINUTE, 100),
        bar(170_000 + 2 * MINUTE, 100, 110, 100, 105),
        flat(170_000 + 3 * MINUTE, 105),
        flat(170_000 + 4 * MINUTE, 105),
    ];
    let results = run(
        &immediate_with_target(),
        vec![signal(Action::Buy, 90, vec![110], SATURDAY)],
        prices,
    );
    assert_eq!(results.len(), 1);
    let position = results[0].position;
    assert!(position.inited && position.opened && position.closed);
    assert_eq!(position.price_open, Some(units(100)));
    assert_eq!(position.time_stamp_open, Some(170_000));
    assert_eq!(position.price_close, Some(units(110)));
    assert_eq!(position.time_stamp_close, Some(170_000 + 2 * MINUTE));
    assert_eq!(position.delta, Some(units(10)));
    assert_eq!(position.strategy_attributes.take_profit, Some(units(110)));
}

#[test]
fn sell_from_100_to_110_realizes_minus_10() {
    let prices = vec![
        flat(170_000, 100),
        flat(170_000 + MINUTE, 100),
        flat(170_000 + 2 * MINUTE, 100),
        flat(170_000 + 3 * MINUTE, 100),
    ];
    let results = run(
        &immediate_with_target(),
        vec![signal(Action::Sell, 200, vec![110], SATURDAY)],
        prices,
    );
    assert_eq!(results.len(), 1);
    let position = results[0].position;
    assert!(position.opened && position.closed);
    assert_eq!(position.price_open, Some(units(100)));
    assert_eq!(position.price_close, Some(units(110)));
    assert_eq!(position.time_stamp_open, position.time_stamp_close);
    assert_eq!(position.delta, Some(units(-10)));
}

#[test]
fn signal_that_never_enters_is_given_up_after_twenty_minutes() {
    let mut prices = vec![flat(110_000, 80), flat(170_000, 100)];
    for k in 1..30 {
        prices.push(flat(170_000 + k * MINUTE, 100));
    }
    let strategy = Strategy {
        entry: EntryKind::VolatilityMean(VolatilityMean::new(0, units(30))),
        exit: ExitKind::FixedTP(FixedTP::new(0, units(30))),
        filter: FilterKind::NoFilter(NoFilter::new()),
    };
    let results = run(&strategy, vec![signal(Action::Buy, 50, vec![], SATURDAY)], prices);
    assert_eq!(results.len(), 1);
    let position = results[0].position;
    assert!(position.inited);
    assert!(!position.opened);
    assert!(!position.closed);
    assert!(position.ignored.no_entry);
    assert!(!position.ignored.price_gap);
    assert!(!position.ignored.end_of_day);
    assert_eq!(position.strategy_attributes.price_to_open, Some(units(90)));
    assert_eq!(position.price_open, None);
    assert_eq!(position.delta, None);
}

#[test]
fn running_position_is_given_up_at_a_gap_of_twenty_minutes() {
    let prices = vec![
        flat(170_000, 100),
        flat(170_000 + MINUTE, 100),
        flat(170_000 + 21 * MINUTE, 100),
        flat(170_000 + 22 * MINUTE, 100),
    ];
    let results = run(
        &immediate_with_target(),
        vec![signal(Action::Buy, 90, vec![110], SATURDAY)],
        prices,
    );
    assert_eq!(results.len(), 1);
    let position = results[0].position;
    assert!(position.ignored.price_gap);
    assert!(!position.ignored.no_entry);
    assert!(!position.ignored.end_of_day);
    assert!(position.opened);
    assert!(!position.closed);
    assert_eq!(position.delta, None);
}

const DAY: u64 = 86_400_000;

fn never_entering() -> Strategy {
    Strategy {
        entry: EntryKind::VolatilityMean(VolatilityMean::new(0, units(30))),
        exit: ExitKind::FixedTP(FixedTP::new(0, units(30))),
        filter: FilterKind::NoFilter(NoFilter::new()),
    }
}

// Two calendar days after the epoch, in milliseconds. Read as seconds, the
// minutes before it fall on a Saturday.
const MIDNIGHT: u64 = 2 * DAY;

fn before_midnight() -> Vec<u64> {
    vec![
        MIDNIGHT - 255_000,
        MIDNIGHT - 200_000,
        MIDNIGHT - 140_000,
        MIDNIGHT - 80_000,
        MIDNIGHT - 20_000,
        MIDNIGHT,
        MIDNIGHT + MINUTE,
    ]
}

#[test]
fn unopened_position_is_given_up_when_the_day_ends() {
    let times = before_midnight();
    let mut prices: Vec<PricePoint> = times.iter().map(|time| flat(*time, 100)).collect();
    prices[0] = flat(times[0], 80);
    let at = times[1];
    assert!(BacktestingSignals::is_weekend(at));
    let results = run(&never_entering(), vec![signal(Action::Buy, 50, vec![], at)], prices);
    assert_eq!(results.len(), 1);
    let position = results[0].position;
    assert!(position.ignored.end_of_day);
    assert!(!position.ignored.no_entry && !position.ignored.price_gap);
    assert!(position.inited && !position.opened && !position.closed);
}

#[test]
fn opened_position_is_closed_at_the_close_when_the_day_ends() {
    let times = before_midnight();
    let mut prices: Vec<PricePoint> = times.iter().map(|time| flat(*time, 100)).collect();
    prices[4] = bar(times[4], 100, 104, 99, 103);
    let results = run(
        &immediate_with_target(),
        vec![signal(Action::Buy, 90, vec![110], times[1])],
        prices,
    );
    assert_eq!(results.len(), 1);
    let position = results[0].position;
    assert!(position.opened && position.closed);
    assert!(!position.ignored.price_gap && !position.ignored.end_of_day);
    assert_eq!(position.price_open, Some(units(100)));
    assert_eq!(position.time_stamp_open, Some(times[1]));
    assert_eq!(position.price_close, Some(units(103)));
    assert_eq!(position.time_stamp_close, Some(times[4]));
    assert_eq!(position.delta, Some(units(3)));
}

#[test]
fn opened_position_is_closed_before_the_last_price() {
    let prices = vec![
        flat(170_000, 100),
        flat(170_000 + MINUTE, 100),
        flat(170_000 + 2 * MINUTE, 102),
        flat(170_000 + 3 * MINUTE, 107),
    ];
    let results = run(
        &immediate_with_target(),
        vec![signal(Action::Sell, 200, vec![50], SATURDAY)],
        prices,
    );
    assert_eq!(results.len(), 1);
    let position = results[0].position;
    assert!(position.closed);
    assert_eq!(position.price_close, Some(units(102)));
    assert_eq!(position.time_stamp_close, Some(170_000 + 2 * MINUTE));
    assert_eq!(position.delta, Some(units(-2)));
}

#[test]
fn stop_loss_comes_before_the_exit_rule() {
    let prices = vec![
        flat(170_000, 100),
        flat(170_000 + MINUTE, 100),
        bar(170_000 + 2 * MINUTE, 100, 120, 80, 100),
        flat(170_000 + 3 * MINUTE, 100),
        flat(170_000 + 4 * MINUTE, 100),
    ];
    let results = run(
        &immediate_with_target(),
        vec![signal(Action::Buy, 90, vec![110], SATURDAY)],
        prices,
    );
    assert_eq!(results.len(), 1);
    let position = results[0].position;
    assert_eq!(position.price_close, Some(units(90)));
    assert_eq!(position.delta, Some(units(-10)));
}

#[test]
fn signal_with_its_stop_loss_hit_is_given_up_before_it_enters() {
    let prices = vec![
        flat(170_000, 100),
        flat(170_000 + MINUTE, 100),
        flat(170_000 + 2 * MINUTE, 100),
    ];
    let results = run(
        &immediate_with_target(),
        vec![signal(Action::Buy, 100, vec![110], SATURDAY)],
        prices,
    );
    assert_eq!(results.len(), 1);
    assert!(results[0].position.ignored.no_entry);
    assert!(!results[0].position.opened);
}

#[test]
fn late_signal_is_dropped() {
    let prices = vec![
        flat(170_000, 100),
        flat(SATURDAY + 16 * MINUTE, 100),
        flat(SATURDAY + 17 * MINUTE, 100),
        flat(SATURDAY + 18 * MINUTE, 100),
    ];
    let results = run(
        &immediate_with_target(),
        vec![signal(Action::Buy, 90, vec![110], SATURDAY)],
        prices,
    );
    assert!(results.is_empty());
}

#[test]
fn signal_fifteen_minutes_before_the_next_price_is_still_taken() {
    let prices = vec![
        flat(170_000, 100),
        flat(SATURDAY + 15 * MINUTE + 999, 100),
        flat(SATURDAY + 16 * MINUTE, 100),
        flat(SATURDAY + 17 * MINUTE, 100),
    ];
    let results = run(
        &immediate_with_target(),
        vec![signal(Action::Buy, 90, vec![110], SATURDAY)],
        prices,
    );
    assert_eq!(results.len(), 1);
}

#[test]
fn signal_is_taken_only_where_its_day_check_holds() {
    // Read as seconds, 345_600 is the first second of a Monday.
    let prices = vec![
        flat(340_000, 100),
        flat(340_000 + MINUTE, 100),
        flat(340_000 + 2 * MINUTE, 100),
        flat(340_000 + 3 * MINUTE, 100),
    ];
    let monday = run(
        &immediate_with_target(),
        vec![signal(Action::Buy, 90, vec![110], 345_600)],
        prices.clone(),
    );
    assert!(monday.is_empty());
    let sunday =
        run(&immediate_with_target(), vec![signal(Action::Buy, 90, vec![110], 345_599)], prices);
    assert_eq!(sunday.len(), 1);
}

#[test]
fn weekend_by_the_calendar() {
    assert!(!BacktestingSignals::is_weekend(0));
    assert!(!BacktestingSignals::is_weekend(172_799));
    assert!(BacktestingSignals::is_weekend(172_800));
    assert!(BacktestingSignals::is_weekend(259_200));
    assert!(BacktestingSignals::is_weekend(345_599));
    assert!(!BacktestingSignals::is_weekend(345_600));
    // 2024-03-09 was a Saturday, 2024-03-11 a Monday.
    assert!(BacktestingSignals::is_weekend(1_709_985_600));
    assert!(!BacktestingSignals::is_weekend(1_710_158_400));
    // The last day of the calendar is a Monday.
    assert!(!BacktestingSignals::is_weekend(8_210_266_876_799));
    assert!(BacktestingSignals::is_weekend(8_210_266_876_799 - 86_400));
}

#[test]
fn signals_wait_in_the_order_given() {
    let prices = vec![
        flat(170_000, 100),
        flat(170_000 + MINUTE, 100),
        flat(170_000 + 2 * MINUTE, 100),
        flat(170_000 + 3 * MINUTE, 100),
        flat(170_000 + 4 * MINUTE, 100),
    ];
    // The first signal is passed only by the price at 170_000 + 2 minutes;
    // the second, though earlier, waits behind it.
    let first = signal(Action::Sell, 200, vec![110], 170_000 + MINUTE + 1);
    let second = signal(Action::Sell, 200, vec![120], SATURDAY);
    let results = run(&immediate_with_target(), vec![first, second], prices);
    assert_eq!(results.len(), 2);
    assert_eq!(results[0].position.time_stamp_open, Some(170_000 + MINUTE));
    assert_eq!(results[1].position.time_stamp_open, Some(170_000 + MINUTE));
    assert_eq!(results[0].position.price_close, Some(units(110)));
    assert_eq!(results[1].position.price_close, Some(units(120)));
}

#[test]
fn delta_counts_contract_size_lots_and_commission() {
    let terms = Terms { lot_size: 500_000, commission: 300_000, contract_size: 10 };
    assert_eq!(
        BacktestingSignals::realized_delta(Action::Buy, units(100), units(110), &terms),
        49_700_000
    );
    assert_eq!(
        BacktestingSignals::realized_delta(Action::Sell, units(100), units(110), &terms),
        -50_300_000
    );
    assert_eq!(
        BacktestingSignals::realized_delta(Action::Sell, units(110), units(100), &terms),
        49_700_000
    );
}

#[test]
fn every_result_is_concluded() {
    let mut prices = vec![flat(110_000, 80), flat(170_000, 100)];
    for k in 1..30 {
        prices.push(flat(170_000 + k * MINUTE, 100));
    }
    prices.push(flat(170_000 + 60 * MINUTE, 100));
    prices.push(flat(170_000 + 61 * MINUTE, 100));
    let signals = vec![
        signal(Action::Buy, 50, vec![], SATURDAY),
        signal(Action::Sell, 200, vec![], SATURDAY + MINUTE),
        signal(Action::Buy, 100, vec![], SATURDAY + 2 * MINUTE),
        // Read as seconds, 800_000 falls on a Saturday again.
        signal(Action::Buy, 50, vec![], 800_000),
    ];
    let results = run(&never_entering(), signals, prices);
    assert_eq!(results.len(), 4);
    let mut reasons = (0, 0, 0);
    for result in &results {
        let position = result.position;
        assert!(position.inited);
        assert!(!position.opened || position.inited);
        assert!(!position.closed || position.opened);
        let flags = [
            position.ignored.price_gap,
            position.ignored.no_entry,
            position.ignored.end_of_day,
        ];
        let set = flags.iter().filter(|flag| **flag).count();
        if position.closed {
            assert_eq!(set, 0);
            assert!(position.delta.is_some());
            assert!(position.price_close.is_some() && position.time_stamp_close.is_some());
        } else {
            assert_eq!(set, 1);
            assert!(position.delta.is_none());
        }
        assert_eq!(position.opened, position.price_open.is_some());
        assert_eq!(position.opened, position.time_stamp_open.is_some());
        reasons.0 += position.ignored.price_gap as u32;
        reasons.1 += position.ignored.no_entry as u32;
        reasons.2 += position.ignored.end_of_day as u32;
    }
    assert_eq!(reasons, (2, 2, 0));
    assert_eq!(results.iter().filter(|result| result.position.opened).count(), 1);
}

#[test]
fn a_run_is_repeatable() {
    let prices = vec![
        flat(170_000, 100),
        flat(170_000 + MINUTE, 100),
        bar(170_000 + 2 * MINUTE, 100, 110, 100, 105),
        flat(170_000 + 3 * MINUTE, 105),
        flat(170_000 + 4 * MINUTE, 105),
    ];
    let signals = vec![
        signal(Action::Buy, 90, vec![110], SATURDAY),
        signal(Action::Sell, 200, vec![90], SATURDAY + 1),
    ];
    let first = run(&immediate_with_target(), signals.clone(), prices.clone());
    let second = run(&immediate_with_target(), signals, prices);
    assert_eq!(first.len(), 2);
    assert_eq!(first, second);
}

#[test]
fn a_series_of_one_price_gives_nothing() {
    let results = run(
        &immediate_with_target(),
        vec![signal(Action::Buy, 90, vec![110], SATURDAY)],
        vec![flat(170_000, 100)],
    );
    assert!(results.is_empty());
}

#[test]
fn lifecycle_steps_by_hand() {
    let manager = PriceManager::new();
    let simulator = BacktestingSignals::new(&manager);
    let strategy = immediate_with_target();
    let prices = vec![flat(0, 100)];
    let mut result = SignalResult::new(signal(Action::Buy, 90, vec![110], SATURDAY));
    simulator.signal_check_init(&strategy, &mut result, &prices);
    assert!(result.position.inited && !result.position.opened);
    simulator.signal_check_open(&strategy, &mut result, &prices);
    assert!(result.position.opened && !result.position.closed);
    assert_eq!(result.position.price_open, Some(units(100)));
    simulator.signal_check_close(&strategy, &mut result, &[bar(MINUTE, 100, 111, 100, 100)]);
    assert!(result.position.closed);
    assert_eq!(result.position.price_close, Some(units(110)));
    assert_eq!(result.position.time_stamp_close, Some(MINUTE));
    assert_eq!(result.position.delta, None);
}

#[test]
fn fifteen_minutes_between_two_prices_are_no_gap() {
    let prices = vec![
        flat(170_000, 100),
        flat(170_000 + MINUTE, 100),
        flat(170_000 + 16 * MINUTE + 999, 100),
        flat(170_000 + 17 * MINUTE, 100),
        flat(170_000 + 18 * MINUTE, 100),
    ];
    let results = run(
        &immediate_with_target(),
        vec![signal(Action::Buy, 90, vec![110], SATURDAY)],
        prices.clone(),
    );
    assert_eq!(results.len(), 1);
    assert!(!results[0].position.ignored.price_gap);
    assert!(results[0].position.closed);
    let mut wider = prices;
    wider[2] = flat(170_000 + 16 * MINUTE + 1_000, 100);
    let results =
        run(&immediate_with_target(), vec![signal(Action::Buy, 90, vec![110], SATURDAY)], wider);
    assert_eq!(results.len(), 1);
    assert!(results[0].position.ignored.price_gap);
    assert!(!results[0].position.closed);
}

#[test]
fn a_signal_waits_twenty_minutes_and_no_longer() {
    let outcome = |last: u64| {
        let prices = vec![
            flat(110_000, 80),
            flat(170_000, 100),
            flat(SATURDAY + 10 * MINUTE, 100),
            bar(last, 100, 100, 90, 100),
            flat(last + MINUTE, 100),
            flat(last + 2 * MINUTE, 100),
            flat(last + 3 * MINUTE, 100),
        ];
        let results =
            run(&never_entering(), vec![signal(Action::Buy, 50, vec![], SATURDAY)], prices);
        assert_eq!(results.len(), 1);
        results[0].position
    };
    // At twenty minutes to the millisecond the signal still waits, and
    // enters on that price.
    let position = outcome(SATURDAY + 20 * MINUTE);
    assert!(position.opened && !position.ignored.no_entry);
    assert_eq!(position.price_open, Some(units(90)));
    // A millisecond later it is given up before it can enter.
    let position = outcome(SATURDAY + 20 * MINUTE + 1);
    assert!(position.ignored.no_entry);
    assert!(position.inited && !position.opened);
    assert_eq!(position.strategy_attributes.price_to_open, Some(units(90)));
}

#[test]
fn the_calendar_ends_where_the_dates_end() {
    assert_eq!(LAST_CALENDAR_SECOND, 8_210_266_876_799);
    let last = chrono::DateTime::from_timestamp(LAST_CALENDAR_SECOND as i64, 0).unwrap();
    assert_eq!((last.year(), last.month(), last.day()), (262_142, 12, 31));
    assert!(chrono::DateTime::from_timestamp(LAST_CALENDAR_SECOND as i64 + 1, 0).is_none());
}

#[test]
fn weekend_agrees_with_the_calendar_of_dates() {
    let mut second: u64 = 0;
    let mut step: u64 = 1;
    while second <= LAST_CALENDAR_SECOND {
        let date = chrono::DateTime::from_timestamp(second as i64, 0).unwrap();
        let weekend = matches!(date.weekday(), chrono::Weekday::Sat | chrono::Weekday::Sun);
        assert_eq!(BacktestingSignals::is_weekend(second), weekend);
        second += step;
        step = step * 3 / 2 + 7_919;
    }
    for day in 0..1_000u64 {
        for second in [day * 86_400, day * 86_400 + 86_399] {
            let date = chrono::DateTime::from_timestamp(second as i64, 0).unwrap();
            let weekend = matches!(date.weekday(), chrono::Weekday::Sat | chrono::Weekday::Sun);
            assert_eq!(BacktestingSignals::is_weekend(second), weekend);
            assert_eq!(weekend, (day + 3) % 7 >= 5);
        }
    }
}
