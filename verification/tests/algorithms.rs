use backtest_lab::algorithms::{algo_mean, algo_std_dev, minutes_between, Algorithms};
use backtest_lab::evaluation::position::Action;
use backtest_lab::evaluation::signal::Signal;
use backtest_lab::fixed::SCALE;
use backtest_lab::prices::price::{Ohlc, Price, PricePoint, Tick};
use backtest_lab::prices::price_manager::PriceManager;
use backtest_lab::prices::price_ohlc::PriceOhlc;
use backtest_lab::prices::price_tick::PriceTick;

const MINUTE: u64 = 60_000;

fn units(value: i64) -> i64 {
    value * SCALE
}

fn flat(time_stamp: u64, level: i64) -> PricePoint {
    PricePoint::Ohlc(PriceOhlc {
        time_stamp,
        open: units(level),
        high: units(level),
        low: units(level),
        close: units(level),
    })
}

fn rising(count: u64) -> Vec<PricePoint> {
    (0..count).map(|t| flat(t * MINUTE, 100 + t as i64)).collect()
}

fn signal(action: Action, stop_loss: i64) -> Signal {
    Signal {
        symbol: "EURUSD".to_string(),
        action,
        stop_loss: units(stop_loss),
        take_profit: vec![],
        time_stamp: 0,
        source: "desk".to_string(),
    }
}

const CLOSE: (Tick, Ohlc) = (Tick::Bid, Ohlc::Close);

#[test]
fn mean_over_the_last_two_minutes() {
    let prices: Vec<PricePoint> =
        (0..5u64).map(|t| flat(t * MINUTE, 10 * (t as i64 + 1))).collect();
    assert_eq!(Algorithms::calculate_mean(&CLOSE, &prices, units(2)), units(40));
}

#[test]
fn mean_takes_the_whole_minutes_of_the_period() {
    let prices: Vec<PricePoint> =
        (0..5u64).map(|t| flat(t * MINUTE, 10 * (t as i64 + 1))).collect();
    assert_eq!(Algorithms::calculate_mean(&CLOSE, &prices, 2_900_000), units(40));
    assert_eq!(Algorithms::calculate_mean(&CLOSE, &prices, 3_000_000), units(35));
}

#[test]
fn mean_over_the_whole_series() {
    let prices: Vec<PricePoint> =
        (0..5u64).map(|t| flat(t * MINUTE, 10 * (t as i64 + 1))).collect();
    assert_eq!(Algorithms::calculate_mean(&CLOSE, &prices, units(60)), units(30));
}

#[test]
fn mean_of_a_single_point() {
    let prices = vec![flat(0, 42)];
    assert_eq!(Algorithms::calculate_mean(&CLOSE, &prices, 0), units(42));
}

#[test]
fn mean_over_no_minutes_takes_the_points_of_the_last_minute() {
    let prices = vec![flat(0, 10), flat(MINUTE, 20), flat(MINUTE + 30_000, 40)];
    assert_eq!(Algorithms::calculate_mean(&CLOSE, &prices, 0), units(30));
}

#[test]
fn mean_over_a_negative_period_is_zero() {
    let prices = vec![flat(0, 10), flat(MINUTE, 20)];
    assert_eq!(Algorithms::calculate_mean(&CLOSE, &prices, units(-1)), 0);
}

#[test]
fn mean_rounds_toward_zero() {
    let prices = vec![flat(0, 1), flat(1, 1), flat(2, 2)];
    assert_eq!(Algorithms::calculate_mean(&CLOSE, &prices, units(1)), 1_333_333);
}

#[test]
fn standard_deviation_around_the_mean() {
    let prices: Vec<PricePoint> =
        (0..5u64).map(|t| flat(t * MINUTE, 10 * (t as i64 + 1))).collect();
    let mean = Algorithms::calculate_mean(&CLOSE, &prices, units(2));
    assert_eq!(
        Algorithms::calculate_standard_deviation(&CLOSE, &prices, units(2), mean),
        8_164_965
    );
}

#[test]
fn standard_deviation_of_equal_values_is_zero() {
    let prices: Vec<PricePoint> = (0..5u64).map(|t| flat(t * MINUTE, 7)).collect();
    assert_eq!(Algorithms::calculate_standard_deviation(&CLOSE, &prices, units(10), units(7)), 0);
}

#[test]
fn standard_deviation_around_a_given_mean() {
    let prices = vec![flat(0, 3), flat(MINUTE, 5)];
    assert_eq!(
        Algorithms::calculate_standard_deviation(&CLOSE, &prices, units(10), units(1)),
        3_162_277
    );
}

#[test]
fn volatility_of_a_flat_series_is_zero() {
    let prices: Vec<PricePoint> = (0..40u64).map(|t| flat(t * MINUTE, 100)).collect();
    assert_eq!(Algorithms::calculate_volatility(&CLOSE, &prices, units(30)), 0);
    assert_eq!(Algorithms::calculate_volatility(&(Tick::Ask, Ohlc::High), &prices, units(5)), 0);
}

#[test]
fn volatility_averages_the_ranges_of_the_closed_windows() {
    let prices = rising(14);
    assert_eq!(Algorithms::calculate_volatility(&CLOSE, &prices, units(30)), 52_789);
}

#[test]
fn volatility_stops_at_the_period() {
    let prices = rising(14);
    assert_eq!(Algorithms::calculate_volatility(&CLOSE, &prices, units(6)), 56_074);
}

#[test]
fn volatility_without_a_closed_window_is_zero() {
    let prices = rising(6);
    assert_eq!(Algorithms::calculate_volatility(&CLOSE, &prices, units(30)), 0);
}

#[test]
fn volatility_factor_follows_the_direction() {
    assert_eq!(
        Algorithms::calculate_volatility_factor(Action::Buy, 50_000, units(2)),
        1_100_000
    );
    assert_eq!(
        Algorithms::calculate_volatility_factor(Action::Sell, 50_000, units(2)),
        900_000
    );
    assert_eq!(Algorithms::calculate_volatility_factor(Action::Sell, 0, units(2)), SCALE);
}

#[test]
fn buy_is_stopped_at_or_under_its_stop_loss() {
    let quote = |bid: i64| PriceTick { time_stamp: 0, ask: units(200), bid: units(bid) };
    let buy = signal(Action::Buy, 100);
    assert!(Algorithms::check_stop_loss_hit(&buy, &quote(99)));
    assert!(Algorithms::check_stop_loss_hit(&buy, &quote(100)));
    assert!(!Algorithms::check_stop_loss_hit(&buy, &quote(101)));
}

#[test]
fn sell_is_stopped_at_or_over_its_stop_loss() {
    let quote = |ask: i64| PriceTick { time_stamp: 0, ask: units(ask), bid: units(1) };
    let sell = signal(Action::Sell, 100);
    assert!(Algorithms::check_stop_loss_hit(&sell, &quote(101)));
    assert!(Algorithms::check_stop_loss_hit(&sell, &quote(100)));
    assert!(!Algorithms::check_stop_loss_hit(&sell, &quote(99)));
}

#[test]
fn stop_loss_reads_the_low_for_a_buy_and_the_high_for_a_sell() {
    let bar = PriceOhlc {
        time_stamp: 0,
        open: units(100),
        high: units(110),
        low: units(90),
        close: units(100),
    };
    assert!(Algorithms::check_stop_loss_hit(&signal(Action::Buy, 95), &bar));
    assert!(!Algorithms::check_stop_loss_hit(&signal(Action::Buy, 85), &bar));
    assert!(Algorithms::check_stop_loss_hit(&signal(Action::Sell, 105), &bar));
    assert!(!Algorithms::check_stop_loss_hit(&signal(Action::Sell, 115), &bar));
}

#[test]
fn minutes_between_rounds_toward_zero() {
    assert_eq!(minutes_between(180_000, 0), 3);
    assert_eq!(minutes_between(179_999, 0), 2);
    assert_eq!(minutes_between(0, 179_999), -2);
    assert_eq!(minutes_between(59_999, 0), 0);
}

#[test]
fn a_tick_reads_its_side_whatever_the_field() {
    let quote = PriceTick { time_stamp: 5, ask: 12, bid: 11 };
    assert_eq!(quote.get(&(Tick::Ask, Ohlc::Low)), 12);
    assert_eq!(quote.get(&(Tick::Ask, Ohlc::Close)), 12);
    assert_eq!(quote.get(&(Tick::Bid, Ohlc::High)), 11);
    assert_eq!(quote.ts(), 5);
    let point = PricePoint::Tick(quote);
    assert_eq!(point.get(&(Tick::Bid, Ohlc::Open)), 11);
    assert_eq!(point.ts(), 5);
}

#[test]
fn a_bar_reads_its_field_whatever_the_side() {
    let bar = PriceOhlc { time_stamp: 9, open: 1, high: 4, low: 0, close: 3 };
    assert_eq!(bar.get(&(Tick::Ask, Ohlc::Open)), 1);
    assert_eq!(bar.get(&(Tick::Bid, Ohlc::High)), 4);
    assert_eq!(bar.get(&(Tick::Ask, Ohlc::Low)), 0);
    assert_eq!(bar.get(&(Tick::Bid, Ohlc::Close)), 3);
    assert_eq!(PricePoint::Ohlc(bar).ts(), 9);
}

#[test]
fn statistics_over_a_stretch_of_the_stored_series() {
    let mut manager = PriceManager::new();
    let prices: Vec<PricePoint> =
        (0..5u64).map(|t| flat(t * MINUTE, 10 * (t as i64 + 1))).collect();
    manager.add_prices(vec![("EURUSD".to_string(), prices)]);
    let symbol = "EURUSD".to_string();
    assert_eq!(algo_mean(&manager, &symbol, &CLOSE, 0, 2, units(60)), units(20));
    assert_eq!(algo_mean(&manager, &symbol, &CLOSE, 1, 3, units(1)), units(35));
    assert_eq!(algo_mean(&manager, &symbol, &CLOSE, 4, 4, units(60)), units(50));
    assert_eq!(algo_std_dev(&manager, &symbol, &CLOSE, 2, 4, units(60), units(40)), 8_164_965);
}
