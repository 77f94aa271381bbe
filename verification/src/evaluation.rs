//! Signals, their positions, the simulator and the portfolio statistics.

pub mod aggregation;
pub mod backtest_conditions;
pub mod backtest_result;
pub mod backtesting_signals;
pub mod orchestration;
pub mod position;
pub mod signal;
pub mod simulator_laws;
