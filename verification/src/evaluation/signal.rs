//! Signals and their results.

use vstd::prelude::*;

use crate::evaluation::position::{Action, Position};

verus! {

/// A proposed trade.
#[derive(Debug, Clone, PartialEq, Eq)]
pub struct Signal {
    pub symbol: String,
    pub action: Action,
    pub stop_loss: i64,
    pub take_profit: Vec<i64>,
    /// Milliseconds since the epoch.
    pub time_stamp: u64,
    pub source: String,
}

/// A signal with the record of what became of it.
#[derive(Debug, Clone, PartialEq, Eq)]
pub struct SignalResult {
    pub signal: Signal,
    pub position: Position,
    pub ticket: Option<u32>,
}

impl SignalResult {
    /// The result of a signal that nothing has happened to yet.
    pub open spec fn fresh(signal: Signal) -> SignalResult {
        SignalResult { signal, position: Position::fresh(signal.action), ticket: None }
    }

    /// The result of a signal that nothing has happened to yet.
    pub fn new(signal: Signal) -> (r: SignalResult)
        ensures
            r == SignalResult::fresh(signal),
    {
        let position = Position::new(signal.action);
        SignalResult { position, signal, ticket: None }
    }
}

} // verus!
