//! What an exit rule is.

use vstd::prelude::*;

use crate::evaluation::position::{Action, Position, StrategyAttributes};
use crate::evaluation::signal::{Signal, SignalResult};
use crate::prices::price::{Ohlc, PricePoint, PriceType, Tick};
use crate::strategies::entry::entry::with_attributes;

verus! {

/// The selector of a field on the side at which a position of this
/// direction closes: the bid for a buy, the ask for a sell.
pub open spec fn exit_side_type(action: Action, field: Ohlc) -> PriceType {
    match action {
        Action::Buy => (Tick::Bid, field),
        Action::Sell => (Tick::Ask, field),
    }
}

/// The field in which a price can run in favour of the position: the high
/// for a buy, the low for a sell.
pub open spec fn favourable_type(action: Action) -> PriceType {
    match action {
        Action::Buy => (Tick::Bid, Ohlc::High),
        Action::Sell => (Tick::Ask, Ohlc::Low),
    }
}

/// The field in which a price can run against the position: the low for a
/// buy, the high for a sell.
pub open spec fn adverse_type(action: Action) -> PriceType {
    match action {
        Action::Buy => (Tick::Bid, Ohlc::Low),
        Action::Sell => (Tick::Ask, Ohlc::High),
    }
}

/// A rule that decides when an opened position closes.
pub trait Exit: Sync + Send {
    /// The scratch that `on_open` leaves.
    spec fn open_attributes(
        &self,
        signal: Signal,
        position: Position,
        prices: Seq<PricePoint>,
    ) -> StrategyAttributes;

    /// Whether the scratch holds what `check_exit` reads.
    spec fn exit_ready(&self, attributes: StrategyAttributes) -> bool;

    /// The scratch that `check_exit` leaves.
    spec fn exit_attributes(
        &self,
        signal: Signal,
        position: Position,
        prices: Seq<PricePoint>,
    ) -> StrategyAttributes;

    /// The price at which the position closes on the last quote, if it does.
    spec fn exit_price(
        &self,
        signal: Signal,
        position: Position,
        prices: Seq<PricePoint>,
    ) -> Option<i64>;

    /// Whether the scratch holds what `check_exit` reads.
    fn is_exit_ready(&self, attributes: &StrategyAttributes) -> (r: bool)
        ensures
            r == self.exit_ready(*attributes),
    ;

    /// Prepares the scratch of a position that has just opened. Only the
    /// scratch changes.
    fn on_open(&self, signal_result: &mut SignalResult, prices: &[PricePoint])
        requires
            prices@.len() > 0,
        ensures
            final(signal_result).signal == old(signal_result).signal,
            final(signal_result).ticket == old(signal_result).ticket,
            final(signal_result).position == with_attributes(
                old(signal_result).position,
                self.open_attributes(
                    old(signal_result).signal,
                    old(signal_result).position,
                    prices@,
                ),
            ),
            self.exit_ready(final(signal_result).position.strategy_attributes),
    ;

    /// Looks for a close on the last quote. Only the scratch changes.
    fn check_exit(
        &self,
        signal_result: &mut SignalResult,
        prices: &[PricePoint],
    ) -> (r: Option<i64>)
        requires
            prices@.len() > 0,
            old(signal_result).position.price_open.is_some(),
            self.exit_ready(old(signal_result).position.strategy_attributes),
        ensures
            r == self.exit_price(old(signal_result).signal, old(signal_result).position, prices@),
            final(signal_result).signal == old(signal_result).signal,
            final(signal_result).ticket == old(signal_result).ticket,
            final(signal_result).position == with_attributes(
                old(signal_result).position,
                self.exit_attributes(
                    old(signal_result).signal,
                    old(signal_result).position,
                    prices@,
                ),
            ),
            self.exit_ready(final(signal_result).position.strategy_attributes),
    ;
}

pub fn exit_side(action: Action, field: Ohlc) -> (r: PriceType)
    ensures
        r == exit_side_type(action, field),
{
    match action {
        Action::Buy => (Tick::Bid, field),
        Action::Sell => (Tick::Ask, field),
    }
}

pub fn favourable(action: Action) -> (r: PriceType)
    ensures
        r == favourable_type(action),
{
    match action {
        Action::Buy => (Tick::Bid, Ohlc::High),
        Action::Sell => (Tick::Ask, Ohlc::Low),
    }
}

pub fn adverse(action: Action) -> (r: PriceType)
    ensures
        r == adverse_type(action),
{
    match action {
        Action::Buy => (Tick::Bid, Ohlc::Low),
        Action::Sell => (Tick::Ask, Ohlc::High),
    }
}

} // verus!
