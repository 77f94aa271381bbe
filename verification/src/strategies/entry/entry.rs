//! What an entry rule is.

use vstd::prelude::*;

use crate::evaluation::position::{Action, Position, StrategyAttributes};
use crate::evaluation::signal::{Signal, SignalResult};
use crate::prices::price::{Ohlc, Price, PricePoint, PriceType, Tick};

verus! {

/// The close price on the side at which a position of this direction opens.
pub open spec fn entry_close_type(action: Action) -> PriceType {
    match action {
        Action::Buy => (Tick::Ask, Ohlc::Close),
        Action::Sell => (Tick::Bid, Ohlc::Close),
    }
}

/// A position opens at a border when the last quote reaches it: the ask low
/// at or under the border for a buy, the bid high at or over it for a sell.
pub open spec fn border_reached(action: Action, last: PricePoint, border: i64) -> Option<i64> {
    match action {
        Action::Buy => if last.value((Tick::Ask, Ohlc::Low)) <= border {
            Some(border)
        } else {
            None
        },
        Action::Sell => if last.value((Tick::Bid, Ohlc::High)) >= border {
            Some(border)
        } else {
            None
        },
    }
}

/// A position with its scratch replaced.
pub open spec fn with_attributes(position: Position, attributes: StrategyAttributes) -> Position {
    Position { strategy_attributes: attributes, ..position }
}

/// A rule that decides when an initiated position opens.
pub trait Entry: Sync + Send {
    /// The scratch that `on_init` leaves.
    spec fn init_attributes(
        &self,
        signal: Signal,
        position: Position,
        prices: Seq<PricePoint>,
    ) -> StrategyAttributes;

    /// Whether the scratch holds what `check_entry` reads.
    spec fn entry_ready(&self, attributes: StrategyAttributes) -> bool;

    /// The price at which the position opens on the last quote, if it does.
    spec fn entry_price(
        &self,
        signal: Signal,
        position: Position,
        prices: Seq<PricePoint>,
    ) -> Option<i64>;

    /// Whether the scratch holds what `check_entry` reads.
    fn is_entry_ready(&self, attributes: &StrategyAttributes) -> (r: bool)
        ensures
            r == self.entry_ready(*attributes),
    ;

    /// Prepares the scratch of a position that has just been initiated. Only
    /// the scratch changes.
    fn on_init(&self, signal_result: &mut SignalResult, prices: &[PricePoint])
        requires
            prices@.len() > 0,
        ensures
            final(signal_result).signal == old(signal_result).signal,
            final(signal_result).ticket == old(signal_result).ticket,
            final(signal_result).position == with_attributes(
                old(signal_result).position,
                self.init_attributes(
                    old(signal_result).signal,
                    old(signal_result).position,
                    prices@,
                ),
            ),
            self.entry_ready(final(signal_result).position.strategy_attributes),
    ;

    fn check_entry(&self, signal_result: &SignalResult, prices: &[PricePoint]) -> (r: Option<i64>)
        requires
            prices@.len() > 0,
            self.entry_ready(signal_result.position.strategy_attributes),
        ensures
            r == self.entry_price(signal_result.signal, signal_result.position, prices@),
    ;
}

/// The close selector of the entry side.
pub fn entry_close(action: Action) -> (r: PriceType)
    ensures
        r == entry_close_type(action),
{
    match action {
        Action::Buy => (Tick::Ask, Ohlc::Close),
        Action::Sell => (Tick::Bid, Ohlc::Close),
    }
}

/// Opens at `border` if the last quote reaches it.
pub fn reach_border(action: Action, last: &PricePoint, border: i64) -> (r: Option<i64>)
    ensures
        r == border_reached(action, *last, border),
{
    match action {
        Action::Buy => {
            if last.get(&(Tick::Ask, Ohlc::Low)) <= border {
                Some(border)
            } else {
                None
            }
        },
        Action::Sell => {
            if last.get(&(Tick::Bid, Ohlc::High)) >= border {
                Some(border)
            } else {
                None
            }
        },
    }
}

} // verus!
