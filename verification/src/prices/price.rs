//! Quotes and the selectors that read them.

use vstd::prelude::*;

use crate::lookup::is_named;
use crate::prices::price_ohlc::PriceOhlc;
use crate::prices::price_tick::PriceTick;

verus! {

/// Side of a quote.
#[derive(Debug, Clone, Copy, PartialEq, Eq, Structural)]
pub enum Tick {
    Ask,
    Bid,
}

/// Field of a bar.
#[derive(Debug, Clone, Copy, PartialEq, Eq, Structural)]
pub enum Ohlc {
    Open,
    High,
    Low,
    Close,
}

/// Selects one value of a quote: a side and a field.
pub type PriceType = (Tick, Ohlc);

/// One timestamped quote.
pub trait Price {
    /// The value that the selector picks.
    spec fn value(&self, price_type: PriceType) -> i64;

    /// Time of the quote, in milliseconds since the epoch.
    spec fn time(&self) -> u64;

    fn get(&self, price_type: &PriceType) -> (r: i64)
        ensures
            r == self.value(*price_type),
    ;

    fn ts(&self) -> (r: u64)
        ensures
            r == self.time(),
    ;
}

/// A quote of either kind, as a price series holds it.
#[derive(Debug, Clone, Copy)]
pub enum PricePoint {
    Tick(PriceTick),
    Ohlc(PriceOhlc),
}

impl Price for PricePoint {
    open spec fn value(&self, price_type: PriceType) -> i64 {
        match *self {
            PricePoint::Tick(tick) => tick.value(price_type),
            PricePoint::Ohlc(bar) => bar.value(price_type),
        }
    }

    open spec fn time(&self) -> u64 {
        match *self {
            PricePoint::Tick(tick) => tick.time(),
            PricePoint::Ohlc(bar) => bar.time(),
        }
    }

    fn get(&self, price_type: &PriceType) -> (r: i64) {
        match self {
            PricePoint::Tick(tick) => tick.get(price_type),
            PricePoint::Ohlc(bar) => bar.get(price_type),
        }
    }

    fn ts(&self) -> (r: u64) {
        match self {
            PricePoint::Tick(tick) => tick.ts(),
            PricePoint::Ohlc(bar) => bar.ts(),
        }
    }
}

/// The values that a selector picks along a series.
pub open spec fn values_of<P: Price>(prices: Seq<P>, price_type: PriceType) -> Seq<i64> {
    Seq::new(prices.len(), |i: int| prices[i].value(price_type))
}

/// The times along a series.
pub open spec fn times_of<P: Price>(prices: Seq<P>) -> Seq<u64> {
    Seq::new(prices.len(), |i: int| prices[i].time())
}

/// The side that a name stands for.
pub open spec fn spec_tick(name: Seq<char>) -> Option<Tick> {
    if name == "ask"@ {
        Some(Tick::Ask)
    } else if name == "bid"@ {
        Some(Tick::Bid)
    } else {
        None
    }
}

/// The field that a name stands for.
pub open spec fn spec_ohlc(name: Seq<char>) -> Option<Ohlc> {
    if name == "open"@ {
        Some(Ohlc::Open)
    } else if name == "high"@ {
        Some(Ohlc::High)
    } else if name == "low"@ {
        Some(Ohlc::Low)
    } else if name == "close"@ {
        Some(Ohlc::Close)
    } else {
        None
    }
}

/// The selector that two names stand for. The side is looked at first.
pub open spec fn spec_price_type(type_tick: Seq<char>, type_ohlc: Seq<char>) -> Result<
    PriceType,
    &'static str,
> {
    match spec_tick(type_tick) {
        None => Err("Invalid tick type"),
        Some(tick) => match spec_ohlc(type_ohlc) {
            None => Err("Invalid ohlc type"),
            Some(ohlc) => Ok((tick, ohlc)),
        },
    }
}

/// The names of the sides and of the fields differ from one another.
pub proof fn lemma_selector_names_differ()
    ensures
        "ask"@ != "bid"@,
        "open"@ != "high"@,
        "open"@ != "low"@,
        "open"@ != "close"@,
        "high"@ != "low"@,
        "high"@ != "close"@,
        "low"@ != "close"@,
{
    reveal_strlit("ask");
    reveal_strlit("bid");
    reveal_strlit("open");
    reveal_strlit("high");
    reveal_strlit("low");
    reveal_strlit("close");
    assert("ask"@[0] != "bid"@[0]);
    assert("open"@[0] != "high"@[0]);
    assert("open"@.len() != "low"@.len());
    assert("open"@.len() != "close"@.len());
    assert("high"@.len() != "low"@.len());
    assert("high"@.len() != "close"@.len());
    assert("low"@.len() != "close"@.len());
}

/// Reads a selector from the names of its side, `ask` or `bid`, and of its
/// field, `open`, `high`, `low` or `close`.
pub fn convert_price_type(type_tick: &str, type_ohlc: &str) -> (r: Result<PriceType, &'static str>)
    ensures
        r == spec_price_type(type_tick@, type_ohlc@),
{
    proof {
        lemma_selector_names_differ();
    }
    let side = type_tick.to_owned();
    let field = type_ohlc.to_owned();
    let tick = if is_named(&side, "ask") {
        Tick::Ask
    } else if is_named(&side, "bid") {
        Tick::Bid
    } else {
        return Err("Invalid tick type");
    };
    let ohlc = if is_named(&field, "open") {
        Ohlc::Open
    } else if is_named(&field, "high") {
        Ohlc::High
    } else if is_named(&field, "low") {
        Ohlc::Low
    } else if is_named(&field, "close") {
        Ohlc::Close
    } else {
        return Err("Invalid ohlc type");
    };
    Ok((tick, ohlc))
}

} // verus!
