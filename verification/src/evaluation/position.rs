//! The lifecycle record of a signal.

use vstd::prelude::*;

use crate::lookup::is_named;

verus! {

/// Direction of a trade.
#[derive(Debug, Clone, Copy, PartialEq, Eq, Structural)]
pub enum Action {
    Buy,
    Sell,
}

/// The direction that a name stands for.
pub open spec fn spec_action(name: Seq<char>) -> Option<Action> {
    if name == "buy"@ {
        Some(Action::Buy)
    } else if name == "sell"@ {
        Some(Action::Sell)
    } else {
        None
    }
}

impl Action {
    /// Reads a direction from its name, `buy` or `sell`.
    pub fn from_name(name: &str) -> (r: Option<Action>)
        ensures
            r == spec_action(name@),
    {
        proof {
            reveal_strlit("buy");
            reveal_strlit("sell");
            assert("buy"@.len() != "sell"@.len());
        }
        let owned = name.to_owned();
        if is_named(&owned, "buy") {
            Some(Action::Buy)
        } else if is_named(&owned, "sell") {
            Some(Action::Sell)
        } else {
            None
        }
    }

    /// The name of the direction.
    pub fn name(&self) -> (r: &'static str)
        ensures
            spec_action(r@) == Some(*self),
    {
        proof {
            reveal_strlit("buy");
            reveal_strlit("sell");
            assert("buy"@.len() != "sell"@.len());
        }
        match self {
            Action::Buy => "buy",
            Action::Sell => "sell",
        }
    }
}

/// Why a position was given up before it opened.
#[derive(Debug, Clone, Copy, PartialEq, Eq, Structural)]
pub struct PositionIgnored {
    pub price_gap: bool,
    pub no_entry: bool,
    pub end_of_day: bool,
}

impl PositionIgnored {
    /// No reason set.
    pub fn new() -> (r: Self)
        ensures
            r == (PositionIgnored { price_gap: false, no_entry: false, end_of_day: false }),
            r.count() == 0,
    {
        PositionIgnored { price_gap: false, no_entry: false, end_of_day: false }
    }

    /// Number of reasons that are set.
    pub open spec fn count(&self) -> int {
        (if self.price_gap { 1int } else { 0int })
            + (if self.no_entry { 1int } else { 0int })
            + (if self.end_of_day { 1int } else { 0int })
    }
}

/// What the entry and exit rules keep for one position between its phases.
#[derive(Debug, Clone, Copy, PartialEq, Eq, Structural)]
pub struct StrategyAttributes {
    /// Border at which the position opens.
    pub price_to_open: Option<i64>,
    /// Target at which the position closes with a profit.
    pub take_profit: Option<i64>,
    /// Best price seen since the position opened.
    pub extreme: Option<i64>,
    /// Stop level that trails the best price.
    pub sl: Option<i64>,
}

/// The place in the scratch that a name stands for.
#[derive(Debug, Clone, Copy, PartialEq, Eq, Structural)]
pub enum AttributeKey {
    PriceToOpen,
    TakeProfit,
    Extreme,
    Sl,
}

/// The place that a name stands for: `price_to_open`, `take_profit`,
/// `extreme` or `sl`.
pub open spec fn spec_attribute_key(name: Seq<char>) -> Option<AttributeKey> {
    if name == "price_to_open"@ {
        Some(AttributeKey::PriceToOpen)
    } else if name == "take_profit"@ {
        Some(AttributeKey::TakeProfit)
    } else if name == "extreme"@ {
        Some(AttributeKey::Extreme)
    } else if name == "sl"@ {
        Some(AttributeKey::Sl)
    } else {
        None
    }
}

/// The names of the places differ from one another.
pub proof fn lemma_attribute_names_differ()
    ensures
        "price_to_open"@ != "take_profit"@,
        "price_to_open"@ != "extreme"@,
        "price_to_open"@ != "sl"@,
        "take_profit"@ != "extreme"@,
        "take_profit"@ != "sl"@,
        "extreme"@ != "sl"@,
{
    reveal_strlit("price_to_open");
    reveal_strlit("take_profit");
    reveal_strlit("extreme");
    reveal_strlit("sl");
    assert("price_to_open"@.len() == 13);
    assert("take_profit"@.len() == 11);
    assert("extreme"@.len() == 7);
    assert("sl"@.len() == 2);
}

impl AttributeKey {
    /// Reads a place from its name.
    pub fn from_name(name: &str) -> (r: Option<AttributeKey>)
        ensures
            r == spec_attribute_key(name@),
    {
        proof {
            lemma_attribute_names_differ();
        }
        let owned = name.to_owned();
        if is_named(&owned, "price_to_open") {
            Some(AttributeKey::PriceToOpen)
        } else if is_named(&owned, "take_profit") {
            Some(AttributeKey::TakeProfit)
        } else if is_named(&owned, "extreme") {
            Some(AttributeKey::Extreme)
        } else if is_named(&owned, "sl") {
            Some(AttributeKey::Sl)
        } else {
            None
        }
    }

    /// The name of the place.
    pub fn name(&self) -> (r: &'static str)
        ensures
            spec_attribute_key(r@) == Some(*self),
    {
        proof {
            lemma_attribute_names_differ();
        }
        match self {
            AttributeKey::PriceToOpen => "price_to_open",
            AttributeKey::TakeProfit => "take_profit",
            AttributeKey::Extreme => "extreme",
            AttributeKey::Sl => "sl",
        }
    }
}

impl StrategyAttributes {
    /// What the scratch holds at a place.
    pub open spec fn at(&self, key: AttributeKey) -> Option<i64> {
        match key {
            AttributeKey::PriceToOpen => self.price_to_open,
            AttributeKey::TakeProfit => self.take_profit,
            AttributeKey::Extreme => self.extreme,
            AttributeKey::Sl => self.sl,
        }
    }

    /// What the scratch holds at a place.
    pub fn get(&self, key: AttributeKey) -> (r: Option<i64>)
        ensures
            r == self.at(key),
    {
        match key {
            AttributeKey::PriceToOpen => self.price_to_open,
            AttributeKey::TakeProfit => self.take_profit,
            AttributeKey::Extreme => self.extreme,
            AttributeKey::Sl => self.sl,
        }
    }

    /// Puts a value at a place; the other places keep what they hold.
    pub fn insert(&mut self, key: AttributeKey, value: i64)
        ensures
            final(self).at(key) == Some(value),
            forall|other: AttributeKey|
                other != key ==> final(self).at(other) == old(self).at(other),
    {
        match key {
            AttributeKey::PriceToOpen => { self.price_to_open = Some(value); },
            AttributeKey::TakeProfit => { self.take_profit = Some(value); },
            AttributeKey::Extreme => { self.extreme = Some(value); },
            AttributeKey::Sl => { self.sl = Some(value); },
        }
    }

    /// An empty scratch.
    pub fn new() -> (r: Self)
        ensures
            r == (StrategyAttributes {
                price_to_open: None,
                take_profit: None,
                extreme: None,
                sl: None,
            }),
    {
        StrategyAttributes { price_to_open: None, take_profit: None, extreme: None, sl: None }
    }
}

/// Lifecycle record of one signal.
#[derive(Debug, Clone, Copy, PartialEq, Eq, Structural)]
pub struct Position {
    pub action: Action,
    pub ignored: PositionIgnored,
    pub time_stamp_open: Option<u64>,
    pub time_stamp_close: Option<u64>,
    pub price_open: Option<i64>,
    pub price_close: Option<i64>,
    pub delta: Option<i64>,
    pub inited: bool,
    pub opened: bool,
    pub closed: bool,
    pub strategy_attributes: StrategyAttributes,
}

impl Position {
    /// The record of a signal that nothing has happened to yet.
    pub open spec fn fresh(action: Action) -> Position {
        Position {
            action,
            ignored: PositionIgnored { price_gap: false, no_entry: false, end_of_day: false },
            time_stamp_open: None,
            time_stamp_close: None,
            price_open: None,
            price_close: None,
            delta: None,
            inited: false,
            opened: false,
            closed: false,
            strategy_attributes: StrategyAttributes {
                price_to_open: None,
                take_profit: None,
                extreme: None,
                sl: None,
            },
        }
    }

    /// The record of a signal that nothing has happened to yet.
    pub fn new(action: Action) -> (r: Self)
        ensures
            r == Position::fresh(action),
            r.consistent(),
    {
        Position {
            action,
            ignored: PositionIgnored::new(),
            time_stamp_open: None,
            time_stamp_close: None,
            price_open: None,
            price_close: None,
            delta: None,
            inited: false,
            opened: false,
            closed: false,
            strategy_attributes: StrategyAttributes::new(),
        }
    }

    /// What holds of a position at every moment. The lifecycle is
    /// monotonic: a position opens only after it was initiated and closes
    /// only after it opened. Open price and time are set together with
    /// `opened`; close price and time are set together, and only on a closed
    /// position; a realized delta needs both. At most one reason for giving
    /// the position up is set, then the position was initiated and has not
    /// closed, and if it had opened the reason is a gap in the prices.
    pub open spec fn consistent(&self) -> bool {
        &&& self.opened ==> self.inited
        &&& self.closed ==> self.opened
        &&& self.opened <==> self.price_open.is_some()
        &&& self.opened <==> self.time_stamp_open.is_some()
        &&& self.price_close.is_some() <==> self.time_stamp_close.is_some()
        &&& self.price_close.is_some() ==> self.closed
        &&& self.delta.is_some() ==> self.price_close.is_some()
        &&& self.ignored.count() <= 1
        &&& self.ignored.count() == 1 ==> self.inited && !self.closed
        &&& self.ignored.count() == 1 && self.opened ==> self.ignored.price_gap
    }

    /// What holds of a position once the simulator has handed it out: it
    /// was initiated, and it either closed, with its delta settled and no
    /// reason set, or was given up for exactly one reason.
    pub open spec fn concluded(&self) -> bool {
        &&& self.consistent()
        &&& self.inited
        &&& if self.closed {
            self.delta.is_some() && self.ignored.count() == 0
        } else {
            self.delta.is_none() && self.ignored.count() == 1
        }
    }
}

} // verus!
