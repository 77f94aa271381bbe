//! The constraints of the account.

use vstd::prelude::*;

use crate::lookup::{find_first, first_match};

verus! {

/// Constraints of the account that a run is made under.
#[derive(Debug, Clone)]
pub struct BacktestConditions {
    /// Ceiling on the margin that open positions may commit together.
    pub max_margin: i64,
    /// Commission per lot and side.
    pub commission: i64,
    /// Lots per trade.
    pub lot_size: i64,
    /// Contract size by symbol. The first entry of a symbol counts.
    pub contract_sizes: Vec<(String, u32)>,
}

impl BacktestConditions {
    /// The contract size of `symbol`, if the conditions name one.
    pub open spec fn spec_contract_size(&self, symbol: Seq<char>) -> Option<u32> {
        first_match(self.contract_sizes@, symbol)
    }

    /// The contract size of `symbol`, if the conditions name one.
    pub fn contract_size(&self, symbol: &String) -> (r: Option<u32>)
        ensures
            r == self.spec_contract_size(symbol@),
    {
        find_first(&self.contract_sizes, symbol.as_str())
    }
}

} // verus!
