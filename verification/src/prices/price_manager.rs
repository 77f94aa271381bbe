//! The table of price series.

use vstd::prelude::*;

use crate::lookup::{
    find_index, lemma_first_index, lemma_listing_index, listed, listing, put, put_under,
};
use crate::prices::price::PricePoint;

verus! {

/// The price series of all symbols. The first entry of a symbol is its
/// series.
pub struct PriceManager {
    pub prices: Vec<(String, Vec<PricePoint>)>,
}

/// The series after the first `n` batches have been added, each to the end
/// of the series of its symbol.
pub open spec fn with_batches(
    series: Seq<(Seq<char>, Seq<PricePoint>)>,
    batches: Seq<(String, Vec<PricePoint>)>,
    n: int,
) -> Seq<(Seq<char>, Seq<PricePoint>)>
    decreases n,
{
    if n <= 0 || n > batches.len() {
        series
    } else {
        put(with_batches(series, batches, n - 1), batches[n - 1].0@, batches[n - 1].1@)
    }
}

impl PriceManager {
    /// The series of `symbol`, if the table holds one.
    pub open spec fn series(&self, symbol: Seq<char>) -> Option<Seq<PricePoint>> {
        listed(listing(self.prices@), symbol)
    }

    /// An empty table.
    pub fn new() -> (r: Self)
        ensures
            r.prices@.len() == 0,
            forall|symbol: Seq<char>| r.series(symbol).is_none(),
    {
        Self { prices: Vec::new() }
    }

    /// Appends each batch to the series of its symbol, in the order given.
    /// A symbol that has no series yet gets one.
    pub fn add_prices(&mut self, prices: Vec<(String, Vec<PricePoint>)>)
        ensures
            listing(final(self).prices@) == with_batches(
                listing(old(self).prices@),
                prices@,
                prices@.len() as int,
            ),
    {
        let ghost all = prices@;
        let ghost before = listing(self.prices@);
        for batch in it: prices.into_iter()
            invariant
                it.seq() == all,
                before == listing(old(self).prices@),
                listing(self.prices@) == with_batches(before, all, it.index() as int),
        {
            let (key, mut value) = batch;
            put_under(&mut self.prices, key, &mut value);
        }
    }

    /// The series of `symbol`.
    pub fn get(&self, symbol: &String) -> (r: Option<&Vec<PricePoint>>)
        ensures
            match r {
                Some(series) => self.series(symbol@) == Some(series@),
                None => self.series(symbol@).is_none(),
            },
    {
        proof {
            lemma_first_index(self.prices@, symbol@);
            lemma_listing_index(self.prices@, symbol@);
        }
        match find_index(&self.prices, symbol) {
            Some(i) => Some(&self.prices[i].1),
            None => None,
        }
    }
}

} // verus!
