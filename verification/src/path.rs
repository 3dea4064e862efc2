//! The price path: an ordered, growing sequence of prices.
//!
//! A path is created with its start price and appended to once per
//! simulated time step. Its view is the sequence of stored bit patterns,
//! and a well-formed path is non-empty with every element strictly
//! positive and finite.

use vstd::prelude::*;

use crate::price::{price_bits_wf, Price};

verus! {

/// An ordered sequence of prices, index 0 being the start price.
pub struct PricePath {
    prices: Vec<Price>,
}

impl View for PricePath {
    type V = Seq<u64>;

    closed spec fn view(&self) -> Seq<u64> {
        self.prices@.map_values(|p: Price| p@)
    }
}

impl PricePath {
    /// A path is well formed when it holds at least its start price and
    /// every element is strictly positive and finite.
    pub open spec fn wf(self) -> bool {
        &&& self@.len() >= 1
        &&& forall|i: int| 0 <= i < self@.len() ==> price_bits_wf(#[trigger] self@[i])
    }

    /// A new path holding exactly the start price.
    pub fn new(start: Price) -> (path: PricePath)
        requires
            start.wf(),
        ensures
            path.wf(),
            path@ == seq![start@],
    {
        let path = PricePath { prices: vec![start] };
        proof {
            assert(path@ =~= seq![start@]);
        }
        path
    }

    /// Appends one price; everything already recorded stays in place.
    pub fn push(&mut self, next: Price)
        requires
            old(self).wf(),
            next.wf(),
        ensures
            final(self).wf(),
            final(self)@ == old(self)@.push(next@),
    {
        self.prices.push(next);
        proof {
            assert(self@ =~= old(self)@.push(next@));
        }
    }

    /// The number of prices recorded so far.
    pub fn len(&self) -> (n: usize)
        ensures
            n == self@.len(),
    {
        self.prices.len()
    }

    /// The price at position `i`.
    pub fn get(&self, i: usize) -> (p: Price)
        requires
            i < self@.len(),
        ensures
            p@ == self@[i as int],
    {
        self.prices[i]
    }
}

} // verus!
