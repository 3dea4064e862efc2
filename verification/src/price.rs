//! The price model.
//!
//! A price is carried as the bit pattern of a 64-bit IEEE-754 value. The
//! library never does numeric arithmetic on prices; it only stores and
//! compares them. For strictly positive finite values the unsigned order of
//! the bit patterns agrees with the numeric order, so every comparison made
//! here is a numeric comparison, and the caller converts patterns back to
//! its own numeric type at the boundary.

use vstd::prelude::*;

verus! {

/// Bit pattern of positive infinity. Every strictly positive finite value
/// has a pattern strictly between zero and this constant, and on that range
/// unsigned order and numeric order coincide.
pub const INFINITY_BITS: u64 = 0x7FF0_0000_0000_0000;

/// Holds exactly of the patterns of strictly positive finite values.
pub open spec fn price_bits_wf(bits: u64) -> bool {
    0 < bits < INFINITY_BITS
}

/// A strictly positive, finite price, held as its IEEE-754 bit pattern.
#[derive(Clone, Copy, PartialEq, Eq, Structural, Debug)]
pub struct Price {
    bits: u64,
}

impl View for Price {
    type V = u64;

    closed spec fn view(&self) -> u64 {
        self.bits
    }
}

impl Price {
    /// A price is well formed when its pattern is that of a strictly
    /// positive finite value.
    pub open spec fn wf(self) -> bool {
        price_bits_wf(self@)
    }

    /// Accepts exactly the patterns of strictly positive finite values and
    /// keeps the accepted pattern unchanged.
    pub fn from_bits(bits: u64) -> (r: Option<Price>)
        ensures
            match r {
                Some(p) => price_bits_wf(bits) && p@ == bits && p.wf(),
                None => !price_bits_wf(bits),
            },
    {
        if 0 < bits && bits < INFINITY_BITS {
            Some(Price { bits })
        } else {
            None
        }
    }

    /// The stored bit pattern.
    pub fn bits(&self) -> (r: u64)
        ensures
            r == self@,
    {
        self.bits
    }
}

} // verus!
