//! The byte total that finished items add to.

use vstd::prelude::*;

verus! {

/// The single running total of a batch.
///
/// Only [`AggregateCounter::add`] changes it, and each call is one
/// add-and-read: the caller gets the total that includes its own bytes.
pub struct AggregateCounter {
    total: u64,
}

impl View for AggregateCounter {
    type V = nat;

    closed spec fn view(&self) -> nat {
        self.total as nat
    }
}

impl AggregateCounter {
    /// A counter at zero.
    pub fn new() -> (counter: Self)
        ensures
            counter@ == 0,
    {
        AggregateCounter { total: 0 }
    }

    /// The total so far.
    pub fn total(&self) -> (total: u64)
        ensures
            total == self@,
    {
        self.total
    }

    /// Whether `bytes` more can be counted without leaving the 64-bit range.
    pub fn has_room_for(&self, bytes: u64) -> (fits: bool)
        ensures
            fits == (self@ + bytes <= u64::MAX),
    {
        bytes <= u64::MAX - self.total
    }

    /// Adds `bytes` and returns the new total.
    pub fn add(&mut self, bytes: u64) -> (total: u64)
        requires
            old(self)@ + bytes <= u64::MAX,
        ensures
            final(self)@ == old(self)@ + bytes,
            total == final(self)@,
    {
        self.total = self.total + bytes;
        self.total
    }
}

} // verus!
