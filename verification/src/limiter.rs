//! The limit on how many items are worked on at once.

use vstd::prelude::*;

verus! {

/// A counting semaphore without the waiting: it says whether a permit can
/// be had, and counts the permits that are out.
///
/// Whoever is refused waits elsewhere and asks again after a release.
pub struct Limiter {
    capacity: usize,
    outstanding: usize,
}

impl Limiter {
    /// The number of permits that may be out at once.
    pub closed spec fn spec_capacity(&self) -> usize {
        self.capacity
    }

    /// The number of permits that are out: acquired and not yet released.
    pub closed spec fn spec_outstanding(&self) -> usize {
        self.outstanding
    }

    /// No more permits are out than the capacity allows.
    pub open spec fn wf(&self) -> bool {
        self.spec_outstanding() <= self.spec_capacity()
    }

    /// A limiter with `capacity` permits, all of them free.
    pub fn new(capacity: usize) -> (limiter: Self)
        ensures
            limiter.wf(),
            limiter.spec_capacity() == capacity,
            limiter.spec_outstanding() == 0,
    {
        Limiter { capacity, outstanding: 0 }
    }

    #[verifier::when_used_as_spec(spec_capacity)]
    pub fn capacity(&self) -> (capacity: usize)
        ensures
            capacity == self.spec_capacity(),
    {
        self.capacity
    }

    #[verifier::when_used_as_spec(spec_outstanding)]
    pub fn outstanding(&self) -> (outstanding: usize)
        ensures
            outstanding == self.spec_outstanding(),
    {
        self.outstanding
    }

    /// Whether a permit is free.
    pub fn has_free_permit(&self) -> (free: bool)
        ensures
            free == (self.spec_outstanding() < self.spec_capacity()),
    {
        self.outstanding < self.capacity
    }

    /// Takes a permit if one is free, and says whether it did.
    pub fn try_acquire(&mut self) -> (granted: bool)
        requires
            old(self).wf(),
        ensures
            final(self).wf(),
            final(self).spec_capacity() == old(self).spec_capacity(),
            granted == (old(self).spec_outstanding() < old(self).spec_capacity()),
            final(self).spec_outstanding() == old(self).spec_outstanding() + if granted {
                1int
            } else {
                0int
            },
    {
        if self.outstanding < self.capacity {
            self.outstanding = self.outstanding + 1;
            true
        } else {
            false
        }
    }

    /// Gives one permit back.
    pub fn release(&mut self)
        requires
            old(self).wf(),
            old(self).spec_outstanding() > 0,
        ensures
            final(self).wf(),
            final(self).spec_capacity() == old(self).spec_capacity(),
            final(self).spec_outstanding() == old(self).spec_outstanding() - 1,
    {
        self.outstanding = self.outstanding - 1;
    }
}

} // verus!
