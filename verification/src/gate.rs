//! A counting gate that bounds how many downloads are in flight.

use vstd::prelude::*;

verus! {

/// A pool of `capacity` slots, of which `in_flight` are taken.
pub struct Gate {
    capacity: usize,
    in_flight: usize,
}

impl Gate {
    /// Size of the pool.
    pub closed spec fn spec_capacity(&self) -> nat {
        self.capacity as nat
    }

    /// Number of slots that are taken.
    pub closed spec fn spec_in_flight(&self) -> nat {
        self.in_flight as nat
    }

    /// Never more slots are taken than the pool has.
    pub open spec fn wf(&self) -> bool {
        self.spec_in_flight() <= self.spec_capacity()
    }

    /// The pool fits a machine word.
    pub proof fn lemma_bounded(&self)
        ensures
            self.spec_capacity() <= usize::MAX,
            self.spec_in_flight() <= usize::MAX,
    {
    }

    /// A gate with `capacity` free slots.
    pub fn new(capacity: usize) -> (gate: Gate)
        ensures
            gate.wf(),
            gate.spec_capacity() == capacity,
            gate.spec_in_flight() == 0,
    {
        Gate { capacity, in_flight: 0 }
    }

    /// Size of the pool.
    pub fn capacity(&self) -> (n: usize)
        ensures
            n == self.spec_capacity(),
    {
        self.capacity
    }

    /// Number of slots that are taken.
    pub fn in_flight(&self) -> (n: usize)
        ensures
            n == self.spec_in_flight(),
    {
        self.in_flight
    }

    /// Takes a slot if one is free, and says whether it did.
    pub fn try_acquire(&mut self) -> (taken: bool)
        requires
            old(self).wf(),
        ensures
            final(self).wf(),
            final(self).spec_capacity() == old(self).spec_capacity(),
            taken == (old(self).spec_in_flight() < old(self).spec_capacity()),
            final(self).spec_in_flight() == old(self).spec_in_flight() + if taken { 1nat } else { 0nat },
    {
        if self.in_flight < self.capacity {
            self.in_flight = self.in_flight + 1;
            true
        } else {
            false
        }
    }

    /// Gives one taken slot back. With no slot taken nothing changes.
    pub fn release(&mut self) -> (released: bool)
        requires
            old(self).wf(),
        ensures
            final(self).wf(),
            final(self).spec_capacity() == old(self).spec_capacity(),
            released == (old(self).spec_in_flight() > 0),
            final(self).spec_in_flight() == old(self).spec_in_flight() - if released { 1int } else { 0int },
    {
        if self.in_flight > 0 {
            self.in_flight = self.in_flight - 1;
            true
        } else {
            false
        }
    }
}

} // verus!
