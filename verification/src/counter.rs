//! The counter that a stateful unit of work captures and mutates.

use vstd::prelude::*;

verus! {

/// A single mutable integer, owned exclusively by the unit of work that
/// increments it. It starts at zero and only ever grows by one at a time.
pub struct Counter {
    value: u64,
}

impl Counter {
    /// The mathematical value of the counter.
    pub closed spec fn view(&self) -> nat {
        self.value as nat
    }

    /// A fresh counter, initialized to zero.
    pub fn new() -> (c: Counter)
        ensures
            c@ == 0,
    {
        Counter { value: 0 }
    }

    /// The current value.
    pub fn value(&self) -> (v: u64)
        ensures
            v as nat == self@,
    {
        self.value
    }

    /// Add one to the counter.
    pub fn increment(&mut self)
        requires
            old(self)@ < u64::MAX as nat,
        ensures
            final(self)@ == old(self)@ + 1,
    {
        self.value = self.value + 1;
    }
}

} // verus!
