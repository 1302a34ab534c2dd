//! The poll interval: one unsigned number of milliseconds.
//!
//! The store is an exclusive-access container: writing takes `&mut self`, so
//! the borrow rules give every write sole access and every read a settled
//! value. A host that shares the store between threads puts it behind one
//! lock and holds that lock only for the duration of a single `set` or `get`.

use vstd::prelude::*;

verus! {

/// The interval, in milliseconds, that a store holds until it is first set.
pub const DEFAULT_INTERVAL_MS: u64 = 5000;

/// Holds the poll interval in milliseconds.
pub struct IntervalStore {
    ms: u64,
}

impl View for IntervalStore {
    type V = u64;

    /// The number of milliseconds that the store holds.
    closed spec fn view(&self) -> u64 {
        self.ms
    }
}

impl IntervalStore {
    /// A store that holds the default interval.
    pub fn new() -> (store: Self)
        ensures
            store@ == DEFAULT_INTERVAL_MS,
    {
        IntervalStore { ms: DEFAULT_INTERVAL_MS }
    }

    /// Overwrites the held interval with `value`. Every value is accepted.
    pub fn set(&mut self, value: u64)
        ensures
            final(self)@ == value,
    {
        self.ms = value;
    }

    /// The interval that the store holds.
    pub fn get(&self) -> (value: u64)
        ensures
            value == self@,
    {
        self.ms
    }
}

impl Default for IntervalStore {
    fn default() -> (store: Self)
        ensures
            store@ == DEFAULT_INTERVAL_MS,
    {
        IntervalStore::new()
    }
}

} // verus!
