//! Lock identifiers.

use vstd::prelude::*;

verus! {

/// Hands out lock identifiers: 0, 1, 2, and so on, each one once.
pub struct IdentifierAllocator {
    counter: u64,
}

impl View for IdentifierAllocator {
    type V = u64;

    /// The identifier that is handed out next; every smaller one was handed
    /// out already.
    closed spec fn view(&self) -> u64 {
        self.counter
    }
}

impl IdentifierAllocator {
    /// An allocator that has handed out nothing yet.
    pub fn new() -> (allocator: IdentifierAllocator)
        ensures
            allocator@ == 0,
    {
        IdentifierAllocator { counter: 0 }
    }

    /// An allocator that goes on from `counter`: it has handed out every
    /// smaller identifier, and hands out `counter` next.
    pub fn starting_at(counter: u64) -> (allocator: IdentifierAllocator)
        ensures
            allocator@ == counter,
    {
        IdentifierAllocator { counter }
    }

    /// The identifier that `next` would hand out.
    pub fn peek(&self) -> (id: u64)
        ensures
            id == self@,
    {
        self.counter
    }

    /// Hands out the next identifier.
    pub fn next(&mut self) -> (id: u64)
        requires
            old(self)@ < u64::MAX,
        ensures
            id == old(self)@,
            final(self)@ == old(self)@ + 1,
    {
        let id = self.counter;
        self.counter = id + 1;
        id
    }
}

} // verus!
