//! Allocation of process-unique nation identifiers.

use vstd::prelude::*;

verus! {

/// Hands out nation identifiers: strictly increasing integers starting at 0,
/// never reused.
///
/// The allocator is an explicit value rather than hidden global state: a
/// caller chooses one source of identifiers and threads it through every
/// nation construction, so two nations drawn from the same allocator can
/// never share an identifier.
pub struct IdAllocator {
    next_id: i32,
}

impl IdAllocator {
    /// How many identifiers have been handed out so far; equally, the value
    /// the next allocation returns.
    pub closed spec fn issued(&self) -> int {
        self.next_id as int
    }

    /// A fresh allocator, whose first identifier will be 0.
    pub fn new() -> (a: IdAllocator)
        ensures
            a.issued() == 0,
    {
        IdAllocator { next_id: 0 }
    }

    /// How many identifiers have been handed out so far, as a machine value;
    /// lets a caller outside the proofs test for exhaustion before asking
    /// for another identifier.
    pub fn issued_count(&self) -> (k: i32)
        ensures
            k == self.issued(),
    {
        self.next_id
    }

    /// Hands out the next identifier and advances the counter by one, so
    /// successive allocations return strictly increasing values with no gaps.
    ///
    /// Identifier space is finite: once the counter reaches the maximum
    /// representable value, handing out another identifier would eventually
    /// reuse one and silently break every owner-reference field in the model.
    /// There is no valid recovery from that, so exhaustion is excluded by
    /// precondition rather than signalled as a normal error.
    pub fn allocate(&mut self) -> (id: i32)
        requires
            old(self).issued() < i32::MAX,
        ensures
            id == old(self).issued(),
            final(self).issued() == old(self).issued() + 1,
    {
        let id = self.next_id;
        self.next_id = self.next_id + 1;
        id
    }
}

} // verus!
