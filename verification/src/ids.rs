//! Identifiers for answers.

use vstd::prelude::*;

verus! {

/// A counter that hands out identifiers one after another, each of them once.
///
/// Its view is the identifier that the next call of [`IdAllocator::allocate`]
/// returns. The identifiers are the numbers of the machine's word: once the
/// largest of them has been handed out the view stands one above it, and the
/// counter hands out no more.
pub struct IdAllocator {
    next: usize,
    spent: bool,
}

impl View for IdAllocator {
    type V = nat;

    closed spec fn view(&self) -> nat {
        if self.spent {
            (usize::MAX + 1) as nat
        } else {
            self.next as nat
        }
    }
}

impl IdAllocator {
    /// A counter whose first identifier is zero.
    pub fn new() -> (ids: IdAllocator)
        ensures
            ids@ == 0,
    {
        IdAllocator { next: 0, spent: false }
    }

    /// A counter whose first identifier is `first`.
    pub fn starting_at(first: usize) -> (ids: IdAllocator)
        ensures
            ids@ == first,
    {
        IdAllocator { next: first, spent: false }
    }

    /// Whether the counter has an identifier left to hand out.
    pub fn can_allocate(&self) -> (can: bool)
        ensures
            can == (self@ <= usize::MAX),
    {
        !self.spent
    }

    /// Returns the next identifier and moves the counter past it.
    pub fn allocate(&mut self) -> (id: usize)
        requires
            old(self)@ <= usize::MAX,
        ensures
            id == old(self)@,
            final(self)@ == old(self)@ + 1,
    {
        let id: usize = self.next;
        if id == usize::MAX {
            self.spent = true;
        } else {
            self.next = id + 1;
        }
        id
    }
}

} // verus!
