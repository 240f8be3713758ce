//! Identity: every emitter, listener and handler gets its id from an explicit
//! counter, and objects compare by id alone, never by their contents.
//!
//! All kinds draw from one counter when one is shared among their
//! constructors, so an emitter and a listener never share an id either; the
//! id space is common to every kind.
use vstd::prelude::*;

verus! {

/// Hands out ids in increasing order, so no two issued ids are equal.
#[derive(Debug)]
pub struct IdCounter {
    next: usize,
}

impl IdCounter {
    /// The id the next call of `issue` will hand out.
    pub closed spec fn next_id(&self) -> nat {
        self.next as nat
    }

    /// Whether the counter can still issue an id.
    pub open spec fn can_issue(&self) -> bool {
        self.next_id() < usize::MAX
    }

    pub fn new() -> (r: IdCounter)
        ensures
            r.next_id() == 0,
    {
        IdCounter { next: 0 }
    }

    /// Returns a fresh id and advances the counter.
    pub fn issue(&mut self) -> (r: usize)
        requires
            old(self).can_issue(),
        ensures
            r == old(self).next_id(),
            final(self).next_id() == old(self).next_id() + 1,
    {
        let r = self.next;
        self.next = self.next + 1;
        r
    }
}

/// Anything with a stable identity; two objects of one kind are the same
/// object exactly when their ids are equal.
pub trait Unique {
    spec fn id_spec(&self) -> usize;

    fn get_id(&self) -> (r: usize)
        ensures
            r == self.id_spec(),
    ;
}

/// Whether two objects, of one kind or of two, have the same id. With one
/// counter shared among all constructors, that means they are one object.
pub fn same_id<A: Unique, B: Unique>(a: &A, b: &B) -> (r: bool)
    ensures
        r == (a.id_spec() == b.id_spec()),
{
    a.get_id() == b.get_id()
}

} // verus!
