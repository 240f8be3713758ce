//! Events: an optional tag together with the emitter that raised it.
use vstd::prelude::*;
use vstd::std_specs::cmp::PartialEqSpec;
use crate::emit_obj::EmRC;

verus! {

/// An immutable event. Copying it copies the emitter handle and the tag.
#[derive(Debug, Clone, Copy)]
pub struct Event<T> {
    emitter: EmRC,
    tag: Option<T>,
}

/// Two optional tags are equal under the tag type's own equality.
pub open spec fn same_tag<T: PartialEq>(a: Option<T>, b: Option<T>) -> bool {
    match (a, b) {
        (Some(x), Some(y)) => x.eq_spec(&y),
        (None, None) => true,
        _ => false,
    }
}

impl<T> Event<T> {
    /// The event that `new` builds from these parts.
    pub closed spec fn spec_new(emitter: EmRC, tag: Option<T>) -> Event<T> {
        Event { emitter, tag }
    }

    pub closed spec fn emitter_view(&self) -> EmRC {
        self.emitter
    }

    pub closed spec fn tag_view(&self) -> Option<T> {
        self.tag
    }

    /// The parts of the event that `new` builds are the ones it was given.
    pub broadcast proof fn lemma_spec_new_parts(emitter: EmRC, tag: Option<T>)
        ensures
            (#[trigger] Event::spec_new(emitter, tag)).emitter_view() == emitter,
            Event::spec_new(emitter, tag).tag_view() == tag,
    {
    }

    pub fn new(emitter: EmRC, tag: Option<T>) -> (r: Event<T>)
        ensures
            r == Event::spec_new(emitter, tag),
            r.emitter_view() == emitter,
            r.tag_view() == tag,
    {
        Event { emitter, tag }
    }
}

impl<T: Copy> Event<T> {
    pub fn get_emitter(&self) -> (r: EmRC)
        ensures
            r == self.emitter_view(),
    {
        self.emitter
    }

    pub fn get_tag(&self) -> (r: Option<T>)
        ensures
            r == self.tag_view(),
    {
        self.tag
    }
}

/// Events are equal when they come from the same emitter and carry equal tags.
impl<T: PartialEq> PartialEq for Event<T> {
    fn eq(&self, other: &Event<T>) -> (r: bool) {
        if self.emitter.id != other.emitter.id {
            false
        } else {
            match (&self.tag, &other.tag) {
                (Some(x), Some(y)) => *x == *y,
                (None, None) => true,
                _ => false,
            }
        }
    }
}

impl<T: PartialEq> vstd::std_specs::cmp::PartialEqSpecImpl for Event<T> {
    open spec fn obeys_eq_spec() -> bool {
        T::obeys_eq_spec()
    }

    open spec fn eq_spec(&self, other: &Event<T>) -> bool {
        self.emitter_view() == other.emitter_view() && same_tag(self.tag_view(), other.tag_view())
    }
}

} // verus!
