//! A handler that, besides broadcasting to its own listeners, forwards each
//! broadcast event to its parents.
use vstd::prelude::*;
use vstd::std_specs::cmp::PartialEqSpec;
use crate::emit_obj::EmRC;
use crate::error::EventError;
use crate::event::Event;
use crate::ids::{IdCounter, Unique};
use crate::listener::{
    distinct_listeners, lemma_with_listener_distinct, listener_registration, register_listener,
    with_listener, LiRC,
};
use crate::notice::{
    all_tagged, listener_notices, notices_with_parents, notify_listeners, notify_parents,
    parent_notices, Notice,
};
use crate::stack::{emitters_of, push_all, pushed, pushed_all, tag_values_of, top, top_of};

verus! {

/// A handler that also forwards each event it broadcasts to its parents.
/// Parents are named by id: a sub-handler refers back to them and never owns
/// them. A sub-handler must never be among its own parents, directly or
/// through other sub-handlers, or forwarding would go round a cycle.
#[derive(Debug)]
pub struct SubEventHandler<T> {
    id: usize,
    stack: Vec<Event<T>>,
    prev_event: Option<Event<T>>,
    listeners: Vec<LiRC<T>>,
    parents: Vec<usize>,
}

impl<T> Unique for SubEventHandler<T> {
    closed spec fn id_spec(&self) -> usize {
        self.id
    }

    fn get_id(&self) -> (r: usize) {
        self.id
    }
}

impl<T> SubEventHandler<T> {
    /// The pending events, bottom first; the top is the last one.
    pub closed spec fn stack_view(&self) -> Seq<Event<T>> {
        self.stack@
    }

    /// The event popped most recently, if any was.
    pub closed spec fn prev_view(&self) -> Option<Event<T>> {
        self.prev_event
    }

    /// The registered listeners, in registration order.
    pub closed spec fn listeners_view(&self) -> Seq<LiRC<T>> {
        self.listeners@
    }

    /// The ids of the parents, in registration order.
    pub closed spec fn parents_view(&self) -> Seq<usize> {
        self.parents@
    }

    /// Well-formed: no listener is registered twice, by id.
    pub open spec fn wf(&self) -> bool {
        distinct_listeners(self.listeners_view())
    }

    /// The same id, listeners and parents as `other`.
    pub open spec fn same_registrations(&self, other: &SubEventHandler<T>) -> bool {
        &&& self.id_spec() == other.id_spec()
        &&& self.listeners_view() == other.listeners_view()
        &&& self.parents_view() == other.parents_view()
    }

    /// Everything but the stack is as in `other`.
    pub open spec fn only_stack_differs(&self, other: &SubEventHandler<T>) -> bool {
        &&& self.same_registrations(other)
        &&& self.prev_view() == other.prev_view()
    }
}

impl<T: Copy + PartialEq> SubEventHandler<T> {
    pub fn new(parents: Vec<usize>, ids: &mut IdCounter) -> (r: SubEventHandler<T>)
        requires
            old(ids).can_issue(),
        ensures
            r.id_spec() == old(ids).next_id(),
            r.stack_view() == Seq::<Event<T>>::empty(),
            r.prev_view() is None,
            r.listeners_view() == Seq::<LiRC<T>>::empty(),
            r.parents_view() == parents@,
            r.wf(),
            final(ids).next_id() == old(ids).next_id() + 1,
    {
        SubEventHandler {
            id: ids.issue(),
            stack: Vec::new(),
            prev_event: None,
            listeners: Vec::new(),
            parents,
        }
    }

    pub fn get_id(&self) -> (r: usize)
        ensures
            r == self.id_spec(),
    {
        self.id
    }

    pub fn get_parents(&self) -> (r: &Vec<usize>)
        ensures
            r@ == self.parents_view(),
    {
        &self.parents
    }

    /// Puts `event` on top of the stack; no event, no change.
    pub fn push_event(&mut self, event: Option<Event<T>>)
        ensures
            final(self).only_stack_differs(old(self)),
            final(self).stack_view() == pushed(old(self).stack_view(), event),
    {
        if let Some(e) = event {
            self.stack.push(e);
        }
    }

    /// Puts each of `events` on the stack in order; no events, no change.
    pub fn push_events(&mut self, events: Option<Vec<Event<T>>>)
        ensures
            final(self).only_stack_differs(old(self)),
            final(self).stack_view() == pushed_all(
                old(self).stack_view(),
                match events {
                    Some(v) => Some(v@),
                    None => None,
                },
            ),
    {
        if let Some(v) = events {
            push_all(&mut self.stack, &v);
        }
    }

    pub fn get_stack(&self) -> (r: &Vec<Event<T>>)
        ensures
            r@ == self.stack_view(),
    {
        &self.stack
    }

    /// The emitter of each pending event, bottom first.
    pub fn get_stack_emitters(&self) -> (r: Vec<EmRC>)
        ensures
            r@ == self.stack_view().map_values(|e: Event<T>| e.emitter_view()),
    {
        emitters_of(&self.stack)
    }

    /// Registers `listener`, unless a listener with its id is registered already.
    pub fn add_listener(&mut self, listener: LiRC<T>) -> (r: Result<(), EventError>)
        ensures
            final(self).id_spec() == old(self).id_spec(),
            final(self).stack_view() == old(self).stack_view(),
            final(self).prev_view() == old(self).prev_view(),
            final(self).parents_view() == old(self).parents_view(),
            final(self).listeners_view() == with_listener(old(self).listeners_view(), listener),
            r == listener_registration(old(self).listeners_view(), listener),
            old(self).wf() ==> final(self).wf(),
    {
        proof {
            if self.wf() {
                lemma_with_listener_distinct(self.listeners@, listener);
            }
        }
        register_listener(&mut self.listeners, listener)
    }

    pub fn get_listeners(&self) -> (r: &Vec<LiRC<T>>)
        ensures
            r@ == self.listeners_view(),
    {
        &self.listeners
    }

    /// The top event, left in place.
    pub fn peek_next(&self) -> (r: Option<&Event<T>>)
        ensures
            match r {
                Some(e) => top(self.stack_view()) == Some(*e),
                None => top(self.stack_view()) is None,
            },
    {
        top_of(&self.stack)
    }

    /// The tag of the top event; none when the stack is empty or the top
    /// event is untagged.
    pub fn peek_next_tag(&self) -> (r: Option<T>)
        ensures
            r == match top(self.stack_view()) {
                Some(e) => e.tag_view(),
                None => None,
            },
    {
        match self.peek_next() {
            Some(e) => e.get_tag(),
            None => None,
        }
    }

    /// The emitter of the top event.
    pub fn peek_next_emitter(&self) -> (r: Option<EmRC>)
        ensures
            r == match top(self.stack_view()) {
                Some(e) => Some(e.emitter_view()),
                None => None,
            },
    {
        match self.peek_next() {
            Some(e) => Some(e.get_emitter()),
            None => None,
        }
    }

    /// Takes the top event off the stack and keeps it as the previous event.
    /// On an empty stack nothing changes.
    pub fn pop_next(&mut self) -> (r: Option<Event<T>>)
        ensures
            final(self).same_registrations(old(self)),
            r == top(old(self).stack_view()),
            old(self).stack_view().len() == 0 ==> {
                &&& final(self).stack_view() == old(self).stack_view()
                &&& final(self).prev_view() == old(self).prev_view()
            },
            old(self).stack_view().len() > 0 ==> {
                &&& final(self).stack_view() == old(self).stack_view().drop_last()
                &&& final(self).prev_view() == r
            },
    {
        match self.stack.pop() {
            Some(e) => {
                self.prev_event = Some(e);
                Some(e)
            },
            None => None,
        }
    }

    pub fn get_prev_event(&self) -> (r: &Option<Event<T>>)
        ensures
            *r == self.prev_view(),
    {
        &self.prev_event
    }

    /// The tag of each pending event, bottom first, where every one is tagged.
    pub fn get_stack_events(&self) -> (r: Vec<T>)
        requires
            all_tagged(self.stack_view()),
        ensures
            r@ == self.stack_view().map_values(|e: Event<T>| e.tag_view()->Some_0),
    {
        tag_values_of(&self.stack)
    }

    /// Pops the top event and broadcasts it; on an empty stack nothing happens.
    pub fn consume_next_event(&mut self) -> (r: Vec<Notice<T>>)
        requires
            T::obeys_eq_spec(),
            match top(old(self).stack_view()) {
                Some(e) => e.tag_view() is Some,
                None => true,
            },
        ensures
            final(self).same_registrations(old(self)),
            old(self).stack_view().len() == 0 ==> {
                &&& final(self).stack_view() == old(self).stack_view()
                &&& final(self).prev_view() == old(self).prev_view()
                &&& r@ == Seq::<Notice<T>>::empty()
            },
            old(self).stack_view().len() > 0 ==> {
                &&& final(self).stack_view() == old(self).stack_view().drop_last()
                &&& final(self).prev_view() == Some(old(self).stack_view().last())
                &&& r@ == listener_notices(
                    old(self).listeners_view(),
                    old(self).stack_view().last(),
                ) + parent_notices(old(self).parents_view(), old(self).stack_view().last())
            },
    {
        match self.pop_next() {
            Some(e) => self.broadcast_event(e),
            None => Vec::new(),
        }
    }

    /// The calls that broadcasting `event` makes: first one for each
    /// registered listener whose triggers hold the event's tag, in
    /// registration order, then one for each parent, in order.
    pub fn broadcast_event(&self, event: Event<T>) -> (r: Vec<Notice<T>>)
        requires
            T::obeys_eq_spec(),
            event.tag_view() is Some,
        ensures
            r@ == listener_notices(self.listeners_view(), event) + parent_notices(
                self.parents_view(),
                event,
            ),
    {
        let mut out: Vec<Notice<T>> = Vec::new();
        notify_listeners(&self.listeners, event, &mut out);
        notify_parents(&self.parents, event, &mut out);
        assert(out@ =~= listener_notices(self.listeners_view(), event) + parent_notices(
            self.parents_view(),
            event,
        ));
        out
    }

    /// Broadcasts each of `events` in order.
    pub fn broadcast_events(&self, events: Vec<Event<T>>) -> (r: Vec<Notice<T>>)
        requires
            T::obeys_eq_spec(),
            all_tagged(events@),
        ensures
            r@ == notices_with_parents(self.listeners_view(), self.parents_view(), events@),
    {
        let mut out: Vec<Notice<T>> = Vec::new();
        let mut i: usize = 0;
        while i < events.len()
            invariant
                T::obeys_eq_spec(),
                all_tagged(events@),
                i <= events@.len(),
                out@ == notices_with_parents(
                    self.listeners_view(),
                    self.parents_view(),
                    events@.subrange(0, i as int),
                ),
            decreases events@.len() - i,
        {
            assert(events@.subrange(0, i + 1).drop_last() =~= events@.subrange(0, i as int));
            assert(events@[i as int].tag_view() is Some);
            notify_listeners(&self.listeners, events[i], &mut out);
            notify_parents(&self.parents, events[i], &mut out);
            i = i + 1;
        }
        assert(events@.subrange(0, events@.len() as int) =~= events@);
        out
    }
}

impl<T> PartialEq for SubEventHandler<T> {
    fn eq(&self, other: &SubEventHandler<T>) -> (r: bool) {
        self.id == other.id
    }
}

impl<T> vstd::std_specs::cmp::PartialEqSpecImpl for SubEventHandler<T> {
    open spec fn obeys_eq_spec() -> bool {
        true
    }

    open spec fn eq_spec(&self, other: &SubEventHandler<T>) -> bool {
        self.id_spec() == other.id_spec()
    }
}

} // verus!
