//! The mediator: a handler keeps a stack of pending events, the listeners it
//! broadcasts to and the emitters it accepts events from.
use vstd::prelude::*;
use vstd::std_specs::cmp::PartialEqSpec;
use crate::emit_obj::{
    emrc_registration, find_emrc, lemma_with_emrc_distinct, register_emrc, with_emrc, EmRC,
};
use crate::error::EventError;
use crate::event::Event;
use crate::ids::{IdCounter, Unique};
use crate::listener::{
    distinct_listeners, find_listener, lemma_with_listener_distinct, listed, listener_registration,
    register_listener, with_listener, LiRC,
};
use crate::notice::{
    all_tagged, listener_notices, notices_for_events, notify_listeners, Notice,
};
use crate::stack::{
    emitters_of, holds_emitter, push_all, pushed, pushed_all, stack_holds_emitter, tags_of,
    top, top_of,
};

verus! {

/// A shared reference to an event handler: it names the handler by id. Two
/// handles are equal exactly when they name the same handler.
#[derive(Debug, Clone, Copy, PartialEq, Eq, Structural)]
pub struct EHRc {
    pub id: usize,
}

/// Keeps a stack of pending events, the listeners to broadcast them to and
/// the emitters whose events it accepts. Equal to another handler exactly
/// when the ids are equal.
#[derive(Debug)]
pub struct EventHandler<T> {
    id: usize,
    stack: Vec<Event<T>>,
    prev_event: Option<Event<T>>,
    listeners: Vec<LiRC<T>>,
    emitters: Vec<EmRC>,
}

impl<T> Unique for EventHandler<T> {
    closed spec fn id_spec(&self) -> usize {
        self.id
    }

    fn get_id(&self) -> (r: usize) {
        self.id
    }
}

impl<T> EventHandler<T> {
    /// The pending events, bottom first; the top is the last one.
    pub closed spec fn stack_view(&self) -> Seq<Event<T>> {
        self.stack@
    }

    /// The event popped most recently, if any was.
    pub closed spec fn prev_view(&self) -> Option<Event<T>> {
        self.prev_event
    }

    /// The registered listeners, in registration order.
    pub closed spec fn listeners_view(&self) -> Seq<LiRC<T>> {
        self.listeners@
    }

    /// The emitters whose events this handler accepts, in registration order.
    pub closed spec fn emitters_view(&self) -> Seq<EmRC> {
        self.emitters@
    }

    /// Well-formed: no listener is registered twice, by id, and no emitter.
    pub open spec fn wf(&self) -> bool {
        &&& distinct_listeners(self.listeners_view())
        &&& self.emitters_view().no_duplicates()
    }

    /// A handler just made with the id `id`: nothing pending, popped or registered.
    pub open spec fn is_fresh(&self, id: usize) -> bool {
        &&& self.id_spec() == id
        &&& self.stack_view() == Seq::<Event<T>>::empty()
        &&& self.prev_view() is None
        &&& self.listeners_view() == Seq::<LiRC<T>>::empty()
        &&& self.emitters_view() == Seq::<EmRC>::empty()
    }

    /// The same id, listeners and emitters as `other`.
    pub open spec fn same_registrations(&self, other: &EventHandler<T>) -> bool {
        &&& self.id_spec() == other.id_spec()
        &&& self.listeners_view() == other.listeners_view()
        &&& self.emitters_view() == other.emitters_view()
    }

    /// Everything but the stack is as in `other`.
    pub open spec fn only_stack_differs(&self, other: &EventHandler<T>) -> bool {
        &&& self.same_registrations(other)
        &&& self.prev_view() == other.prev_view()
    }

    /// Whether the handler accepts events from `emitter`.
    pub open spec fn knows_emitter(&self, emitter: EmRC) -> bool {
        self.emitters_view().contains(emitter)
    }

    /// The stack after `receive(emitter, tag)`: a new event on top when the
    /// emitter is registered here, else the same stack.
    pub open spec fn stack_after_receive(&self, emitter: EmRC, tag: Option<T>) -> Seq<Event<T>> {
        if self.knows_emitter(emitter) {
            self.stack_view().push(Event::spec_new(emitter, tag))
        } else {
            self.stack_view()
        }
    }
}

impl<T: Copy + PartialEq> EventHandler<T> {
    pub fn new(ids: &mut IdCounter) -> (r: EventHandler<T>)
        requires
            old(ids).can_issue(),
        ensures
            r.is_fresh(old(ids).next_id() as usize),
            r.wf(),
            final(ids).next_id() == old(ids).next_id() + 1,
    {
        EventHandler {
            id: ids.issue(),
            stack: Vec::new(),
            prev_event: None,
            listeners: Vec::new(),
            emitters: Vec::new(),
        }
    }

    /// Makes a new handler in `pool` and returns its handle.
    pub fn new_ehrc(pool: &mut Vec<EventHandler<T>>, ids: &mut IdCounter) -> (r: EHRc)
        requires
            old(ids).can_issue(),
        ensures
            r.id == old(ids).next_id(),
            final(pool)@.len() == old(pool)@.len() + 1,
            final(pool)@.drop_last() == old(pool)@,
            final(pool)@.last().is_fresh(r.id),
            final(pool)@.last().wf(),
            final(ids).next_id() == old(ids).next_id() + 1,
    {
        let h = EventHandler::new(ids);
        let r = h.as_ehrc();
        pool.push(h);
        assert(pool@.drop_last() =~= old(pool)@);
        r
    }

    /// The handle of this handler.
    pub fn as_ehrc(&self) -> (r: EHRc)
        ensures
            r.id == self.id_spec(),
    {
        EHRc { id: self.id }
    }

    /// Moves this handler into `pool` and returns its handle.
    pub fn into_ehrc(self, pool: &mut Vec<EventHandler<T>>) -> (r: EHRc)
        ensures
            r.id == self.id_spec(),
            final(pool)@ == old(pool)@.push(self),
    {
        let r = self.as_ehrc();
        pool.push(self);
        r
    }

    pub fn get_id(&self) -> (r: usize)
        ensures
            r == self.id_spec(),
    {
        self.id
    }

    /// Puts `event` on top of the stack; no event, no change.
    pub fn push_event(&mut self, event: Option<Event<T>>)
        ensures
            final(self).only_stack_differs(old(self)),
            final(self).stack_view() == pushed(old(self).stack_view(), event),
    {
        if let Some(e) = event {
            self.stack.push(e);
        }
    }

    /// Puts each of `events` on the stack in order; no events, no change.
    pub fn push_events(&mut self, events: Option<Vec<Event<T>>>)
        ensures
            final(self).only_stack_differs(old(self)),
            final(self).stack_view() == pushed_all(
                old(self).stack_view(),
                match events {
                    Some(v) => Some(v@),
                    None => None,
                },
            ),
    {
        if let Some(v) = events {
            push_all(&mut self.stack, &v);
        }
    }

    pub fn get_stack(&self) -> (r: &Vec<Event<T>>)
        ensures
            r@ == self.stack_view(),
    {
        &self.stack
    }

    pub fn get_stack_len(&self) -> (r: usize)
        ensures
            r == self.stack_view().len(),
    {
        self.stack.len()
    }

    /// The tag of each pending event, bottom first.
    pub fn get_stack_tags(&self) -> (r: Vec<Option<T>>)
        ensures
            r@ == self.stack_view().map_values(|e: Event<T>| e.tag_view()),
    {
        tags_of(&self.stack)
    }

    /// The emitter of each pending event, bottom first.
    pub fn get_stack_emitters(&self) -> (r: Vec<EmRC>)
        ensures
            r@ == self.stack_view().map_values(|e: Event<T>| e.emitter_view()),
    {
        emitters_of(&self.stack)
    }

    /// Whether some pending event was raised by `emitter`.
    pub fn stack_has_emitter(&self, emitter: &EmRC) -> (r: bool)
        ensures
            r == holds_emitter(self.stack_view(), *emitter),
    {
        stack_holds_emitter(&self.stack, emitter)
    }

    /// Registers `listener`, unless a listener with its id is registered already.
    pub fn add_listener(&mut self, listener: LiRC<T>) -> (r: Result<(), EventError>)
        ensures
            final(self).id_spec() == old(self).id_spec(),
            final(self).stack_view() == old(self).stack_view(),
            final(self).prev_view() == old(self).prev_view(),
            final(self).emitters_view() == old(self).emitters_view(),
            final(self).listeners_view() == with_listener(old(self).listeners_view(), listener),
            r == listener_registration(old(self).listeners_view(), listener),
            old(self).wf() ==> final(self).wf(),
    {
        proof {
            if self.wf() {
                lemma_with_listener_distinct(self.listeners@, listener);
            }
        }
        register_listener(&mut self.listeners, listener)
    }

    pub fn get_listeners(&self) -> (r: &Vec<LiRC<T>>)
        ensures
            r@ == self.listeners_view(),
    {
        &self.listeners
    }

    /// The registered listener with the id `listener_id`.
    pub fn get_listener_by_id(&self, listener_id: usize) -> (r: Result<&LiRC<T>, EventError>)
        ensures
            match r {
                Ok(l) => {
                    &&& l.id_spec() == listener_id
                    &&& exists|k: int|
                        {
                            &&& 0 <= k < self.listeners_view().len()
                            &&& #[trigger] self.listeners_view()[k] == *l
                            &&& forall|j: int|
                                0 <= j < k ==> (#[trigger] self.listeners_view()[j]).id_spec()
                                    != listener_id
                        }
                },
                Err(e) => e == EventError::UnknownTarget && !listed(
                    self.listeners_view(),
                    listener_id,
                ),
            },
    {
        match find_listener(&self.listeners, listener_id) {
            Some(k) => {
                assert(self.listeners_view()[k as int] == self.listeners@[k as int]);
                Ok(&self.listeners[k])
            },
            None => Err(EventError::UnknownTarget),
        }
    }

    /// Whether a listener with the id of `listener` is registered.
    pub fn has_listener(&self, listener: &LiRC<T>) -> (r: bool)
        ensures
            r == listed(self.listeners_view(), listener.id_spec()),
    {
        find_listener(&self.listeners, listener.get_id()).is_some()
    }

    /// Registers `emitter` as a source whose events this handler accepts.
    pub fn add_emitter(&mut self, emitter: EmRC) -> (r: Result<(), EventError>)
        ensures
            final(self).id_spec() == old(self).id_spec(),
            final(self).stack_view() == old(self).stack_view(),
            final(self).prev_view() == old(self).prev_view(),
            final(self).listeners_view() == old(self).listeners_view(),
            final(self).emitters_view() == with_emrc(old(self).emitters_view(), emitter),
            r == emrc_registration(old(self).emitters_view(), emitter),
            old(self).wf() ==> final(self).wf(),
    {
        proof {
            if self.wf() {
                lemma_with_emrc_distinct(self.emitters@, emitter);
            }
        }
        register_emrc(&mut self.emitters, emitter)
    }

    pub fn get_emitters(&self) -> (r: &Vec<EmRC>)
        ensures
            r@ == self.emitters_view(),
    {
        &self.emitters
    }

    pub fn has_emitter(&self, emitter: &EmRC) -> (r: bool)
        ensures
            r == self.knows_emitter(*emitter),
    {
        find_emrc(&self.emitters, emitter.id).is_some()
    }

    /// The registered emitter with the id `emitter_id`.
    pub fn get_emitter_by_id(&self, emitter_id: usize) -> (r: Result<EmRC, EventError>)
        ensures
            match r {
                Ok(em) => em.id == emitter_id && self.knows_emitter(em),
                Err(e) => e == EventError::UnknownTarget && !self.knows_emitter(
                    (EmRC { id: emitter_id }),
                ),
            },
    {
        match find_emrc(&self.emitters, emitter_id) {
            Some(k) => Ok(self.emitters[k]),
            None => Err(EventError::UnknownTarget),
        }
    }

    /// The top event, left in place.
    pub fn peek_next(&self) -> (r: Option<&Event<T>>)
        ensures
            match r {
                Some(e) => top(self.stack_view()) == Some(*e),
                None => top(self.stack_view()) is None,
            },
    {
        top_of(&self.stack)
    }

    /// The tag of the top event; none when the stack is empty or the top
    /// event is untagged.
    pub fn peek_next_tag(&self) -> (r: Option<T>)
        ensures
            r == match top(self.stack_view()) {
                Some(e) => e.tag_view(),
                None => None,
            },
    {
        match self.peek_next() {
            Some(e) => e.get_tag(),
            None => None,
        }
    }

    /// The emitter of the top event.
    pub fn peek_next_emitter(&self) -> (r: Option<EmRC>)
        ensures
            r == match top(self.stack_view()) {
                Some(e) => Some(e.emitter_view()),
                None => None,
            },
    {
        match self.peek_next() {
            Some(e) => Some(e.get_emitter()),
            None => None,
        }
    }

    /// Takes the top event off the stack and keeps it as the previous event.
    /// On an empty stack nothing changes.
    pub fn pop_next(&mut self) -> (r: Option<Event<T>>)
        ensures
            final(self).same_registrations(old(self)),
            r == top(old(self).stack_view()),
            old(self).stack_view().len() == 0 ==> {
                &&& final(self).stack_view() == old(self).stack_view()
                &&& final(self).prev_view() == old(self).prev_view()
            },
            old(self).stack_view().len() > 0 ==> {
                &&& final(self).stack_view() == old(self).stack_view().drop_last()
                &&& final(self).prev_view() == r
            },
    {
        match self.stack.pop() {
            Some(e) => {
                self.prev_event = Some(e);
                Some(e)
            },
            None => None,
        }
    }

    pub fn get_prev_event(&self) -> (r: Option<&Event<T>>)
        ensures
            match r {
                Some(e) => self.prev_view() == Some(*e),
                None => self.prev_view() is None,
            },
    {
        self.prev_event.as_ref()
    }

    /// Takes an event from `emitter`: pushed when the emitter is registered
    /// here, silently dropped otherwise.
    pub fn receive(&mut self, emitter: EmRC, tag: Option<T>)
        ensures
            final(self).only_stack_differs(old(self)),
            final(self).stack_view() == old(self).stack_after_receive(emitter, tag),
    {
        match find_emrc(&self.emitters, emitter.id) {
            Some(k) => {
                let known = self.emitters[k];
                self.stack.push(Event::new(known, tag));
            },
            None => {},
        }
    }

    /// Pushes an event with `tag` from `emitter`, registered or not.
    pub fn emit(&mut self, emitter: EmRC, tag: T)
        ensures
            final(self).only_stack_differs(old(self)),
            final(self).stack_view() == old(self).stack_view().push(
                Event::spec_new(emitter, Some(tag)),
            ),
    {
        self.push_event(Some(Event::new(emitter, Some(tag))));
    }

    /// Pops the top event and broadcasts it; on an empty stack nothing happens.
    pub fn consume_next_event(&mut self) -> (r: Vec<Notice<T>>)
        requires
            T::obeys_eq_spec(),
            match top(old(self).stack_view()) {
                Some(e) => e.tag_view() is Some,
                None => true,
            },
        ensures
            final(self).same_registrations(old(self)),
            old(self).stack_view().len() == 0 ==> {
                &&& final(self).stack_view() == old(self).stack_view()
                &&& final(self).prev_view() == old(self).prev_view()
                &&& r@ == Seq::<Notice<T>>::empty()
            },
            old(self).stack_view().len() > 0 ==> {
                &&& final(self).stack_view() == old(self).stack_view().drop_last()
                &&& final(self).prev_view() == Some(old(self).stack_view().last())
                &&& r@ == listener_notices(
                    old(self).listeners_view(),
                    old(self).stack_view().last(),
                )
            },
    {
        match self.pop_next() {
            Some(e) => self.broadcast_event(e),
            None => Vec::new(),
        }
    }

    /// The calls that broadcasting `event` makes: one for each registered
    /// listener whose triggers hold the event's tag, in registration order.
    pub fn broadcast_event(&self, event: Event<T>) -> (r: Vec<Notice<T>>)
        requires
            T::obeys_eq_spec(),
            event.tag_view() is Some,
        ensures
            r@ == listener_notices(self.listeners_view(), event),
    {
        let mut out: Vec<Notice<T>> = Vec::new();
        notify_listeners(&self.listeners, event, &mut out);
        assert(out@ =~= listener_notices(self.listeners_view(), event));
        out
    }

    /// Broadcasts each of `events` in order.
    pub fn broadcast_events(&self, events: Vec<Event<T>>) -> (r: Vec<Notice<T>>)
        requires
            T::obeys_eq_spec(),
            all_tagged(events@),
        ensures
            r@ == notices_for_events(self.listeners_view(), events@),
    {
        let mut out: Vec<Notice<T>> = Vec::new();
        let mut i: usize = 0;
        while i < events.len()
            invariant
                T::obeys_eq_spec(),
                all_tagged(events@),
                i <= events@.len(),
                out@ == notices_for_events(self.listeners_view(), events@.subrange(0, i as int)),
            decreases events@.len() - i,
        {
            assert(events@.subrange(0, i + 1).drop_last() =~= events@.subrange(0, i as int));
            assert(events@[i as int].tag_view() is Some);
            notify_listeners(&self.listeners, events[i], &mut out);
            i = i + 1;
        }
        assert(events@.subrange(0, events@.len() as int) =~= events@);
        out
    }
}

/// Whether `k` is the position of the first handler of `pool` with the id `id`.
pub open spec fn first_with_id<T>(pool: Seq<EventHandler<T>>, id: usize, k: int) -> bool {
    &&& 0 <= k < pool.len()
    &&& pool[k].id_spec() == id
    &&& forall|j: int| 0 <= j < k ==> (#[trigger] pool[j]).id_spec() != id
}

/// Whether some handler of `pool` has the id `id`.
pub open spec fn pool_has<T>(pool: Seq<EventHandler<T>>, id: usize) -> bool {
    exists|k: int| 0 <= k < pool.len() && (#[trigger] pool[k]).id_spec() == id
}

/// `after` is `before` once the handler at `k` has received an event with
/// `tag` from `emitter`; every other handler is untouched.
pub open spec fn received_at<T>(
    before: Seq<EventHandler<T>>,
    after: Seq<EventHandler<T>>,
    k: int,
    emitter: EmRC,
    tag: Option<T>,
) -> bool {
    &&& after.len() == before.len()
    &&& forall|j: int| 0 <= j < before.len() && j != k ==> after[j] == before[j]
    &&& after[k].only_stack_differs(&before[k])
    &&& after[k].stack_view() == before[k].stack_after_receive(emitter, tag)
}

/// `after` is `before` once the first handler with the id `handler_id` has
/// received an event with `tag` from `emitter`.
pub open spec fn delivered<T>(
    before: Seq<EventHandler<T>>,
    after: Seq<EventHandler<T>>,
    handler_id: usize,
    emitter: EmRC,
    tag: Option<T>,
) -> bool {
    exists|k: int|
        first_with_id(before, handler_id, k) && received_at(before, after, k, emitter, tag)
}

/// The position in `pool` of the first handler with the id `id`.
pub fn find_handler<T>(pool: &Vec<EventHandler<T>>, id: usize) -> (r: Option<usize>)
    ensures
        match r {
            Some(k) => first_with_id(pool@, id, k as int),
            None => !pool_has(pool@, id),
        },
{
    let mut i: usize = 0;
    while i < pool.len()
        invariant
            i <= pool@.len(),
            forall|j: int| 0 <= j < i ==> (#[trigger] pool@[j]).id_spec() != id,
        decreases pool@.len() - i,
    {
        if pool[i].id == id {
            return Some(i);
        }
        i = i + 1;
    }
    None
}

/// Hands an event with `tag` from `emitter` to the handler of `pool` with the
/// id `handler_id`, which takes it as `receive` does.
pub fn deliver<T: Copy + PartialEq>(
    pool: &mut Vec<EventHandler<T>>,
    handler_id: usize,
    emitter: EmRC,
    tag: Option<T>,
) -> (r: Result<(), EventError>)
    ensures
        pool_has(old(pool)@, handler_id) ==> {
            &&& r == Ok::<(), EventError>(())
            &&& delivered(old(pool)@, final(pool)@, handler_id, emitter, tag)
        },
        !pool_has(old(pool)@, handler_id) ==> {
            &&& r == Err::<(), EventError>(EventError::UnknownTarget)
            &&& final(pool)@ == old(pool)@
        },
{
    match find_handler(pool, handler_id) {
        Some(k) => {
            pool[k].receive(emitter, tag);
            assert(received_at(old(pool)@, pool@, k as int, emitter, tag));
            Ok(())
        },
        None => Err(EventError::UnknownTarget),
    }
}

impl<T> PartialEq for EventHandler<T> {
    fn eq(&self, other: &EventHandler<T>) -> (r: bool) {
        self.id == other.id
    }
}

impl<T> vstd::std_specs::cmp::PartialEqSpecImpl for EventHandler<T> {
    open spec fn obeys_eq_spec() -> bool {
        true
    }

    open spec fn eq_spec(&self, other: &EventHandler<T>) -> bool {
        self.id_spec() == other.id_spec()
    }
}

} // verus!
