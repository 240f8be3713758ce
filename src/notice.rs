//! What a broadcast hands out: one notice per call that the broadcast makes,
//! in the order the calls are made.
use vstd::prelude::*;
use vstd::std_specs::cmp::PartialEqSpec;
use crate::eh_parent::EHParent;
use crate::event::Event;
use crate::ids::Unique;
use crate::listener::{triggered_by, IListener, LiRC};

verus! {

#[derive(Debug, Clone, Copy, PartialEq)]
pub enum Notice<T> {
    /// The listener with this id reacts to this one event.
    Listener { listener: usize, event: Event<T> },
    /// The parent with this id is notified of this event.
    Parent { parent: usize, event: Event<T> },
}

/// Whether `event` carries a tag that is one of `listener`'s triggers.
pub open spec fn matches<T: PartialEq>(listener: LiRC<T>, event: Event<T>) -> bool {
    &&& event.tag_view() is Some
    &&& triggered_by(listener.triggers_view(), event.tag_view()->Some_0)
}

/// The notices of broadcasting `event` to `listeners`: one for each listener
/// that `event` matches, in registration order.
pub open spec fn listener_notices<T: PartialEq>(listeners: Seq<LiRC<T>>, event: Event<T>) -> Seq<
    Notice<T>,
>
    decreases listeners.len(),
{
    if listeners.len() == 0 {
        Seq::empty()
    } else {
        let rest = listener_notices(listeners.drop_last(), event);
        if matches(listeners.last(), event) {
            rest.push(Notice::Listener { listener: listeners.last().id_spec(), event })
        } else {
            rest
        }
    }
}

/// The notices of forwarding `event` to each of `parents`, in order.
pub open spec fn parent_notices<T>(parents: Seq<usize>, event: Event<T>) -> Seq<Notice<T>> {
    parents.map_values(|p: usize| Notice::Parent { parent: p, event })
}

/// The notices of broadcasting `events` one after another.
pub open spec fn notices_for_events<T: PartialEq>(
    listeners: Seq<LiRC<T>>,
    events: Seq<Event<T>>,
) -> Seq<Notice<T>>
    decreases events.len(),
{
    if events.len() == 0 {
        Seq::empty()
    } else {
        notices_for_events(listeners, events.drop_last()) + listener_notices(
            listeners,
            events.last(),
        )
    }
}

/// The notices of broadcasting `events` one after another, each to the
/// listeners and then to the parents.
pub open spec fn notices_with_parents<T: PartialEq>(
    listeners: Seq<LiRC<T>>,
    parents: Seq<usize>,
    events: Seq<Event<T>>,
) -> Seq<Notice<T>>
    decreases events.len(),
{
    if events.len() == 0 {
        Seq::empty()
    } else {
        notices_with_parents(listeners, parents, events.drop_last()) + listener_notices(
            listeners,
            events.last(),
        ) + parent_notices(parents, events.last())
    }
}

/// Whether every event of `events` carries a tag.
pub open spec fn all_tagged<T>(events: Seq<Event<T>>) -> bool {
    forall|i: int| 0 <= i < events.len() ==> (#[trigger] events[i]).tag_view() is Some
}

/// Appends the notices of broadcasting `event` to `listeners`.
pub fn notify_listeners<T: Copy + PartialEq>(
    listeners: &Vec<LiRC<T>>,
    event: Event<T>,
    out: &mut Vec<Notice<T>>,
)
    requires
        T::obeys_eq_spec(),
        event.tag_view() is Some,
    ensures
        final(out)@ == old(out)@ + listener_notices(listeners@, event),
{
    let tag = event.get_tag().unwrap();
    let mut i: usize = 0;
    while i < listeners.len()
        invariant
            T::obeys_eq_spec(),
            event.tag_view() == Some(tag),
            i <= listeners@.len(),
            out@ == old(out)@ + listener_notices(listeners@.subrange(0, i as int), event),
        decreases listeners@.len() - i,
    {
        let l = &listeners[i];
        let prefix = Ghost(listeners@.subrange(0, i as int));
        assert(listeners@.subrange(0, i + 1).drop_last() =~= prefix@);
        if l.has_trigger(&tag) {
            out.push(Notice::Listener { listener: l.get_id(), event });
            assert(out@ =~= old(out)@ + listener_notices(listeners@.subrange(0, i + 1), event));
        } else {
            assert(out@ =~= old(out)@ + listener_notices(listeners@.subrange(0, i + 1), event));
        }
        i = i + 1;
    }
    assert(listeners@.subrange(0, listeners@.len() as int) =~= listeners@);
}

/// Appends the notices of forwarding `event` to each of `parents`.
pub fn notify_parents<T: Copy>(parents: &Vec<usize>, event: Event<T>, out: &mut Vec<Notice<T>>)
    ensures
        final(out)@ == old(out)@ + parent_notices(parents@, event),
{
    let mut i: usize = 0;
    while i < parents.len()
        invariant
            i <= parents@.len(),
            out@ == old(out)@ + parent_notices(parents@.subrange(0, i as int), event),
        decreases parents@.len() - i,
    {
        out.push(Notice::Parent { parent: parents[i], event });
        i = i + 1;
        assert(out@ =~= old(out)@ + parent_notices(parents@.subrange(0, i as int), event));
    }
    assert(parents@.subrange(0, parents@.len() as int) =~= parents@);
}

/// The events of the notices addressed to the listener with the id `id`, in order.
pub open spec fn events_for_listener<T>(notices: Seq<Notice<T>>, id: usize) -> Seq<Event<T>>
    decreases notices.len(),
{
    if notices.len() == 0 {
        Seq::empty()
    } else {
        let rest = events_for_listener(notices.drop_last(), id);
        match notices.last() {
            Notice::Listener { listener, event } => if listener == id {
                rest.push(event)
            } else {
                rest
            },
            Notice::Parent { .. } => rest,
        }
    }
}

/// The events of the notices addressed to the parent with the id `id`, in order.
pub open spec fn events_for_parent<T>(notices: Seq<Notice<T>>, id: usize) -> Seq<Event<T>>
    decreases notices.len(),
{
    if notices.len() == 0 {
        Seq::empty()
    } else {
        let rest = events_for_parent(notices.drop_last(), id);
        match notices.last() {
            Notice::Parent { parent, event } => if parent == id {
                rest.push(event)
            } else {
                rest
            },
            Notice::Listener { .. } => rest,
        }
    }
}

/// Carries out the notices addressed to `listener`: one call of its reaction
/// per notice, each with that one event. Returns the events handed over.
pub fn deliver_to_listener<T: Copy + PartialEq, L: IListener<T>>(
    listener: &L,
    notices: &Vec<Notice<T>>,
) -> (r: Vec<Event<T>>)
    ensures
        r@ == events_for_listener(notices@, listener.id_spec()),
{
    let id = listener.get_id();
    let mut r: Vec<Event<T>> = Vec::new();
    let mut i: usize = 0;
    while i < notices.len()
        invariant
            id == listener.id_spec(),
            i <= notices@.len(),
            r@ == events_for_listener(notices@.subrange(0, i as int), id),
        decreases notices@.len() - i,
    {
        assert(notices@.subrange(0, i + 1).drop_last() =~= notices@.subrange(0, i as int));
        match notices[i] {
            Notice::Listener { listener: target, event } => {
                if target == id {
                    listener.on_triggers(vec![event]);
                    r.push(event);
                }
            },
            Notice::Parent { .. } => {},
        }
        i = i + 1;
    }
    assert(notices@.subrange(0, notices@.len() as int) =~= notices@);
    r
}

/// Carries out the notices addressed to `parent`: one notification per
/// notice, in order. Returns the events forwarded.
pub fn deliver_to_parent<T: Copy, P: EHParent<T> + Unique>(
    parent: &mut P,
    notices: &Vec<Notice<T>>,
) -> (r: Vec<Event<T>>)
    ensures
        r@ == events_for_parent(notices@, old(parent).id_spec()),
{
    let id = parent.get_id();
    let mut r: Vec<Event<T>> = Vec::new();
    let mut i: usize = 0;
    while i < notices.len()
        invariant
            id == old(parent).id_spec(),
            i <= notices@.len(),
            r@ == events_for_parent(notices@.subrange(0, i as int), id),
        decreases notices@.len() - i,
    {
        assert(notices@.subrange(0, i + 1).drop_last() =~= notices@.subrange(0, i as int));
        match notices[i] {
            Notice::Parent { parent: target, event } => {
                if target == id {
                    parent.notify_parent(event);
                    r.push(event);
                }
            },
            Notice::Listener { .. } => {},
        }
        i = i + 1;
    }
    assert(notices@.subrange(0, notices@.len() as int) =~= notices@);
    r
}

} // verus!
