//! Laws that relate several operations, proved over the same spec functions
//! that the operations' own contracts use.
use vstd::prelude::*;
use vstd::std_specs::cmp::PartialEqSpec;
use crate::emit_obj::{with_emrc, EmRC};
use crate::emitter::{with_ehrc, DefEmitter};
use crate::error::EventError;
use crate::event::Event;
use crate::event_handler::{EHRc, EventHandler};
use crate::ids::{IdCounter, Unique};
use crate::listener::{listed, listener_registration, with_listener, LiRC};
use crate::stack::{pushed, top};

verus! {

broadcast use Event::lemma_spec_new_parts;

/// The stack after a run of `push_event` calls, one per entry of `pushes`.
pub open spec fn after_pushes<T>(stack: Seq<Event<T>>, pushes: Seq<Option<Event<T>>>) -> Seq<
    Event<T>,
>
    decreases pushes.len(),
{
    if pushes.len() == 0 {
        stack
    } else {
        pushed(after_pushes(stack, pushes.drop_last()), pushes.last())
    }
}

/// How many entries of `pushes` hold an event.
pub open spec fn count_events<T>(pushes: Seq<Option<Event<T>>>) -> nat
    decreases pushes.len(),
{
    if pushes.len() == 0 {
        0
    } else {
        count_events(pushes.drop_last()) + if pushes.last() is Some {
            1nat
        } else {
            0nat
        }
    }
}

/// Over any run of `push_event` calls the stack grows by exactly the number
/// of events pushed; pushing no event leaves it as it was.
pub proof fn lemma_push_run_length<T>(stack: Seq<Event<T>>, pushes: Seq<Option<Event<T>>>)
    ensures
        after_pushes(stack, pushes).len() == stack.len() + count_events(pushes),
        pushed(stack, None) == stack,
    decreases pushes.len(),
{
    if pushes.len() > 0 {
        lemma_push_run_length(stack, pushes.drop_last());
    }
}

/// Last in, first out: right after `event` is pushed it is the top, and
/// popping it gives back the stack from before the push.
pub proof fn lemma_push_then_pop<T>(stack: Seq<Event<T>>, event: Event<T>)
    ensures
        top(pushed(stack, Some(event))) == Some(event),
        pushed(stack, Some(event)).drop_last() == stack,
{
    assert(stack.push(event).drop_last() =~= stack);
}

/// Two handlers made one after the other from one counter are never equal,
/// although everything but their ids is the same.
pub proof fn lemma_fresh_handlers_differ<T>(
    first: EventHandler<T>,
    second: EventHandler<T>,
    before: IdCounter,
    later: IdCounter,
)
    requires
        before.can_issue(),
        first.is_fresh(before.next_id() as usize),
        later.can_issue(),
        later.next_id() > before.next_id(),
        second.is_fresh(later.next_id() as usize),
    ensures
        !first.eq_spec(&second),
        first.stack_view() == second.stack_view(),
        first.prev_view() == second.prev_view(),
        first.listeners_view() == second.listeners_view(),
        first.emitters_view() == second.emitters_view(),
{
}

/// Two emitters made one after the other from one counter are never equal,
/// whatever their handlers and default tags.
pub proof fn lemma_fresh_emitters_differ<T>(
    first: DefEmitter<T>,
    second: DefEmitter<T>,
    before: IdCounter,
    later: IdCounter,
)
    requires
        first.id_spec() == before.next_id(),
        later.next_id() > before.next_id(),
        second.id_spec() == later.next_id(),
    ensures
        !first.eq_spec(&second),
        (EmRC { id: first.id_spec() }) != (EmRC { id: second.id_spec() }),
{
}

/// Two listeners made one after the other from one counter are never equal,
/// whatever their triggers.
pub proof fn lemma_fresh_listeners_differ<T>(
    first: LiRC<T>,
    second: LiRC<T>,
    before: IdCounter,
    later: IdCounter,
)
    requires
        first.id_spec() == before.next_id(),
        later.next_id() > before.next_id(),
        second.id_spec() == later.next_id(),
    ensures
        !first.eq_spec(&second),
{
}

/// A handler is equal to itself however its contents change, and every copy
/// of its shared handle names it.
pub proof fn lemma_handler_identity<T>(handler: EventHandler<T>, changed: EventHandler<T>)
    requires
        changed.id_spec() == handler.id_spec(),
    ensures
        handler.eq_spec(&changed),
        changed.eq_spec(&handler),
        (EHRc { id: handler.id_spec() }) == (EHRc { id: changed.id_spec() }),
{
}

/// Registering a listener twice: the first registration succeeds, the second
/// fails with a duplicate-registration error and changes nothing, so the
/// listener is there once.
pub proof fn lemma_register_listener_twice<T>(listeners: Seq<LiRC<T>>, listener: LiRC<T>)
    requires
        !listed(listeners, listener.id_spec()),
    ensures
        listener_registration(listeners, listener) == Ok::<(), EventError>(()),
        listener_registration(with_listener(listeners, listener), listener) == Err::<
            (),
            EventError,
        >(EventError::DuplicateRegistration),
        with_listener(with_listener(listeners, listener), listener) == with_listener(
            listeners,
            listener,
        ),
        with_listener(with_listener(listeners, listener), listener).len() == listeners.len() + 1,
{
    let once = with_listener(listeners, listener);
    assert(once[listeners.len() as int] == listener);
    assert(listed(once, listener.id_spec()));
}

/// After `register_emitter` the handler knows the emitter and the emitter
/// knows the handler, so an event received from the emitter is pushed.
pub proof fn lemma_dual_registration<T>(
    handler_before: EventHandler<T>,
    handler_after: EventHandler<T>,
    handlers_before: Seq<EHRc>,
    handlers_after: Seq<EHRc>,
    emitter_id: usize,
    tag: Option<T>,
)
    requires
        handler_after.stack_view() == handler_before.stack_view(),
        handler_after.id_spec() == handler_before.id_spec(),
        handler_after.emitters_view() == with_emrc(
            handler_before.emitters_view(),
            (EmRC { id: emitter_id }),
        ),
        handlers_after == with_ehrc(handlers_before, (EHRc { id: handler_before.id_spec() })),
    ensures
        handler_after.knows_emitter(EmRC { id: emitter_id }),
        handlers_after.contains(EHRc { id: handler_after.id_spec() }),
        handler_after.stack_after_receive(EmRC { id: emitter_id }, tag)
            == handler_before.stack_view().push(Event::spec_new(EmRC { id: emitter_id }, tag)),
        handler_after.stack_after_receive((EmRC { id: emitter_id }), tag).last().tag_view() == tag,
        handler_after.stack_after_receive((EmRC { id: emitter_id }), tag).last().emitter_view() == (
        EmRC { id: emitter_id }),
{
    let em = EmRC { id: emitter_id };
    let h = EHRc { id: handler_before.id_spec() };
    if !handler_before.emitters_view().contains(em) {
        assert(handler_after.emitters_view()[handler_before.emitters_view().len() as int] == em);
    }
    if !handlers_before.contains(h) {
        assert(handlers_after[handlers_before.len() as int] == h);
    }
}

/// Without the registration the handler ignores the emitter: receiving from
/// it leaves the stack as it was.
pub proof fn lemma_unregistered_emitter_ignored<T>(
    handler: EventHandler<T>,
    emitter: EmRC,
    tag: Option<T>,
)
    requires
        !handler.knows_emitter(emitter),
    ensures
        handler.stack_after_receive(emitter, tag) == handler.stack_view(),
{
}

} // verus!
