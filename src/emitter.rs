//! Emitters: objects that know a list of handlers and send events to them.
use vstd::prelude::*;
use crate::emit_obj::{with_emrc, EmRC, EmitObj};
use crate::error::EventError;
use crate::event_handler::{delivered, deliver, pool_has, EHRc, EventHandler};
use crate::ids::{IdCounter, Unique};

verus! {

/// The outcome of sending an event with `tag` from `source` to the handler
/// of `before` with the id `handler_id`: delivered there when `before` holds
/// such a handler, else an unknown-target error and no change.
pub open spec fn sent<T>(
    before: Seq<EventHandler<T>>,
    after: Seq<EventHandler<T>>,
    handler_id: usize,
    source: EmRC,
    tag: Option<T>,
    r: Result<(), EventError>,
) -> bool {
    if pool_has(before, handler_id) {
        &&& r == Ok::<(), EventError>(())
        &&& delivered(before, after, handler_id, source, tag)
    } else {
        &&& r == Err::<(), EventError>(EventError::UnknownTarget)
        &&& after == before
    }
}

/// The outcome of a bare emit by an emitter with `handlers`: the first of them
/// alone gets the event; with no handlers, a no-handlers error and no change.
pub open spec fn emitted<T>(
    handlers: Seq<EHRc>,
    before: Seq<EventHandler<T>>,
    after: Seq<EventHandler<T>>,
    source: EmRC,
    tag: Option<T>,
    r: Result<(), EventError>,
) -> bool {
    if handlers.len() == 0 {
        &&& r == Err::<(), EventError>(EventError::NoHandlers)
        &&& after == before
    } else {
        sent(before, after, handlers[0].id, source, tag, r)
    }
}

/// The outcome of an emit aimed at the handler with the id `handler_id`: an
/// unknown-target error and no change unless it is one of `handlers`.
pub open spec fn emitted_to<T>(
    handlers: Seq<EHRc>,
    handler_id: usize,
    before: Seq<EventHandler<T>>,
    after: Seq<EventHandler<T>>,
    source: EmRC,
    tag: Option<T>,
    r: Result<(), EventError>,
) -> bool {
    if handlers.contains(EHRc { id: handler_id }) {
        sent(before, after, handler_id, source, tag, r)
    } else {
        &&& r == Err::<(), EventError>(EventError::UnknownTarget)
        &&& after == before
    }
}

/// The capability of raising events: a list of handlers, kept free of
/// repeats by `add_handler`, and a default tag.
pub trait IEmitter<T: Copy + PartialEq>: EmitObj {
    spec fn handlers_view(&self) -> Seq<EHRc>;

    spec fn def_tag_view(&self) -> Option<T>;

    /// Sends an event with the default tag to the first registered handler
    /// only.
    fn emit(&self, pool: &mut Vec<EventHandler<T>>) -> (r: Result<(), EventError>)
        ensures
            emitted(
                self.handlers_view(),
                old(pool)@,
                final(pool)@,
                (EmRC { id: self.id_spec() }),
                self.def_tag_view(),
                r,
            ),
    ;

    /// Sends an event with the default tag to the registered handler with
    /// the id `handler_id`.
    fn emit_to_handler_by_id(&self, handler_id: usize, pool: &mut Vec<EventHandler<T>>) -> (r:
        Result<(), EventError>)
        ensures
            emitted_to(
                self.handlers_view(),
                handler_id,
                old(pool)@,
                final(pool)@,
                (EmRC { id: self.id_spec() }),
                self.def_tag_view(),
                r,
            ),
    ;

    /// Registers `handler`, unless it is registered already.
    fn add_handler(&mut self, handler: EHRc) -> (r: Result<(), EventError>)
        ensures
            final(self).id_spec() == old(self).id_spec(),
            final(self).def_tag_view() == old(self).def_tag_view(),
            final(self).handlers_view() == with_ehrc(old(self).handlers_view(), handler),
            r == ehrc_registration(old(self).handlers_view(), handler),
    ;

    fn get_handlers(&self) -> (r: &Vec<EHRc>)
        ensures
            r@ == self.handlers_view(),
    ;

    /// The registered handler with the id `id`.
    fn get_handler_by_id(&self, id: usize) -> (r: Result<EHRc, EventError>)
        ensures
            self.handlers_view().contains(EHRc { id }) ==> r == Ok::<EHRc, EventError>(
                (EHRc { id }),
            ),
            !self.handlers_view().contains(EHRc { id }) ==> r == Err::<EHRc, EventError>(
                EventError::UnknownTarget,
            ),
    ;

    fn has_handler(&self, handler: &EHRc) -> (r: bool)
        ensures
            r == self.handlers_view().contains(*handler),
    ;
}

/// The position of the first handle in `handles` with the id `id`.
pub fn find_ehrc(handles: &Vec<EHRc>, id: usize) -> (r: Option<usize>)
    ensures
        match r {
            Some(k) => {
                &&& k < handles@.len()
                &&& handles@[k as int].id == id
                &&& forall|j: int| 0 <= j < k ==> (#[trigger] handles@[j]).id != id
            },
            None => !handles@.contains(EHRc { id }),
        },
{
    let mut i: usize = 0;
    while i < handles.len()
        invariant
            i <= handles@.len(),
            forall|j: int| 0 <= j < i ==> (#[trigger] handles@[j]).id != id,
        decreases handles@.len() - i,
    {
        if handles[i].id == id {
            return Some(i);
        }
        i = i + 1;
    }
    None
}

/// The handles after registering `handle`: one more at the end, unless it is
/// there already.
pub open spec fn with_ehrc(handles: Seq<EHRc>, handle: EHRc) -> Seq<EHRc> {
    if handles.contains(handle) {
        handles
    } else {
        handles.push(handle)
    }
}

/// What registering `handle` returns: a duplicate-registration error when it
/// is there already.
pub open spec fn ehrc_registration(handles: Seq<EHRc>, handle: EHRc) -> Result<(), EventError> {
    if handles.contains(handle) {
        Err(EventError::DuplicateRegistration)
    } else {
        Ok(())
    }
}

/// Adds `handle` unless it is already there.
pub fn register_ehrc(handles: &mut Vec<EHRc>, handle: EHRc) -> (r: Result<(), EventError>)
    ensures
        final(handles)@ == with_ehrc(old(handles)@, handle),
        r == ehrc_registration(old(handles)@, handle),
{
    match find_ehrc(handles, handle.id) {
        Some(_) => Err(EventError::DuplicateRegistration),
        None => {
            handles.push(handle);
            Ok(())
        },
    }
}

/// A bare emit: to the first of `handlers` only.
pub fn emit_first<T: Copy + PartialEq>(
    handlers: &Vec<EHRc>,
    source: EmRC,
    tag: Option<T>,
    pool: &mut Vec<EventHandler<T>>,
) -> (r: Result<(), EventError>)
    ensures
        emitted(handlers@, old(pool)@, final(pool)@, source, tag, r),
{
    if handlers.len() == 0 {
        Err(EventError::NoHandlers)
    } else {
        deliver(pool, handlers[0].id, source, tag)
    }
}

/// An emit aimed at the one of `handlers` with the id `handler_id`.
pub fn emit_to<T: Copy + PartialEq>(
    handlers: &Vec<EHRc>,
    handler_id: usize,
    source: EmRC,
    tag: Option<T>,
    pool: &mut Vec<EventHandler<T>>,
) -> (r: Result<(), EventError>)
    ensures
        emitted_to(handlers@, handler_id, old(pool)@, final(pool)@, source, tag, r),
{
    match find_ehrc(handlers, handler_id) {
        Some(_) => deliver(pool, handler_id, source, tag),
        None => Err(EventError::UnknownTarget),
    }
}

/// The registered handler of `handlers` with the id `id`.
pub fn handler_by_id(handlers: &Vec<EHRc>, id: usize) -> (r: Result<EHRc, EventError>)
    ensures
        handlers@.contains(EHRc { id }) ==> r == Ok::<EHRc, EventError>(EHRc { id }),
        !handlers@.contains(EHRc { id }) ==> r == Err::<EHRc, EventError>(
            EventError::UnknownTarget,
        ),
{
    match find_ehrc(handlers, id) {
        Some(k) => Ok(handlers[k]),
        None => Err(EventError::UnknownTarget),
    }
}

/// Registers `emitter` with `handler` and `handler` with `emitter`, each side
/// where it is missing. Fails, changing nothing, only when both sides were
/// registered already.
pub fn register_emitter<T: Copy + PartialEq, E: IEmitter<T>>(
    handler: &mut EventHandler<T>,
    emitter: &mut E,
) -> (r: Result<(), EventError>)
    ensures
        final(emitter).id_spec() == old(emitter).id_spec(),
        final(emitter).def_tag_view() == old(emitter).def_tag_view(),
        final(handler).id_spec() == old(handler).id_spec(),
        final(handler).stack_view() == old(handler).stack_view(),
        final(handler).prev_view() == old(handler).prev_view(),
        final(handler).listeners_view() == old(handler).listeners_view(),
        old(handler).wf() ==> final(handler).wf(),
        final(handler).emitters_view() == with_emrc(
            old(handler).emitters_view(),
            (EmRC { id: old(emitter).id_spec() }),
        ),
        final(emitter).handlers_view() == with_ehrc(
            old(emitter).handlers_view(),
            (EHRc { id: old(handler).id_spec() }),
        ),
        r == if old(handler).knows_emitter(EmRC { id: old(emitter).id_spec() })
            && old(emitter).handlers_view().contains(EHRc { id: old(handler).id_spec() }) {
            Err::<(), EventError>(EventError::DuplicateRegistration)
        } else {
            Ok::<(), EventError>(())
        },
{
    let source = emitter.as_emrc();
    let target = handler.as_ehrc();
    let a = handler.add_emitter(source);
    let b = emitter.add_handler(target);
    if a.is_err() && b.is_err() {
        Err(EventError::DuplicateRegistration)
    } else {
        Ok(())
    }
}

/// An emitter with a list of handlers and a default tag.
#[derive(Debug)]
pub struct DefEmitter<T> {
    id: usize,
    handlers: Vec<EHRc>,
    def_tag: Option<T>,
}

impl<T: Copy + PartialEq> DefEmitter<T> {
    pub fn new(handlers: Vec<EHRc>, def_tag: Option<T>, ids: &mut IdCounter) -> (r: DefEmitter<T>)
        requires
            old(ids).can_issue(),
        ensures
            r.id_spec() == old(ids).next_id(),
            r.handlers_view() == handlers@,
            r.def_tag_view() == def_tag,
            final(ids).next_id() == old(ids).next_id() + 1,
    {
        DefEmitter { id: ids.issue(), handlers, def_tag }
    }

    /// Makes a new emitter in `pool` and returns its handle.
    pub fn new_emrc(
        handlers: Vec<EHRc>,
        def_tag: Option<T>,
        pool: &mut Vec<DefEmitter<T>>,
        ids: &mut IdCounter,
    ) -> (r: EmRC)
        requires
            old(ids).can_issue(),
        ensures
            r.id == old(ids).next_id(),
            final(pool)@.len() == old(pool)@.len() + 1,
            final(pool)@.drop_last() == old(pool)@,
            final(pool)@.last().id_spec() == r.id,
            final(pool)@.last().handlers_view() == handlers@,
            final(pool)@.last().def_tag_view() == def_tag,
            final(ids).next_id() == old(ids).next_id() + 1,
    {
        let em = DefEmitter::new(handlers, def_tag, ids);
        let r = em.as_emrc();
        pool.push(em);
        assert(pool@.drop_last() =~= old(pool)@);
        r
    }

    /// Moves this emitter into `pool` and returns its handle.
    pub fn into_emrc(self, pool: &mut Vec<DefEmitter<T>>) -> (r: EmRC)
        ensures
            r.id == self.id_spec(),
            final(pool)@ == old(pool)@.push(self),
    {
        let r = self.as_emrc();
        pool.push(self);
        r
    }
}

impl<T> Unique for DefEmitter<T> {
    closed spec fn id_spec(&self) -> usize {
        self.id
    }

    fn get_id(&self) -> (r: usize) {
        self.id
    }
}

impl<T> EmitObj for DefEmitter<T> {
    fn as_emrc(&self) -> (r: EmRC) {
        EmRC { id: self.id }
    }
}

impl<T: Copy + PartialEq> IEmitter<T> for DefEmitter<T> {
    closed spec fn handlers_view(&self) -> Seq<EHRc> {
        self.handlers@
    }

    closed spec fn def_tag_view(&self) -> Option<T> {
        self.def_tag
    }

    fn emit(&self, pool: &mut Vec<EventHandler<T>>) -> (r: Result<(), EventError>) {
        emit_first(&self.handlers, self.as_emrc(), self.def_tag, pool)
    }

    fn emit_to_handler_by_id(&self, handler_id: usize, pool: &mut Vec<EventHandler<T>>) -> (r:
        Result<(), EventError>) {
        emit_to(&self.handlers, handler_id, self.as_emrc(), self.def_tag, pool)
    }

    fn add_handler(&mut self, handler: EHRc) -> (r: Result<(), EventError>) {
        register_ehrc(&mut self.handlers, handler)
    }

    fn get_handlers(&self) -> (r: &Vec<EHRc>) {
        &self.handlers
    }

    fn get_handler_by_id(&self, id: usize) -> (r: Result<EHRc, EventError>) {
        handler_by_id(&self.handlers, id)
    }

    fn has_handler(&self, handler: &EHRc) -> (r: bool) {
        find_ehrc(&self.handlers, handler.id).is_some()
    }
}

impl<T> PartialEq for DefEmitter<T> {
    fn eq(&self, other: &DefEmitter<T>) -> (r: bool) {
        self.id == other.id
    }
}

impl<T> vstd::std_specs::cmp::PartialEqSpecImpl for DefEmitter<T> {
    open spec fn obeys_eq_spec() -> bool {
        true
    }

    open spec fn eq_spec(&self, other: &DefEmitter<T>) -> bool {
        self.id_spec() == other.id_spec()
    }
}

} // verus!
