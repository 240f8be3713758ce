//! Listeners: objects that declare the tags they react to.
use vstd::prelude::*;
use vstd::std_specs::cmp::PartialEqSpec;
use crate::error::EventError;
use crate::event::Event;
use crate::ids::{IdCounter, Unique};

verus! {

/// Whether `tag` equals one of `triggers`, under the tag type's equality.
pub open spec fn triggered_by<T: PartialEq>(triggers: Seq<T>, tag: T) -> bool {
    exists|i: int| 0 <= i < triggers.len() && (#[trigger] triggers[i]).eq_spec(&tag)
}

/// Value-equality membership of `tag` in `triggers`.
pub fn contains_tag<T: PartialEq>(triggers: &Vec<T>, tag: &T) -> (r: bool)
    requires
        T::obeys_eq_spec(),
    ensures
        r == triggered_by(triggers@, *tag),
{
    let mut i: usize = 0;
    while i < triggers.len()
        invariant
            T::obeys_eq_spec(),
            i <= triggers@.len(),
            forall|j: int| 0 <= j < i ==> !(#[trigger] triggers@[j]).eq_spec(tag),
        decreases triggers@.len() - i,
    {
        if triggers[i] == *tag {
            return true;
        }
        i = i + 1;
    }
    false
}

/// Whether some listener of `listeners` has the id `id`.
pub open spec fn listed<T>(listeners: Seq<LiRC<T>>, id: usize) -> bool {
    exists|i: int| 0 <= i < listeners.len() && (#[trigger] listeners[i]).id_spec() == id
}

/// No two listeners of `listeners` share an id.
pub open spec fn distinct_listeners<T>(listeners: Seq<LiRC<T>>) -> bool {
    forall|i: int, j: int|
        0 <= i < j < listeners.len() ==> (#[trigger] listeners[i]).id_spec()
            != (#[trigger] listeners[j]).id_spec()
}

/// Registering a listener keeps the listeners free of shared ids.
pub proof fn lemma_with_listener_distinct<T>(listeners: Seq<LiRC<T>>, listener: LiRC<T>)
    requires
        distinct_listeners(listeners),
    ensures
        distinct_listeners(with_listener(listeners, listener)),
{
    if !listed(listeners, listener.id_spec()) {
        let after = listeners.push(listener);
        assert forall|i: int, j: int|
            0 <= i < j < after.len() implies (#[trigger] after[i]).id_spec() != (
            #[trigger] after[j]).id_spec() by {
            if j == listeners.len() {
                assert(listeners[i] == after[i]);
            } else {
                assert(listeners[i] == after[i] && listeners[j] == after[j]);
            }
        }
    }
}

/// The position of the first listener with the id `id`.
pub fn find_listener<T>(listeners: &Vec<LiRC<T>>, id: usize) -> (r: Option<usize>)
    ensures
        match r {
            Some(k) => {
                &&& k < listeners@.len()
                &&& listeners@[k as int].id_spec() == id
                &&& forall|j: int| 0 <= j < k ==> (#[trigger] listeners@[j]).id_spec() != id
            },
            None => !listed(listeners@, id),
        },
{
    let mut i: usize = 0;
    while i < listeners.len()
        invariant
            i <= listeners@.len(),
            forall|j: int| 0 <= j < i ==> (#[trigger] listeners@[j]).id_spec() != id,
        decreases listeners@.len() - i,
    {
        if listeners[i].get_id() == id {
            return Some(i);
        }
        i = i + 1;
    }
    None
}

/// The listeners after registering `listener`: one more at the end, unless
/// a listener with its id is there already.
pub open spec fn with_listener<T>(listeners: Seq<LiRC<T>>, listener: LiRC<T>) -> Seq<LiRC<T>> {
    if listed(listeners, listener.id_spec()) {
        listeners
    } else {
        listeners.push(listener)
    }
}

/// What registering `listener` returns: a duplicate-registration error when a
/// listener with its id is there already.
pub open spec fn listener_registration<T>(listeners: Seq<LiRC<T>>, listener: LiRC<T>) -> Result<
    (),
    EventError,
> {
    if listed(listeners, listener.id_spec()) {
        Err(EventError::DuplicateRegistration)
    } else {
        Ok(())
    }
}

/// Adds `listener` unless a listener with its id is already there.
pub fn register_listener<T>(
    listeners: &mut Vec<LiRC<T>>,
    listener: LiRC<T>,
) -> (r: Result<(), EventError>)
    ensures
        final(listeners)@ == with_listener(old(listeners)@, listener),
        r == listener_registration(old(listeners)@, listener),
{
    match find_listener(listeners, listener.get_id()) {
        Some(_) => Err(EventError::DuplicateRegistration),
        None => {
            listeners.push(listener);
            Ok(())
        },
    }
}

/// A copy of a sequence of tags.
pub fn copy_tags<T: Copy>(tags: &Vec<T>) -> (r: Vec<T>)
    ensures
        r@ == tags@,
{
    let mut r: Vec<T> = Vec::new();
    let mut i: usize = 0;
    while i < tags.len()
        invariant
            i <= tags@.len(),
            r@ == tags@.subrange(0, i as int),
        decreases tags@.len() - i,
    {
        r.push(tags[i]);
        i = i + 1;
        assert(r@ =~= tags@.subrange(0, i as int));
    }
    assert(r@ =~= tags@);
    r
}

/// The capability of reacting to events: a set of trigger tags and a
/// reaction that a handler's broadcast hands the matching events to.
pub trait IListener<T: Copy + PartialEq>: Unique {
    spec fn triggers_view(&self) -> Seq<T>;

    fn get_triggers(&self) -> (r: &Vec<T>)
        ensures
            r@ == self.triggers_view(),
    ;

    fn has_trigger(&self, tag: &T) -> (r: bool)
        requires
            T::obeys_eq_spec(),
        ensures
            r == triggered_by(self.triggers_view(), *tag),
    ;

    /// The reaction to the events of a broadcast whose tags are triggers.
    fn on_triggers(&self, events: Vec<Event<T>>);

    /// A shared reference to this listener.
    fn as_lirc(&self) -> (r: LiRC<T>)
        ensures
            r.id_spec() == self.id_spec(),
            r.triggers_view() == self.triggers_view(),
    ;
}

/// A shared reference to a listener: its id and its triggers, which never
/// change once the listener exists. Equal exactly when the ids are equal.
#[derive(Debug, Clone)]
pub struct LiRC<T> {
    id: usize,
    triggers: Vec<T>,
}

impl<T> LiRC<T> {
    /// The shared reference of the listener with the id `id` and `triggers`.
    pub fn new(id: usize, triggers: Vec<T>) -> (r: LiRC<T>)
        ensures
            r.id_spec() == id,
            r.triggers_view() == triggers@,
    {
        LiRC { id, triggers }
    }

    pub closed spec fn triggers_view(&self) -> Seq<T> {
        self.triggers@
    }

    pub fn get_triggers(&self) -> (r: &Vec<T>)
        ensures
            r@ == self.triggers_view(),
    {
        &self.triggers
    }
}

impl<T: PartialEq> LiRC<T> {
    pub fn has_trigger(&self, tag: &T) -> (r: bool)
        requires
            T::obeys_eq_spec(),
        ensures
            r == triggered_by(self.triggers_view(), *tag),
    {
        contains_tag(&self.triggers, tag)
    }
}

impl<T> Unique for LiRC<T> {
    closed spec fn id_spec(&self) -> usize {
        self.id
    }

    fn get_id(&self) -> (r: usize) {
        self.id
    }
}

impl<T> PartialEq for LiRC<T> {
    fn eq(&self, other: &LiRC<T>) -> (r: bool) {
        self.id == other.id
    }
}

impl<T> vstd::std_specs::cmp::PartialEqSpecImpl for LiRC<T> {
    open spec fn obeys_eq_spec() -> bool {
        true
    }

    open spec fn eq_spec(&self, other: &LiRC<T>) -> bool {
        self.id_spec() == other.id_spec()
    }
}

/// A listener that holds its triggers and whose reaction does nothing.
#[derive(Debug, Clone)]
pub struct DefListener<T> {
    id: usize,
    triggers: Vec<T>,
}

impl<T: Copy + PartialEq> DefListener<T> {
    pub fn new(triggers: Vec<T>, ids: &mut IdCounter) -> (r: DefListener<T>)
        requires
            old(ids).can_issue(),
        ensures
            r.id_spec() == old(ids).next_id(),
            r.triggers_view() == triggers@,
            final(ids).next_id() == old(ids).next_id() + 1,
    {
        DefListener { id: ids.issue(), triggers }
    }

    /// A new listener, given by its shared reference.
    pub fn new_lirc(triggers: Vec<T>, ids: &mut IdCounter) -> (r: LiRC<T>)
        requires
            old(ids).can_issue(),
        ensures
            r.id_spec() == old(ids).next_id(),
            r.triggers_view() == triggers@,
            final(ids).next_id() == old(ids).next_id() + 1,
    {
        LiRC { id: ids.issue(), triggers }
    }

    /// Gives up this listener for its shared reference.
    pub fn into_lirc(self) -> (r: LiRC<T>)
        ensures
            r.id_spec() == self.id_spec(),
            r.triggers_view() == self.triggers_view(),
    {
        LiRC { id: self.id, triggers: self.triggers }
    }
}

impl<T> Unique for DefListener<T> {
    closed spec fn id_spec(&self) -> usize {
        self.id
    }

    fn get_id(&self) -> (r: usize) {
        self.id
    }
}

impl<T: Copy + PartialEq> IListener<T> for DefListener<T> {
    closed spec fn triggers_view(&self) -> Seq<T> {
        self.triggers@
    }

    fn get_triggers(&self) -> (r: &Vec<T>) {
        &self.triggers
    }

    fn has_trigger(&self, tag: &T) -> (r: bool) {
        contains_tag(&self.triggers, tag)
    }

    fn on_triggers(&self, events: Vec<Event<T>>) {
    }

    fn as_lirc(&self) -> (r: LiRC<T>) {
        LiRC { id: self.id, triggers: copy_tags(&self.triggers) }
    }
}

impl<T> PartialEq for DefListener<T> {
    fn eq(&self, other: &DefListener<T>) -> (r: bool) {
        self.id == other.id
    }
}

impl<T> vstd::std_specs::cmp::PartialEqSpecImpl for DefListener<T> {
    open spec fn obeys_eq_spec() -> bool {
        true
    }

    open spec fn eq_spec(&self, other: &DefListener<T>) -> bool {
        self.id_spec() == other.id_spec()
    }
}

} // verus!
