//! Emitter-listeners: objects that raise events and react to them.
use vstd::prelude::*;
use crate::emit_obj::{EmRC, EmitObj};
use crate::emitter::{emit_first, emit_to, find_ehrc, handler_by_id, register_ehrc, IEmitter};
use crate::error::EventError;
use crate::event::Event;
use crate::event_handler::{EHRc, EventHandler};
use crate::ids::{IdCounter, Unique};
use crate::listener::{contains_tag, copy_tags, IListener, LiRC};

verus! {

/// An emitter that is also a listener: it has handlers, a default tag and triggers, under one id.
#[derive(Debug)]
pub struct DefEmLi<T> {
    id: usize,
    handlers: Vec<EHRc>,
    triggers: Vec<T>,
    def_tag: Option<T>,
}

impl<T: Copy + PartialEq> DefEmLi<T> {
    /// No triggers given means none at all.
    pub fn new(
        handlers: Vec<EHRc>,
        triggers: Option<Vec<T>>,
        def_tag: Option<T>,
        ids: &mut IdCounter,
    ) -> (r: DefEmLi<T>)
        requires
            old(ids).can_issue(),
        ensures
            r.id_spec() == old(ids).next_id(),
            r.handlers_view() == handlers@,
            r.triggers_view() == match triggers {
                Some(v) => v@,
                None => Seq::<T>::empty(),
            },
            r.def_tag_view() == def_tag,
            final(ids).next_id() == old(ids).next_id() + 1,
    {
        let triggers = match triggers {
            Some(v) => v,
            None => Vec::new(),
        };
        DefEmLi { id: ids.issue(), handlers, triggers, def_tag }
    }
}

impl<T> Unique for DefEmLi<T> {
    closed spec fn id_spec(&self) -> usize {
        self.id
    }

    fn get_id(&self) -> (r: usize) {
        self.id
    }
}

impl<T> EmitObj for DefEmLi<T> {
    fn as_emrc(&self) -> (r: EmRC) {
        EmRC { id: self.id }
    }
}

impl<T: Copy + PartialEq> IEmitter<T> for DefEmLi<T> {
    closed spec fn handlers_view(&self) -> Seq<EHRc> {
        self.handlers@
    }

    closed spec fn def_tag_view(&self) -> Option<T> {
        self.def_tag
    }

    fn emit(&self, pool: &mut Vec<EventHandler<T>>) -> (r: Result<(), EventError>) {
        emit_first(&self.handlers, self.as_emrc(), self.def_tag, pool)
    }

    fn emit_to_handler_by_id(&self, handler_id: usize, pool: &mut Vec<EventHandler<T>>) -> (r:
        Result<(), EventError>) {
        emit_to(&self.handlers, handler_id, self.as_emrc(), self.def_tag, pool)
    }

    fn add_handler(&mut self, handler: EHRc) -> (r: Result<(), EventError>) {
        register_ehrc(&mut self.handlers, handler)
    }

    fn get_handlers(&self) -> (r: &Vec<EHRc>) {
        &self.handlers
    }

    fn get_handler_by_id(&self, id: usize) -> (r: Result<EHRc, EventError>) {
        handler_by_id(&self.handlers, id)
    }

    fn has_handler(&self, handler: &EHRc) -> (r: bool) {
        find_ehrc(&self.handlers, handler.id).is_some()
    }
}

impl<T: Copy + PartialEq> IListener<T> for DefEmLi<T> {
    closed spec fn triggers_view(&self) -> Seq<T> {
        self.triggers@
    }

    fn get_triggers(&self) -> (r: &Vec<T>) {
        &self.triggers
    }

    fn has_trigger(&self, tag: &T) -> (r: bool) {
        contains_tag(&self.triggers, tag)
    }

    fn on_triggers(&self, events: Vec<Event<T>>) {
    }

    fn as_lirc(&self) -> (r: LiRC<T>) {
        LiRC::new(self.id, copy_tags(&self.triggers))
    }
}

impl<T> PartialEq for DefEmLi<T> {
    fn eq(&self, other: &DefEmLi<T>) -> (r: bool) {
        self.id == other.id
    }
}

impl<T> vstd::std_specs::cmp::PartialEqSpecImpl for DefEmLi<T> {
    open spec fn obeys_eq_spec() -> bool {
        true
    }

    open spec fn eq_spec(&self, other: &DefEmLi<T>) -> bool {
        self.id_spec() == other.id_spec()
    }
}

} // verus!
