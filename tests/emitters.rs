use event_hub::conversant::DefConversant;
use event_hub::em_li::DefEmLi;
use event_hub::emit_obj::{EmRC, EmitObj};
use event_hub::emitter::{register_emitter, DefEmitter, IEmitter};
use event_hub::error::EventError;
use event_hub::event::Event;
use event_hub::event_handler::{EHRc, EventHandler};
use event_hub::ids::{same_id, IdCounter, Unique};
use event_hub::listener::{DefListener, IListener};

#[derive(Debug, PartialEq, Copy, Clone)]
enum Kind {
    Start,
    Stop,
    Level(i32),
}

#[test]
fn emit_without_handlers_changes_nothing() {
    let mut ids = IdCounter::new();
    let mut pool: Vec<EventHandler<Kind>> = Vec::new();
    let h = EventHandler::new_ehrc(&mut pool, &mut ids);
    let em = DefEmitter::new(vec![], Some(Kind::Start), &mut ids);
    pool[0].add_emitter(em.as_emrc()).unwrap();
    assert_eq!(em.emit(&mut pool), Err(EventError::NoHandlers));
    assert_eq!(pool[0].get_stack_len(), 0);
    assert_eq!(em.emit_to_handler_by_id(h.id, &mut pool), Err(EventError::UnknownTarget));
    assert_eq!(pool[0].get_stack_len(), 0);
}

#[test]
fn emit_to_handler_missing_from_pool() {
    let mut ids = IdCounter::new();
    let mut pool: Vec<EventHandler<Kind>> = Vec::new();
    let stray = EventHandler::<Kind>::new(&mut ids);
    let em = DefEmitter::new(vec![stray.as_ehrc()], Some(Kind::Stop), &mut ids);
    assert_eq!(em.emit(&mut pool), Err(EventError::UnknownTarget));
    assert_eq!(em.emit_to_handler_by_id(stray.get_id(), &mut pool), Err(EventError::UnknownTarget));
    assert!(pool.is_empty());
}

#[test]
fn emit_to_unregistered_source_is_dropped() {
    let mut ids = IdCounter::new();
    let mut pool: Vec<EventHandler<Kind>> = Vec::new();
    let h = EventHandler::new_ehrc(&mut pool, &mut ids);
    let mut em = DefEmitter::new(vec![], Some(Kind::Level(2)), &mut ids);
    assert_eq!(em.add_handler(h), Ok(()));
    assert_eq!(em.add_handler(h), Err(EventError::DuplicateRegistration));
    assert_eq!(em.emit(&mut pool), Ok(()));
    assert_eq!(pool[0].get_stack_len(), 0);
    assert_eq!(pool[0].add_emitter(em.as_emrc()), Ok(()));
    assert_eq!(pool[0].add_emitter(em.as_emrc()), Err(EventError::DuplicateRegistration));
    assert_eq!(em.emit(&mut pool), Ok(()));
    assert_eq!(pool[0].get_stack_tags(), vec![Some(Kind::Level(2))]);
}

#[test]
fn handler_lookup_on_emitter() {
    let mut ids = IdCounter::new();
    let a = EHRc { id: 40 };
    let b = EHRc { id: 41 };
    let em = DefEmitter::<Kind>::new(vec![a, b], None, &mut ids);
    assert_eq!(em.get_handler_by_id(41), Ok(b));
    assert_eq!(em.get_handler_by_id(42), Err(EventError::UnknownTarget));
    assert!(em.has_handler(&a));
    assert!(!em.has_handler(&EHRc { id: 42 }));
    assert_eq!(em.get_handlers(), &vec![a, b]);
}

#[test]
fn emitter_listener_roles() {
    let mut ids = IdCounter::new();
    let mut pool: Vec<EventHandler<Kind>> = Vec::new();
    EventHandler::new_ehrc(&mut pool, &mut ids);
    let mut emli = DefEmLi::new(vec![], Some(vec![Kind::Stop]), Some(Kind::Start), &mut ids);
    assert_eq!(register_emitter(&mut pool[0], &mut emli), Ok(()));
    assert_eq!(emli.emit(&mut pool), Ok(()));
    assert_eq!(pool[0].peek_next(), Some(&Event::new(emli.as_emrc(), Some(Kind::Start))));
    assert!(emli.has_trigger(&Kind::Stop));
    assert!(!emli.has_trigger(&Kind::Start));
    let handle = emli.as_lirc();
    assert_eq!(handle.get_id(), emli.get_id());
    assert_eq!(handle.get_triggers(), &vec![Kind::Stop]);
    assert_eq!(pool[0].add_listener(handle), Ok(()));
    assert_eq!(emli.get_triggers(), &vec![Kind::Stop]);
    emli.on_triggers(vec![]);
}

#[test]
fn conversant_emits_untagged() {
    let mut ids = IdCounter::new();
    let mut pool: Vec<EventHandler<Kind>> = Vec::new();
    let h = EventHandler::new_ehrc(&mut pool, &mut ids);
    let mut conv = DefConversant::new(vec![], None, &mut ids);
    assert_eq!(register_emitter(&mut pool[0], &mut conv), Ok(()));
    assert_eq!(conv.emit_to_handler_by_id(h.id, &mut pool), Ok(()));
    assert_eq!(pool[0].get_stack_tags(), vec![None]);
    assert_eq!(pool[0].get_stack_emitters(), vec![conv.as_emrc()]);
    assert!(conv.get_triggers().is_empty());
    assert!(!conv.has_trigger(&Kind::Start));
}

#[test]
fn cross_kind_identity() {
    let mut ids = IdCounter::new();
    let em = DefEmitter::<Kind>::new(vec![], None, &mut ids);
    let li = DefListener::<Kind>::new(vec![], &mut ids);
    assert!(!same_id(&em, &li));
    assert!(same_id(&em, &em.as_emrc()));
    assert!(same_id(&li, &li.as_lirc()));
    assert_eq!(em.as_emrc(), EmRC { id: em.get_id() });
}

#[test]
fn ids_increase_by_one() {
    let mut ids = IdCounter::new();
    assert_eq!(ids.issue(), 0);
    assert_eq!(ids.issue(), 1);
    let h = EventHandler::<Kind>::new(&mut ids);
    assert_eq!(h.get_id(), 2);
    assert_eq!(ids.issue(), 3);
}
