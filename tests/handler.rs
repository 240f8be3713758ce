use event_hub::conversant::DefConversant;
use event_hub::em_li::DefEmLi;
use event_hub::emit_obj::{EmRC, EmitObj};
use event_hub::emitter::{register_emitter, DefEmitter, IEmitter};
use event_hub::error::EventError;
use event_hub::event::Event;
use event_hub::event_handler::{find_handler, EHRc, EventHandler};
use event_hub::ids::{IdCounter, Unique};
use event_hub::listener::{DefListener, IListener, LiRC};
use event_hub::notice::Notice;

#[derive(Debug, PartialEq, Copy, Clone)]
enum TestTags {
    T1,
    T2,
    T3,
    T4(i32),
    T5(&'static str),
}

#[test]
fn empty_initializations() {
    let mut ids = IdCounter::new();
    let mut handlers: Vec<EventHandler<TestTags>> = Vec::new();
    let mut emitters: Vec<DefEmitter<TestTags>> = Vec::new();

    let eh1 = EventHandler::new_ehrc(&mut handlers, &mut ids);
    let eh2 = EventHandler::new_ehrc(&mut handlers, &mut ids);
    let em1 = DefEmitter::new_emrc(vec![eh1], None, &mut emitters, &mut ids);
    let em2 = DefEmitter::new_emrc(vec![], None, &mut emitters, &mut ids);
    let li1 = DefListener::new_lirc(
        vec![TestTags::T1, TestTags::T2, TestTags::T3, TestTags::T4(3), TestTags::T5("Hi")],
        &mut ids,
    );
    let li2 = DefListener::new_lirc(vec![], &mut ids);
    let emli1 = DefEmLi::<TestTags>::new(vec![eh2], None, None, &mut ids);
    let emli2_triggers = vec![TestTags::T1, TestTags::T5("Bye")];
    let emli2 = DefEmLi::<TestTags>::new(vec![], Some(emli2_triggers), None, &mut ids);

    assert_ne!(eh1, eh2);
    assert_ne!(em1, em2);
    assert_ne!(li1, li2);
    assert_ne!(emli1, emli2);

    let h1 = find_handler(&handlers, eh1.id).unwrap();
    assert_eq!(handlers[h1].get_stack_len(), 0);
    assert_eq!(handlers[h1].get_listeners().len(), 0);

    assert!(emitters[0].has_handler(&eh1));
    assert!(emli1.has_handler(&eh2));
    assert!(emli2.has_trigger(&TestTags::T1));

    println!("{:?}", handlers);
    println!("{:?}", emitters);
    println!("{:?}", li1);
    println!("{:?}", li2);
    println!("{:?}", emli1);
    println!("{:?}", emli2);
}

#[test]
fn stack_manipulation() {
    let mut ids = IdCounter::new();
    let mut eh = EventHandler::<TestTags>::new(&mut ids);
    let em = DefEmitter::<TestTags>::new(vec![eh.as_ehrc()], None, &mut ids);
    let em_ref = em.as_emrc();

    assert_eq!(eh.get_stack_len(), 0);

    eh.push_event(Some(Event::new(em_ref, Some(TestTags::T1))));

    assert_eq!(eh.get_stack_len(), 1);
    assert_eq!(eh.peek_next_emitter().unwrap().get_id(), em.get_id());
    assert_eq!(eh.peek_next_tag().unwrap(), TestTags::T1);

    eh.push_events(Some(vec![
        Event::new(em_ref, Some(TestTags::T3)),
        Event::new(em_ref, Some(TestTags::T5("A"))),
    ]));

    assert_eq!(eh.get_stack_len(), 3);
    assert_eq!(eh.peek_next_emitter().unwrap().get_id(), em.get_id());
    assert_eq!(eh.peek_next_tag(), Some(TestTags::T5("A")));

    let next = eh.pop_next();

    assert_eq!(next.as_ref().unwrap().get_emitter().get_id(), em.get_id());
    assert_eq!(next.as_ref().unwrap().get_tag(), Some(TestTags::T5("A")));

    assert_eq!(eh.get_stack_len(), 2);
    assert_eq!(eh.peek_next_emitter().unwrap().get_id(), em.get_id());
    assert_eq!(eh.peek_next_tag(), Some(TestTags::T3));
    assert_eq!(eh.get_prev_event(), next.as_ref());
}

#[test]
fn emitter_creation_and_addition() {
    let mut ids = IdCounter::new();
    let mut eh = EventHandler::<TestTags>::new(&mut ids);
    let mut em = DefEmitter::<TestTags>::new(vec![], Some(TestTags::T1), &mut ids);

    assert_eq!(register_emitter(&mut eh, &mut em), Ok(()));

    assert!(eh.has_emitter(&em.as_emrc()));
    assert!(em.has_handler(&eh.as_ehrc()));
    assert_eq!(eh.get_emitters().len(), 1);
    assert_eq!(em.get_handlers().len(), 1);
}

#[test]
fn listener_creation_and_addition() {
    let mut ids = IdCounter::new();
    let mut eh = EventHandler::<TestTags>::new(&mut ids);
    let li = DefListener::new(vec![TestTags::T1, TestTags::T4(7)], &mut ids);
    let li_ref = li.as_lirc();

    assert_eq!(li_ref.get_id(), li.get_id());
    assert_eq!(li_ref.get_triggers(), &vec![TestTags::T1, TestTags::T4(7)]);
    assert_eq!(eh.add_listener(li_ref.clone()), Ok(()));
    assert!(eh.has_listener(&li_ref));
    assert_eq!(eh.get_listeners().len(), 1);
    assert_eq!(eh.get_listener_by_id(li.get_id()).unwrap().get_id(), li.get_id());
}

#[test]
fn emit() {
    let mut ids = IdCounter::new();
    let mut handlers: Vec<EventHandler<TestTags>> = Vec::new();
    let h1 = EventHandler::new_ehrc(&mut handlers, &mut ids);
    let h2 = EventHandler::new_ehrc(&mut handlers, &mut ids);
    let mut em = DefEmitter::new(vec![], Some(TestTags::T2), &mut ids);
    assert_eq!(register_emitter(&mut handlers[0], &mut em), Ok(()));
    assert_eq!(register_emitter(&mut handlers[1], &mut em), Ok(()));
    assert_eq!(em.get_handlers(), &vec![h1, h2]);

    assert_eq!(em.emit(&mut handlers), Ok(()));
    assert_eq!(handlers[0].get_stack_len(), 1);
    assert_eq!(handlers[1].get_stack_len(), 0);
    assert_eq!(handlers[0].peek_next_tag(), Some(TestTags::T2));
    assert_eq!(handlers[0].peek_next_emitter(), Some(em.as_emrc()));

    assert_eq!(em.emit_to_handler_by_id(h2.id, &mut handlers), Ok(()));
    assert_eq!(handlers[0].get_stack_len(), 1);
    assert_eq!(handlers[1].get_stack_len(), 1);
}

#[test]
fn listen() {
    let mut ids = IdCounter::new();
    let li = DefListener::new(vec![TestTags::T1, TestTags::T4(3), TestTags::T5("A")], &mut ids);
    assert!(li.has_trigger(&TestTags::T1));
    assert!(li.has_trigger(&TestTags::T4(3)));
    assert!(!li.has_trigger(&TestTags::T4(4)));
    assert!(li.has_trigger(&TestTags::T5("A")));
    assert!(!li.has_trigger(&TestTags::T5("B")));
    assert!(!li.has_trigger(&TestTags::T2));
    assert_eq!(li.get_triggers(), &vec![TestTags::T1, TestTags::T4(3), TestTags::T5("A")]);
    li.on_triggers(vec![]);
}

#[test]
fn broadcast() {
    let mut ids = IdCounter::new();
    let mut eh = EventHandler::<TestTags>::new(&mut ids);
    let em = EmRC { id: 99 };
    let li = DefListener::new_lirc(vec![TestTags::T1, TestTags::T5("A")], &mut ids);
    let li_id = li.get_id();
    eh.add_listener(li).unwrap();

    let e1 = Event::new(em, Some(TestTags::T1));
    let e5 = Event::new(em, Some(TestTags::T5("B")));
    let e3 = Event::new(em, Some(TestTags::T3));
    assert_eq!(eh.broadcast_event(e1), vec![Notice::Listener { listener: li_id, event: e1 }]);
    assert_eq!(eh.broadcast_event(e5), vec![]);
    assert_eq!(eh.broadcast_event(e3), vec![]);
    assert_eq!(
        eh.broadcast_events(vec![e1, e5, e3]),
        vec![Notice::Listener { listener: li_id, event: e1 }]
    );
}

#[test]
fn push_count_ignores_none() {
    let mut ids = IdCounter::new();
    let mut eh = EventHandler::<TestTags>::new(&mut ids);
    let em = EmRC { id: 7 };
    eh.push_event(None);
    assert_eq!(eh.get_stack_len(), 0);
    eh.push_event(Some(Event::new(em, Some(TestTags::T1))));
    eh.push_event(None);
    eh.push_event(Some(Event::new(em, None)));
    assert_eq!(eh.get_stack_len(), 2);
    eh.push_events(None);
    assert_eq!(eh.get_stack_len(), 2);
    eh.push_events(Some(vec![]));
    assert_eq!(eh.get_stack_len(), 2);
}

#[test]
fn lifo_order_and_prev_event() {
    let mut ids = IdCounter::new();
    let mut eh = EventHandler::<TestTags>::new(&mut ids);
    let em = EmRC { id: 3 };
    let a = Event::new(em, Some(TestTags::T1));
    let b = Event::new(em, Some(TestTags::T2));
    let c = Event::new(em, Some(TestTags::T3));
    assert_eq!(eh.get_prev_event(), None);
    assert_eq!(eh.pop_next(), None);
    assert_eq!(eh.get_prev_event(), None);
    eh.push_event(Some(a));
    eh.push_event(Some(b));
    eh.push_event(Some(c));
    assert_eq!(eh.peek_next(), Some(&c));
    assert_eq!(eh.pop_next(), Some(c));
    assert_eq!(eh.get_prev_event(), Some(&c));
    assert_eq!(eh.pop_next(), Some(b));
    assert_eq!(eh.get_prev_event(), Some(&b));
    assert_eq!(eh.pop_next(), Some(a));
    assert_eq!(eh.get_prev_event(), Some(&a));
    assert_eq!(eh.pop_next(), None);
    assert_eq!(eh.get_prev_event(), Some(&a));
}

#[test]
fn fresh_objects_never_equal() {
    let mut ids = IdCounter::new();
    let h1 = EventHandler::<TestTags>::new(&mut ids);
    let h2 = EventHandler::<TestTags>::new(&mut ids);
    assert_ne!(h1, h2);
    assert_eq!(h1.get_id(), 0);
    assert_eq!(h2.get_id(), 1);
    let e1 = DefEmitter::<TestTags>::new(vec![], Some(TestTags::T1), &mut ids);
    let e2 = DefEmitter::<TestTags>::new(vec![], Some(TestTags::T1), &mut ids);
    assert_ne!(e1, e2);
    let l1 = DefListener::new(vec![TestTags::T1], &mut ids);
    let l2 = DefListener::new(vec![TestTags::T1], &mut ids);
    assert_ne!(l1, l2);
    assert_ne!(l1.as_lirc(), l2.as_lirc());
    let c1 = DefConversant::<TestTags>::new(vec![], None, &mut ids);
    let c2 = DefConversant::<TestTags>::new(vec![], None, &mut ids);
    assert_ne!(c1, c2);
}

#[test]
fn identity_survives_mutation_and_copies() {
    let mut ids = IdCounter::new();
    let mut h = EventHandler::<TestTags>::new(&mut ids);
    let handle: EHRc = h.as_ehrc();
    let copy = handle;
    h.emit(EmRC { id: 5 }, TestTags::T1);
    assert_eq!(handle, copy);
    assert_eq!(h.as_ehrc(), handle);
    let l = DefListener::new(vec![TestTags::T2], &mut ids);
    let lr1: LiRC<TestTags> = l.as_lirc();
    let lr2 = lr1.clone();
    assert_eq!(lr1, lr2);
    assert_eq!(l.as_lirc(), l.into_lirc());
}

#[test]
fn duplicate_listener_rejected() {
    let mut ids = IdCounter::new();
    let mut eh = EventHandler::<TestTags>::new(&mut ids);
    let li = DefListener::new(vec![TestTags::T1], &mut ids);
    assert_eq!(eh.add_listener(li.as_lirc()), Ok(()));
    assert_eq!(eh.add_listener(li.as_lirc()), Err(EventError::DuplicateRegistration));
    assert_eq!(eh.get_listeners().len(), 1);
}

#[test]
fn listener_lookup_by_unknown_id() {
    let mut ids = IdCounter::new();
    let eh = EventHandler::<TestTags>::new(&mut ids);
    assert_eq!(eh.get_listener_by_id(42), Err(EventError::UnknownTarget));
    assert_eq!(eh.get_emitter_by_id(42), Err(EventError::UnknownTarget));
}

#[test]
fn broadcast_in_registration_order() {
    let mut ids = IdCounter::new();
    let mut eh = EventHandler::<TestTags>::new(&mut ids);
    let a = DefListener::new_lirc(vec![TestTags::T4(1)], &mut ids);
    let b = DefListener::new_lirc(vec![TestTags::T2], &mut ids);
    let c = DefListener::new_lirc(vec![TestTags::T4(1), TestTags::T2], &mut ids);
    let (ia, ib, ic) = (a.get_id(), b.get_id(), c.get_id());
    eh.add_listener(a).unwrap();
    eh.add_listener(b).unwrap();
    eh.add_listener(c).unwrap();
    let em = EmRC { id: 50 };
    let x = Event::new(em, Some(TestTags::T4(1)));
    let y = Event::new(em, Some(TestTags::T2));
    assert_eq!(
        eh.broadcast_events(vec![x, y]),
        vec![
            Notice::Listener { listener: ia, event: x },
            Notice::Listener { listener: ic, event: x },
            Notice::Listener { listener: ib, event: y },
            Notice::Listener { listener: ic, event: y },
        ]
    );
}

#[test]
fn consume_pops_and_broadcasts() {
    let mut ids = IdCounter::new();
    let mut eh = EventHandler::<TestTags>::new(&mut ids);
    assert_eq!(eh.consume_next_event(), vec![]);
    let li = DefListener::new_lirc(vec![TestTags::T3], &mut ids);
    let li_id = li.get_id();
    eh.add_listener(li).unwrap();
    let em = EmRC { id: 8 };
    let e1 = Event::new(em, Some(TestTags::T1));
    let e3 = Event::new(em, Some(TestTags::T3));
    eh.push_events(Some(vec![e1, e3]));
    assert_eq!(eh.consume_next_event(), vec![Notice::Listener { listener: li_id, event: e3 }]);
    assert_eq!(eh.get_prev_event(), Some(&e3));
    assert_eq!(eh.consume_next_event(), vec![]);
    assert_eq!(eh.get_prev_event(), Some(&e1));
    assert_eq!(eh.get_stack_len(), 0);
}

#[test]
fn receive_needs_registration() {
    let mut ids = IdCounter::new();
    let mut eh = EventHandler::<TestTags>::new(&mut ids);
    let mut em = DefEmitter::new(vec![], Some(TestTags::T1), &mut ids);
    eh.receive(em.as_emrc(), Some(TestTags::T1));
    assert_eq!(eh.get_stack_len(), 0);
    assert_eq!(register_emitter(&mut eh, &mut em), Ok(()));
    assert_eq!(register_emitter(&mut eh, &mut em), Err(EventError::DuplicateRegistration));
    assert_eq!(eh.get_emitters().len(), 1);
    assert_eq!(em.get_handlers().len(), 1);
    eh.receive(em.as_emrc(), Some(TestTags::T1));
    assert_eq!(eh.get_stack_len(), 1);
    assert_eq!(eh.get_emitter_by_id(em.get_id()), Ok(em.as_emrc()));
    assert_eq!(eh.peek_next(), Some(&Event::new(em.as_emrc(), Some(TestTags::T1))));
}

#[test]
fn stack_projections() {
    let mut ids = IdCounter::new();
    let mut eh = EventHandler::<TestTags>::new(&mut ids);
    let a = EmRC { id: 11 };
    let b = EmRC { id: 12 };
    eh.push_events(Some(vec![Event::new(a, Some(TestTags::T1)), Event::new(b, None)]));
    assert_eq!(eh.get_stack_tags(), vec![Some(TestTags::T1), None]);
    assert_eq!(eh.get_stack_emitters(), vec![a, b]);
    assert!(eh.stack_has_emitter(&b));
    assert!(!eh.stack_has_emitter(&EmRC { id: 13 }));
    assert_eq!(eh.get_stack().len(), 2);
    assert_eq!(eh.peek_next_tag(), None);
    assert_eq!(eh.peek_next_emitter(), Some(b));
}

#[test]
fn event_equality_by_emitter_and_tag() {
    let a = EmRC { id: 1 };
    let b = EmRC { id: 2 };
    assert_eq!(Event::new(a, Some(TestTags::T4(2))), Event::new(a, Some(TestTags::T4(2))));
    assert_ne!(Event::new(a, Some(TestTags::T4(2))), Event::new(a, Some(TestTags::T4(3))));
    assert_ne!(Event::new(a, Some(TestTags::T1)), Event::new(b, Some(TestTags::T1)));
    assert_ne!(Event::new(a, Some(TestTags::T1)), Event::new(a, None));
    assert_eq!(Event::<TestTags>::new(a, None), Event::new(a, None));
}

#[test]
fn handler_moved_into_pool() {
    let mut ids = IdCounter::new();
    let mut pool: Vec<EventHandler<TestTags>> = Vec::new();
    let h = EventHandler::<TestTags>::new(&mut ids);
    let id = h.get_id();
    let r = h.into_ehrc(&mut pool);
    assert_eq!(r.id, id);
    assert_eq!(find_handler(&pool, id), Some(0));
    assert_eq!(find_handler(&pool, id + 1), None);
    let mut emitters: Vec<DefEmitter<TestTags>> = Vec::new();
    let em = DefEmitter::<TestTags>::new(vec![r], None, &mut ids);
    let em_id = em.get_id();
    assert_eq!(em.into_emrc(&mut emitters), EmRC { id: em_id });
    assert_eq!(emitters.len(), 1);
}
