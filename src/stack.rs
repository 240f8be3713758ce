//! The event stack that handlers keep: last in, first out, with the top at
//! the back.
use vstd::prelude::*;
use crate::emit_obj::EmRC;
use crate::event::Event;
use crate::notice::all_tagged;

verus! {

/// The stack after pushing `event`: one more event on top, or the same stack
/// when there is no event.
pub open spec fn pushed<T>(stack: Seq<Event<T>>, event: Option<Event<T>>) -> Seq<Event<T>> {
    match event {
        Some(e) => stack.push(e),
        None => stack,
    }
}

/// The stack after pushing each of `events` in turn, so the last one ends on top.
pub open spec fn pushed_all<T>(stack: Seq<Event<T>>, events: Option<Seq<Event<T>>>) -> Seq<
    Event<T>,
> {
    match events {
        Some(es) => stack + es,
        None => stack,
    }
}

/// The top of the stack.
pub open spec fn top<T>(stack: Seq<Event<T>>) -> Option<Event<T>> {
    if stack.len() == 0 {
        None
    } else {
        Some(stack.last())
    }
}

/// Whether some event of the stack was raised by `emitter`.
pub open spec fn holds_emitter<T>(stack: Seq<Event<T>>, emitter: EmRC) -> bool {
    exists|i: int| 0 <= i < stack.len() && (#[trigger] stack[i]).emitter_view() == emitter
}

/// Pushes each of `events` in order.
pub fn push_all<T: Copy>(stack: &mut Vec<Event<T>>, events: &Vec<Event<T>>)
    ensures
        final(stack)@ == old(stack)@ + events@,
{
    let mut i: usize = 0;
    while i < events.len()
        invariant
            i <= events@.len(),
            stack@ =~= old(stack)@ + events@.subrange(0, i as int),
        decreases events@.len() - i,
    {
        stack.push(events[i]);
        i = i + 1;
        assert(stack@ =~= old(stack)@ + events@.subrange(0, i as int));
    }
    assert(events@.subrange(0, events@.len() as int) =~= events@);
}

/// A reference to the top event, if any.
pub fn top_of<T>(stack: &Vec<Event<T>>) -> (r: Option<&Event<T>>)
    ensures
        match r {
            Some(e) => top(stack@) == Some(*e),
            None => top(stack@) is None,
        },
{
    if stack.len() == 0 {
        None
    } else {
        Some(&stack[stack.len() - 1])
    }
}

/// The tag of each event, from the bottom of the stack to the top.
pub fn tags_of<T: Copy>(stack: &Vec<Event<T>>) -> (r: Vec<Option<T>>)
    ensures
        r@ == stack@.map_values(|e: Event<T>| e.tag_view()),
{
    let mut r: Vec<Option<T>> = Vec::new();
    let mut i: usize = 0;
    while i < stack.len()
        invariant
            i <= stack@.len(),
            r@ =~= stack@.subrange(0, i as int).map_values(|e: Event<T>| e.tag_view()),
        decreases stack@.len() - i,
    {
        r.push(stack[i].get_tag());
        i = i + 1;
        assert(r@ =~= stack@.subrange(0, i as int).map_values(|e: Event<T>| e.tag_view()));
    }
    assert(stack@.subrange(0, stack@.len() as int) =~= stack@);
    r
}

/// The tag of each event, from the bottom of the stack to the top, where
/// every event is tagged.
pub fn tag_values_of<T: Copy>(stack: &Vec<Event<T>>) -> (r: Vec<T>)
    requires
        all_tagged(stack@),
    ensures
        r@ == stack@.map_values(|e: Event<T>| e.tag_view()->Some_0),
{
    let mut r: Vec<T> = Vec::new();
    let mut i: usize = 0;
    while i < stack.len()
        invariant
            all_tagged(stack@),
            i <= stack@.len(),
            r@ =~= stack@.subrange(0, i as int).map_values(|e: Event<T>| e.tag_view()->Some_0),
        decreases stack@.len() - i,
    {
        assert(stack@[i as int].tag_view() is Some);
        r.push(stack[i].get_tag().unwrap());
        i = i + 1;
        assert(r@ =~= stack@.subrange(0, i as int).map_values(
            |e: Event<T>| e.tag_view()->Some_0,
        ));
    }
    assert(stack@.subrange(0, stack@.len() as int) =~= stack@);
    r
}

/// The emitter of each event, from the bottom of the stack to the top.
pub fn emitters_of<T: Copy>(stack: &Vec<Event<T>>) -> (r: Vec<EmRC>)
    ensures
        r@ == stack@.map_values(|e: Event<T>| e.emitter_view()),
{
    let mut r: Vec<EmRC> = Vec::new();
    let mut i: usize = 0;
    while i < stack.len()
        invariant
            i <= stack@.len(),
            r@ =~= stack@.subrange(0, i as int).map_values(|e: Event<T>| e.emitter_view()),
        decreases stack@.len() - i,
    {
        r.push(stack[i].get_emitter());
        i = i + 1;
        assert(r@ =~= stack@.subrange(0, i as int).map_values(|e: Event<T>| e.emitter_view()));
    }
    assert(stack@.subrange(0, stack@.len() as int) =~= stack@);
    r
}

/// Whether some event of the stack was raised by `emitter`.
pub fn stack_holds_emitter<T: Copy>(stack: &Vec<Event<T>>, emitter: &EmRC) -> (r: bool)
    ensures
        r == holds_emitter(stack@, *emitter),
{
    let mut i: usize = 0;
    while i < stack.len()
        invariant
            i <= stack@.len(),
            forall|j: int| 0 <= j < i ==> (#[trigger] stack@[j]).emitter_view() != *emitter,
        decreases stack@.len() - i,
    {
        if stack[i].get_emitter().id == emitter.id {
            return true;
        }
        i = i + 1;
    }
    false
}

} // verus!
