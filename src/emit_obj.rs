//! Handles: small copyable references that name an object by its id.
use vstd::prelude::*;
use crate::error::EventError;
use crate::ids::Unique;

verus! {

/// A shared reference to an emitter: it names the emitter by id. Two handles
/// are equal exactly when they name the same emitter.
#[derive(Debug, Clone, Copy, PartialEq, Eq, Structural)]
pub struct EmRC {
    pub id: usize,
}

impl Unique for EmRC {
    open spec fn id_spec(&self) -> usize {
        self.id
    }

    fn get_id(&self) -> (r: usize) {
        self.id
    }
}

/// An object that can be named as the source of an event.
pub trait EmitObj: Unique {
    fn as_emrc(&self) -> (r: EmRC)
        ensures
            r.id == self.id_spec(),
    ;
}

/// The position of the first handle in `handles` with the id `id`.
pub fn find_emrc(handles: &Vec<EmRC>, id: usize) -> (r: Option<usize>)
    ensures
        match r {
            Some(k) => {
                &&& k < handles@.len()
                &&& handles@[k as int].id == id
                &&& forall|j: int| 0 <= j < k ==> (#[trigger] handles@[j]).id != id
            },
            None => !handles@.contains(EmRC { id }),
        },
{
    let mut i: usize = 0;
    while i < handles.len()
        invariant
            i <= handles@.len(),
            forall|j: int| 0 <= j < i ==> (#[trigger] handles@[j]).id != id,
        decreases handles@.len() - i,
    {
        if handles[i].id == id {
            return Some(i);
        }
        i = i + 1;
    }
    None
}

/// The handles after registering `handle`: one more at the end, unless it is
/// there already.
pub open spec fn with_emrc(handles: Seq<EmRC>, handle: EmRC) -> Seq<EmRC> {
    if handles.contains(handle) {
        handles
    } else {
        handles.push(handle)
    }
}

/// What registering `handle` returns: a duplicate-registration error when it
/// is there already.
pub open spec fn emrc_registration(handles: Seq<EmRC>, handle: EmRC) -> Result<(), EventError> {
    if handles.contains(handle) {
        Err(EventError::DuplicateRegistration)
    } else {
        Ok(())
    }
}

/// Registering a handle keeps the handles free of repeats.
pub proof fn lemma_with_emrc_distinct(handles: Seq<EmRC>, handle: EmRC)
    requires
        handles.no_duplicates(),
    ensures
        with_emrc(handles, handle).no_duplicates(),
{
    if !handles.contains(handle) {
        let after = handles.push(handle);
        assert forall|i: int, j: int|
            0 <= i < after.len() && 0 <= j < after.len() && i != j implies after[i] != after[j] by {
            if i == handles.len() {
                assert(after[j] == handles[j]);
            } else if j == handles.len() {
                assert(after[i] == handles[i]);
            } else {
                assert(after[i] == handles[i] && after[j] == handles[j]);
            }
        }
    }
}

/// Adds `handle` unless it is already there.
pub fn register_emrc(handles: &mut Vec<EmRC>, handle: EmRC) -> (r: Result<(), EventError>)
    ensures
        final(handles)@ == with_emrc(old(handles)@, handle),
        r == emrc_registration(old(handles)@, handle),
{
    match find_emrc(handles, handle.id) {
        Some(_) => Err(EventError::DuplicateRegistration),
        None => {
            handles.push(handle);
            Ok(())
        },
    }
}

} // verus!
