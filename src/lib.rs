//! An event-notification library: emitters raise tagged events, handlers
//! stack them and broadcast them to the listeners whose triggers match.
//!
//! Objects refer to one another through handles that carry an id
//! (`EmRC`, `EHRc`, `LiRC`), never through owning pointers. Handlers live in a
//! pool, a `Vec` that the application keeps; an emitter finds its target
//! there by id. Every id comes from an `IdCounter` handed to the
//! constructors. A broadcast does not call into listeners or parents itself:
//! it returns the calls to make as a list of `Notice`s, in order, and
//! `notice::deliver_to_listener` / `notice::deliver_to_parent` carry them out.
use vstd::prelude::*;

pub mod conversant;
pub mod eh_parent;
pub mod em_li;
pub mod emit_obj;
pub mod emitter;
pub mod error;
pub mod event;
pub mod event_handler;
pub mod ids;
pub mod laws;
pub mod listener;
pub mod notice;
pub mod stack;
pub mod sub_event_handler;

verus! {

} // verus!
