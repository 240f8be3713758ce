//! The recoverable failures of registration, lookup and emission.
use vstd::prelude::*;

verus! {

#[derive(Debug, Clone, Copy, PartialEq, Eq, Structural)]
pub enum EventError {
    /// The handler, listener or emitter is already registered.
    DuplicateRegistration,
    /// No registered object has the requested id.
    UnknownTarget,
    /// An emitter was told to emit but has no handlers.
    NoHandlers,
}

} // verus!
