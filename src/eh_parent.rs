//! The capability of a parent that a sub-handler forwards its broadcasts to.
use vstd::prelude::*;
use crate::event::Event;
use crate::event_handler::EventHandler;

verus! {

pub trait EHParent<T> {
    /// Told of each event that a child sub-handler broadcasts.
    fn notify_parent(&mut self, event: Event<T>);
}

/// A handler as a parent takes each forwarded event onto its own stack.
impl<T: Copy + PartialEq> EHParent<T> for EventHandler<T> {
    fn notify_parent(&mut self, event: Event<T>)
        ensures
            final(self).only_stack_differs(old(self)),
            final(self).stack_view() == old(self).stack_view().push(event),
    {
        self.push_event(Some(event));
    }
}

} // verus!
