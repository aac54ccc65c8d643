//! The single registration point through which native callbacks reach user code.
use vstd::prelude::*;
use crate::event::Event;

verus! {

/// Holds at most one callback; a new registration replaces the old one.
pub struct CallbackSlot<F> {
    pub callback: Option<F>,
}

impl<F> CallbackSlot<F> {
    /// An empty slot.
    pub fn new() -> (r: CallbackSlot<F>)
        ensures
            r.callback is None,
    {
        CallbackSlot { callback: None }
    }

    /// Replaces any registered callback by `f`.
    pub fn register(&mut self, f: F)
        ensures
            final(self).callback == Some(f),
    {
        self.callback = Some(f);
    }

    /// Hands `event` to the registered callback and returns its answer; with
    /// no callback registered, does nothing and returns `None`.
    pub fn invoke<R>(&mut self, event: Event) -> (r: Option<R>)
        where F: FnMut(Event) -> R,
        requires
            old(self).callback matches Some(f) ==> f.requires((event,)),
        ensures
            old(self).callback is None <==> r is None,
            old(self).callback matches Some(f) ==> r matches Some(v) && f.ensures((event,), v),
            old(self).callback is None ==> final(self).callback is None,
            final(self).callback is Some <==> old(self).callback is Some,
    {
        match self.callback.as_mut() {
            Some(f) => Some(f(event)),
            None => None,
        }
    }
}

} // verus!
