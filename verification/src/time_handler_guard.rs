//! The side-effect guard and the waiter that observes its release.
use crate::event::{listen, new_event, notify_one};
use event_listener::{Event, EventListener};
use vstd::prelude::*;

verus! {

/// Held by the task that a timer woke while it performs the side effects of the wake-up.
/// Releasing the guard tells the code that advances time that the task is done.
///
/// The guard must be kept until the timer has performed its side effects.
#[must_use]
#[derive(Debug)]
pub struct TimeHandlerGuard {
    released: Event,
}

/// Resolves once the paired [`TimeHandlerGuard`] has been released.
pub struct TimeHandlerFinished {
    listener: EventListener,
    ticket: Ghost<Option<nat>>,
}

impl TimeHandlerGuard {
    /// A guard and the waiter that is notified when the guard is released.
    pub fn new() -> (pair: (Self, TimeHandlerFinished))
        ensures
            pair.1.ticket() is None,
    {
        TimeHandlerGuard::for_ticket(Ghost(None))
    }

    /// A guard and its waiter for the timer that a registry scheduled under `ticket`.
    pub(crate) fn for_ticket(ticket: Ghost<Option<nat>>) -> (pair: (Self, TimeHandlerFinished))
        ensures
            pair.1.ticket() == ticket@,
    {
        let released = new_event();
        let listener = listen(&released);
        (TimeHandlerGuard { released }, TimeHandlerFinished { listener, ticket })
    }
}

impl Drop for TimeHandlerGuard {
    /// Releases the guard: notifies the waiter.
    fn drop(&mut self)
        opens_invariants none
        no_unwind
    {
        let released = &self.released;
        notify_one(released);
    }
}

impl TimeHandlerFinished {
    /// The ticket under which a registry scheduled the timer that this waiter belongs to,
    /// or `None` for a waiter that was made outside of a registry.
    pub closed spec fn ticket(&self) -> Option<nat> {
        self.ticket@
    }

    /// The subscription to the event that the release of the guard raises.
    pub closed spec fn subscription(&self) -> EventListener {
        self.listener
    }

    /// The subscription to wait on: it resolves once the guard has been released.
    pub fn into_listener(self) -> (listener: EventListener)
        ensures
            listener == self.subscription(),
    {
        self.listener
    }
}

} // verus!
