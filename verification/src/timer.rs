//! The single-fire handshake between the code that advances time and a sleeping task.
use crate::event::{listen, new_event, notify_one};
use crate::time_handler_guard::{TimeHandlerFinished, TimeHandlerGuard};
use event_listener::{Event, EventListener};
use vstd::prelude::*;

verus! {

/// The driver's half of a pending wake-up: the event that wakes the sleeping task and the
/// waiter that resolves once the woken task has released its guard.
pub struct Timer {
    trigger: Event,
    handler_finished_waiter: TimeHandlerFinished,
}

/// The sleeping task's half of a pending wake-up: the subscription to the timer's event and
/// the guard that the task receives when the timer fires.
///
/// The guard sits in a slot that is emptied when the guard is handed out, so that a listener
/// is never able to hand out a second guard.
pub struct TimerListener {
    listener: EventListener,
    handler_guard: Option<TimeHandlerGuard>,
    ticket: Ghost<Option<nat>>,
}

impl Timer {
    /// A timer and the listener that it wakes. The listener holds the guard whose release
    /// the timer's waiter observes.
    pub fn new() -> (pair: (Self, TimerListener))
        ensures
            pair.0.ticket() is None,
            pair.1.ticket() is None,
            pair.1.guard() is Some,
    {
        Timer::for_ticket(Ghost(None))
    }

    /// A timer and its listener for the wake-up that a registry schedules under `ticket`.
    pub(crate) fn for_ticket(ticket: Ghost<Option<nat>>) -> (pair: (Self, TimerListener))
        ensures
            pair.0.ticket() == ticket@,
            pair.1.ticket() == ticket@,
            pair.1.guard() is Some,
    {
        let (handler_guard, handler_finished_waiter) = TimeHandlerGuard::for_ticket(ticket);
        let trigger = new_event();
        let listener = listen(&trigger);
        (
            Timer { trigger, handler_finished_waiter },
            TimerListener { listener, handler_guard: Some(handler_guard), ticket },
        )
    }

    /// Wakes the listener and hands out the waiter that resolves when the woken task has
    /// released its guard.
    pub fn trigger(self) -> (handler_finished: TimeHandlerFinished)
        ensures
            handler_finished == self.waiter(),
            handler_finished.ticket() == self.ticket(),
    {
        let Timer { trigger, handler_finished_waiter } = self;
        notify_one(&trigger);
        handler_finished_waiter
    }

    /// The waiter that [`Timer::trigger`] hands out.
    pub closed spec fn waiter(self) -> TimeHandlerFinished {
        self.handler_finished_waiter
    }

    /// The ticket under which a registry scheduled this timer, or `None` for a timer that
    /// was made outside of a registry.
    pub closed spec fn ticket(&self) -> Option<nat> {
        self.handler_finished_waiter.ticket()
    }
}

impl TimerListener {
    /// The guard that this listener still has to hand out, if any.
    pub closed spec fn guard(&self) -> Option<TimeHandlerGuard> {
        self.handler_guard
    }

    /// The subscription to the timer's event.
    pub closed spec fn subscription(&self) -> EventListener {
        self.listener
    }

    /// The ticket under which a registry scheduled the timer that wakes this listener, or
    /// `None` for a listener that was made outside of a registry.
    pub closed spec fn ticket(&self) -> Option<nat> {
        self.ticket@
    }

    /// Whether the guard has been handed out already. The subscription of a finished
    /// listener must not be waited on again.
    pub fn is_finished(&self) -> (finished: bool)
        ensures
            finished == (self.guard() is None),
    {
        self.handler_guard.is_none()
    }

    /// The subscription to wait on before [`TimerListener::take_guard`] is called with
    /// `true`.
    pub fn listener_mut(&mut self) -> (listener: &mut EventListener)
        ensures
            *listener == old(self).subscription(),
            final(self).subscription() == *final(listener),
            final(self).guard() == old(self).guard(),
            final(self).ticket() == old(self).ticket(),
    {
        &mut self.listener
    }

    /// Reacts to one poll of the subscription. While the timer has not fired, nothing is
    /// handed out and nothing changes. Once it has, the guard leaves the slot; any later
    /// call finds the slot empty and hands out nothing.
    pub fn take_guard(&mut self, triggered: bool) -> (guard: Option<TimeHandlerGuard>)
        ensures
            triggered ==> guard == old(self).guard() && final(self).guard() is None,
            !triggered ==> guard is None && final(self).guard() == old(self).guard(),
            final(self).subscription() == old(self).subscription(),
            final(self).ticket() == old(self).ticket(),
    {
        if triggered {
            self.handler_guard.take()
        } else {
            None
        }
    }

    /// Splits the listener into its subscription and the guard it still holds.
    pub fn into_parts(self) -> (parts: (EventListener, Option<TimeHandlerGuard>))
        ensures
            parts.0 == self.subscription(),
            parts.1 == self.guard(),
    {
        let TimerListener { listener, handler_guard, ticket: _ } = self;
        (listener, handler_guard)
    }
}

} // verus!
