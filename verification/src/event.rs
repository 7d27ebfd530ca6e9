//! The notification primitive that the handshakes of this crate are built on.
//!
//! An [`Event`] of the `event_listener` crate is shared mutable state behind an atomic
//! pointer, so nothing is claimed here of any call: the functions below only make the
//! calls available to verified code.
use event_listener::{Event, EventListener};
use vstd::prelude::*;

verus! {

/// `event_listener::Event`, carried through verified code as an opaque value.
#[verifier::external_type_specification]
#[verifier::external_body]
#[verifier::reject_recursive_types(T)]
pub struct ExEvent<T>(Event<T>);

/// `event_listener::EventListener`, carried through verified code as an opaque value.
#[verifier::external_type_specification]
#[verifier::external_body]
#[verifier::reject_recursive_types(T)]
pub struct ExEventListener<T>(EventListener<T>);

/// `Event::new`: a fresh event that nobody listens to yet. Nothing is claimed of it.
#[verifier::external_body]
pub(crate) fn new_event() -> (event: Event) {
    Event::new()
}

/// `Event::listen`: registers a new listener with the event and returns it. Nothing is
/// claimed of the listener.
#[verifier::external_body]
pub(crate) fn listen(event: &Event) -> (listener: EventListener) {
    event.listen()
}

/// `Event::notify` with the count one: makes sure that at least one of the listeners
/// registered with the event is notified. Nothing is claimed of what the call does to the
/// event; it is taken not to unwind, which holds as long as no waker of a listener panics
/// when it is woken.
#[verifier::external_body]
pub(crate) fn notify_one(event: &Event)
    opens_invariants none
    no_unwind
{
    event.notify(1usize);
}

} // verus!
