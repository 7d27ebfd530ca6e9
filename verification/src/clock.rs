//! The clock that code under test is handed: the real one of the host runtime, or the
//! logical one of a timer registry.
use std::sync::Arc;
use vstd::prelude::*;

verus! {

/// Either the real clock or the clock of the timer registry `R` that the handle points to.
///
/// The registry type is left open: it is whatever keeps a
/// [`TimerRegistry`](crate::TimerRegistry) shared between the tasks of a test.
pub enum MockableClock<R> {
    /// Time is what the host runtime says it is.
    Real,
    /// Time is what the registry says it is.
    Mock(Arc<R>),
}

/// `Arc::clone`: another handle to the allocation that `handle` points to, so that both
/// handles read the same value.
#[verifier::external_body]
fn share<R>(handle: &Arc<R>) -> (shared: Arc<R>)
    ensures
        shared == *handle,
{
    Arc::clone(handle)
}

impl<R> MockableClock<R> {
    /// A mocked clock on `timer_registry`, together with a second handle to the registry
    /// through which the test advances the time.
    pub fn mock(timer_registry: R) -> (pair: (Self, Arc<R>))
        ensures
            pair.0 == MockableClock::Mock(pair.1),
            *pair.1 == timer_registry,
    {
        let timer_registry = Arc::new(timer_registry);
        (MockableClock::Mock(share(&timer_registry)), timer_registry)
    }

    /// Whether time is mocked.
    pub fn is_mock(&self) -> (mocked: bool)
        ensures
            mocked == (self is Mock),
    {
        match self {
            MockableClock::Real => false,
            MockableClock::Mock(_) => true,
        }
    }

    /// The registry behind a mocked clock.
    pub fn timer_registry(&self) -> (registry: Option<&Arc<R>>)
        ensures
            registry is Some <==> self is Mock,
            registry is Some ==> *registry->0 == self->Mock_0,
    {
        match self {
            MockableClock::Real => None,
            MockableClock::Mock(registry) => Some(registry),
        }
    }
}

impl<R> Clone for MockableClock<R> {
    /// Another clock that tells the same time.
    fn clone(&self) -> (copy: Self)
        ensures
            copy == *self,
    {
        match self {
            MockableClock::Real => MockableClock::Real,
            MockableClock::Mock(registry) => MockableClock::Mock(share(registry)),
        }
    }
}

} // verus!
