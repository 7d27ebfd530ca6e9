//! A future raced against a sleep on the clock of a timer registry.
use crate::time_handler_guard::TimeHandlerGuard;
use crate::timer::TimerListener;
use vstd::prelude::*;

verus! {

/// The sleep of a timeout fired before the future was done. The guard of the sleep comes
/// along: whoever handles the timeout holds it until the side effects of the timeout are
/// complete.
#[must_use]
pub struct Elapsed(pub TimeHandlerGuard);

impl Elapsed {
    /// What went wrong, in words.
    pub fn message(&self) -> (message: &'static str)
        ensures
            message@ == "Timeout elapsed."@,
    {
        "Timeout elapsed."
    }
}

/// A future together with the sleep that bounds it.
pub struct Timeout<F> {
    future: F,
    sleep: TimerListener,
}

/// What one poll of a timeout yields when the sleep is looked at first: `Elapsed` with the
/// guard of the sleep if the sleep has fired and still holds its guard, whatever the future
/// has to say; otherwise what the future yields, with a finished future's output as `Ok`.
pub open spec fn race_outcome<T>(
    sleep_triggered: bool,
    guard: Option<TimeHandlerGuard>,
    output: Option<T>,
) -> Option<Result<T, Elapsed>> {
    if sleep_triggered && guard is Some {
        Some(Err(Elapsed(guard->0)))
    } else {
        match output {
            Some(value) => Some(Ok(value)),
            None => None,
        }
    }
}

/// Makes one poll of a timeout. `sleep_triggered` says whether the sleep has fired;
/// `poll_future` polls the future and is called only if the sleep has not ended the race.
pub fn race<T, P: FnOnce() -> Option<T>>(
    sleep: &mut TimerListener,
    sleep_triggered: bool,
    poll_future: P,
) -> (outcome: Option<Result<T, Elapsed>>)
    requires
        poll_future.requires(()),
    ensures
        sleep_triggered ==> final(sleep).guard() is None,
        !sleep_triggered ==> final(sleep).guard() == old(sleep).guard(),
        final(sleep).subscription() == old(sleep).subscription(),
        final(sleep).ticket() == old(sleep).ticket(),
        sleep_triggered && old(sleep).guard() is Some ==> outcome == race_outcome::<T>(
            true,
            old(sleep).guard(),
            None,
        ),
        !(sleep_triggered && old(sleep).guard() is Some) ==> exists|output: Option<T>|
            poll_future.ensures((), output) && outcome == race_outcome(
                sleep_triggered,
                old(sleep).guard(),
                output,
            ),
{
    match sleep.take_guard(sleep_triggered) {
        Some(guard) => Some(Err(Elapsed(guard))),
        None => {
            let output = poll_future();
            let outcome = match output {
                Some(value) => Some(Ok(value)),
                None => None,
            };
            assert(outcome == race_outcome(sleep_triggered, old(sleep).guard(), output));
            outcome
        },
    }
}

impl<F> Timeout<F> {
    /// The future that the timeout bounds.
    pub closed spec fn future(&self) -> F {
        self.future
    }

    /// The sleep that bounds the future.
    pub closed spec fn sleep(&self) -> TimerListener {
        self.sleep
    }

    /// Bounds `future` by `sleep`.
    pub fn new(future: F, sleep: TimerListener) -> (timeout: Self)
        ensures
            timeout.future() == future,
            timeout.sleep() == sleep,
    {
        Timeout { future, sleep }
    }

    /// The future that the timeout bounds.
    pub fn get_ref(&self) -> (future: &F)
        ensures
            *future == self.future(),
    {
        &self.future
    }

    /// The future that the timeout bounds, to change it.
    pub fn get_mut(&mut self) -> (future: &mut F)
        ensures
            *future == old(self).future(),
            final(self).future() == *final(future),
            final(self).sleep() == old(self).sleep(),
    {
        &mut self.future
    }

    /// Gives up the timeout and hands back the future.
    pub fn into_inner(self) -> (future: F)
        ensures
            future == self.future(),
    {
        self.future
    }

    /// The future and the sleep that bounds it, each to poll on its own.
    pub fn parts_mut(&mut self) -> (parts: (&mut F, &mut TimerListener))
        ensures
            *parts.0 == old(self).future(),
            *parts.1 == old(self).sleep(),
            final(self).future() == *final(parts.0),
            final(self).sleep() == *final(parts.1),
    {
        (&mut self.future, &mut self.sleep)
    }

    /// Takes the timeout apart into the future and the sleep that bounds it.
    pub fn into_parts(self) -> (parts: (F, TimerListener))
        ensures
            parts.0 == self.future(),
            parts.1 == self.sleep(),
    {
        let Timeout { future, sleep } = self;
        (future, sleep)
    }
}

} // verus!
