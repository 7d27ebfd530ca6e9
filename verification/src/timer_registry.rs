//! The timer registry: the logical clock, the pending timers, and the engine that advances
//! the clock and fires the timers that come due.
//!
//! The registry is plain state. Whoever shares it between tasks keeps it behind a lock and
//! takes the lock for the length of one call. Advancing the clock is a sequence of such
//! calls: [`TimerRegistry::advance_time`] begins and [`TimerRegistry::continue_advance`]
//! goes on, and between two of them the driver waits for what the step handed back.
use crate::duration::{from_nanos, nanos_of, to_nanos, MAX_NANOS};
use crate::instant::Instant;
use crate::interval::{Interval, IntervalView, MissedTickBehavior};
use crate::registry_view::{
    first_after, lemma_first_after_bounds, lemma_schedule_wf, lemma_step_wf, Advance,
    PendingTimer, RegistryView, StepOutcome,
};
use crate::time_handler_guard::TimeHandlerFinished;
use crate::timeout::Timeout;
use crate::timer::{Timer, TimerListener};
use std::collections::VecDeque;
use std::time::Duration;
use vstd::prelude::*;

verus! {

/// A timer that waits in the registry.
struct ScheduledTimer {
    wake: u128,
    ticket: Ghost<nat>,
    timer: Timer,
}

/// How far the call that advances the clock has come.
enum Phase {
    Idle,
    Waiting { target: u128 },
    Draining { target: u128 },
}

/// The virtual clock and the timers that wait on it.
pub struct TimerRegistry {
    id: u64,
    current_time: u128,
    timers_by_time: VecDeque<ScheduledTimer>,
    due: VecDeque<ScheduledTimer>,
    scheduled: Ghost<nat>,
    phase: Phase,
}

/// What the driver has to do after one step of advancing the clock.
pub enum AdvanceStep {
    /// No timer has been scheduled yet. Wait until one is, then continue.
    WaitForTimer,
    /// A timer has been triggered; this is its waiter. Wait until it resolves, that is until
    /// the handler has finished, then continue.
    HandlerStarted(TimeHandlerFinished),
    /// The clock has arrived at its target. The call is over.
    Finished,
}

impl AdvanceStep {
    /// Whether this step reports `outcome`: the same kind of step, and for a triggered timer
    /// the waiter of that timer.
    pub open spec fn reports(self, outcome: StepOutcome) -> bool {
        match self {
            AdvanceStep::WaitForTimer => outcome is WaitForTimer,
            AdvanceStep::HandlerStarted(handler_finished) => outcome is Fired
                && handler_finished.ticket() == Some(outcome->Fired_0.ticket),
            AdvanceStep::Finished => outcome is Finished,
        }
    }
}

/// What the timers of a queue stand for.
spec fn model_of(timers: Seq<ScheduledTimer>) -> Seq<PendingTimer> {
    Seq::new(timers.len(), |i: int| PendingTimer { wake: timers[i].wake as nat, ticket: timers[i].ticket@ })
}

impl View for TimerRegistry {
    type V = RegistryView;

    closed spec fn view(&self) -> RegistryView {
        RegistryView {
            id: self.id,
            now: self.current_time as nat,
            pending: model_of(self.timers_by_time@),
            due: model_of(self.due@),
            scheduled: self.scheduled@,
            advance: match self.phase {
                Phase::Idle => Advance::Idle,
                Phase::Waiting { target } => Advance::Waiting { target: target as nat },
                Phase::Draining { target } => Advance::Draining { target: target as nat },
            },
        }
    }
}

impl TimerRegistry {
    /// What holds of every registry between two calls.
    pub open spec fn wf(&self) -> bool {
        self@.wf() && self.timers_carry_their_tickets()
    }

    /// Whether each timer in the registry carries the ticket under which it was scheduled.
    pub closed spec fn timers_carry_their_tickets(&self) -> bool {
        &&& forall|i: int|
            0 <= i < self.timers_by_time@.len() ==> (#[trigger] self.timers_by_time@[i]).timer.ticket()
                == Some(self.timers_by_time@[i].ticket@)
        &&& forall|i: int|
            0 <= i < self.due@.len() ==> (#[trigger] self.due@[i]).timer.ticket() == Some(
                self.due@[i].ticket@,
            )
    }

    /// A registry with the given id, whose clock stands at zero and on which no timer waits.
    /// Ids tell registries apart: no two registries of one process may share one.
    pub fn new(id: u64) -> (registry: Self)
        ensures
            registry.wf(),
            registry@ == RegistryView::fresh(id),
    {
        let registry = TimerRegistry {
            id,
            current_time: 0,
            timers_by_time: VecDeque::new(),
            due: VecDeque::new(),
            scheduled: Ghost(0),
            phase: Phase::Idle,
        };
        assert(registry@.pending =~= Seq::empty());
        assert(registry@.due =~= Seq::empty());
        registry
    }

    /// The id of this registry.
    pub fn id(&self) -> (id: u64)
        ensures
            id == self@.id,
    {
        self.id
    }

    /// The present moment on the registry's clock.
    pub fn now(&self) -> (now: Instant)
        requires
            self.wf(),
        ensures
            now@.offset == self@.now,
            now@.registry_id == self@.id,
    {
        Instant::from_offset(self.current_time, self.id)
    }

    /// The time that has passed on the registry's clock since its epoch.
    pub fn current_time(&self) -> (elapsed: Duration)
        requires
            self.wf(),
        ensures
            nanos_of(elapsed) == self@.now,
    {
        from_nanos(self.current_time)
    }

    /// Whether `instant` lies on the clock of this registry.
    pub fn owns(&self, instant: &Instant) -> (owned: bool)
        ensures
            owned == (instant@.registry_id == self@.id),
    {
        instant.timer_registry_id() == self.id
    }

    /// The number of timers that wait in the registry.
    pub fn pending_timers(&self) -> (count: usize)
        ensures
            count == self@.pending.len(),
    {
        self.timers_by_time.len()
    }

    /// Whether a call that advances the clock is under way.
    pub fn is_advancing(&self) -> (advancing: bool)
        ensures
            advancing == self@.is_advancing(),
    {
        match self.phase {
            Phase::Idle => false,
            _ => true,
        }
    }

    /// Schedules a timer that fires once the clock has been advanced by `duration`, and
    /// returns the listener on which the sleeping task waits for it.
    ///
    /// Sleeping for no time at all is not allowed, nor is a wake-up beyond what a `Duration`
    /// since the epoch can express.
    pub fn sleep(&mut self, duration: Duration) -> (listener: TimerListener)
        requires
            old(self).wf(),
            nanos_of(duration) > 0,
            old(self)@.now + nanos_of(duration) <= MAX_NANOS,
        ensures
            final(self).wf(),
            final(self)@ == old(self)@.schedule(old(self)@.now + nanos_of(duration)),
            listener.guard() is Some,
            listener.ticket() == Some(old(self)@.scheduled),
    {
        let wakeup_time: u128 = self.current_time + to_nanos(duration);
        self.schedule_timer(wakeup_time)
    }

    /// Schedules a timer that fires once the clock has reached `until`, and returns the
    /// listener on which the sleeping task waits for it.
    ///
    /// An instant that the clock has passed already is taken as it is: the timer then fires
    /// with the next step that advances the clock, and the clock never moves back for it.
    pub fn sleep_until(&mut self, until: Instant) -> (listener: TimerListener)
        requires
            old(self).wf(),
            until@.registry_id == old(self)@.id,
        ensures
            final(self).wf(),
            final(self)@ == old(self)@.schedule(until@.offset),
            listener.guard() is Some,
            listener.ticket() == Some(old(self)@.scheduled),
    {
        let wakeup_time: u128 = until.offset_nanos();
        self.schedule_timer(wakeup_time)
    }

    /// Bounds `future` by a sleep of `timeout`, scheduled as [`TimerRegistry::sleep`] does.
    pub fn timeout<F>(&mut self, timeout: Duration, future: F) -> (bounded: Timeout<F>)
        requires
            old(self).wf(),
            nanos_of(timeout) > 0,
            old(self)@.now + nanos_of(timeout) <= MAX_NANOS,
        ensures
            final(self).wf(),
            final(self)@ == old(self)@.schedule(old(self)@.now + nanos_of(timeout)),
            bounded.future() == future,
            bounded.sleep().guard() is Some,
            bounded.sleep().ticket() == Some(old(self)@.scheduled),
    {
        let sleep = self.sleep(timeout);
        Timeout::new(future, sleep)
    }

    /// Bounds `future` by a sleep until `at`, scheduled as [`TimerRegistry::sleep_until`]
    /// does.
    pub fn timeout_at<F>(&mut self, at: Instant, future: F) -> (bounded: Timeout<F>)
        requires
            old(self).wf(),
            at@.registry_id == old(self)@.id,
        ensures
            final(self).wf(),
            final(self)@ == old(self)@.schedule(at@.offset),
            bounded.future() == future,
            bounded.sleep().guard() is Some,
            bounded.sleep().ticket() == Some(old(self)@.scheduled),
    {
        let sleep = self.sleep_until(at);
        Timeout::new(future, sleep)
    }

    /// An interval whose first tick is due at the present moment and whose ticks are
    /// `period` apart.
    pub fn interval(&mut self, period: Duration) -> (interval: Interval)
        requires
            old(self).wf(),
        ensures
            final(self).wf(),
            final(self)@ == old(self)@.schedule(old(self)@.now),
            interval.wf(),
            interval.pending_ticket() == Some(old(self)@.scheduled),
            interval@ == (IntervalView {
                registry_id: old(self)@.id,
                next_deadline: old(self)@.now,
                period: nanos_of(period),
                missed_tick_behavior: MissedTickBehavior::Burst,
                missed_tick_threshold: 0,
            }),
    {
        let start = self.now();
        Interval::new(self, start, period)
    }

    /// An interval whose first tick is due at `start` and whose ticks are `period` apart.
    pub fn interval_at(&mut self, start: Instant, period: Duration) -> (interval: Interval)
        requires
            old(self).wf(),
            start@.registry_id == old(self)@.id,
        ensures
            final(self).wf(),
            final(self)@ == old(self)@.schedule(start@.offset),
            interval.wf(),
            interval.pending_ticket() == Some(old(self)@.scheduled),
            interval@ == (IntervalView {
                registry_id: old(self)@.id,
                next_deadline: start@.offset,
                period: nanos_of(period),
                missed_tick_behavior: MissedTickBehavior::Burst,
                missed_tick_threshold: 0,
            }),
    {
        Interval::new(self, start, period)
    }

    /// Puts a new timer behind the pending timers that wake at `at` or earlier.
    fn schedule_timer(&mut self, at: u128) -> (listener: TimerListener)
        requires
            old(self).wf(),
            at <= MAX_NANOS,
        ensures
            final(self).wf(),
            final(self)@ == old(self)@.schedule(at as nat),
            listener.guard() is Some,
            listener.ticket() == Some(old(self)@.scheduled),
    {
        let (timer, listener) = Timer::for_ticket(Ghost(Some(self.scheduled@)));
        let ghost pending = self@.pending;
        let ghost timers = self.timers_by_time@;
        let mut position: usize = 0;
        while position < self.timers_by_time.len() && self.timers_by_time[position].wake <= at
            invariant
                position <= self.timers_by_time.len(),
                self@.pending == pending,
                *self == *old(self),
                first_after(pending, at as nat, 0) == first_after(pending, at as nat, position as nat),
            decreases self.timers_by_time.len() - position,
        {
            position += 1;
        }
        proof {
            lemma_first_after_bounds(pending, at as nat, 0);
            lemma_schedule_wf(old(self)@, at as nat);
        }
        let ticket = Ghost(self.scheduled@);
        self.timers_by_time.insert(position, ScheduledTimer { wake: at, ticket, timer });
        self.scheduled = Ghost(self.scheduled@ + 1);
        proof {
            let added = PendingTimer { wake: at as nat, ticket: ticket@ };
            assert(self@.pending =~= pending.insert(position as int, added));
            assert(self@.due =~= old(self)@.due);
            assert forall|i: int| 0 <= i < self.timers_by_time@.len() implies (
            #[trigger] self.timers_by_time@[i]).timer.ticket() == Some(
                self.timers_by_time@[i].ticket@,
            ) by {
                if i < position {
                    assert(self.timers_by_time@[i] == timers[i]);
                } else if i > position {
                    assert(self.timers_by_time@[i] == timers[i - 1]);
                }
            }
        }
        listener
    }

    /// Begins to advance the clock by `by_duration` and makes the first step.
    ///
    /// The target is the present moment plus `by_duration`, capped at the largest time that
    /// a `Duration` since the epoch can express. Only one call may be under way at a time.
    pub fn advance_time(&mut self, by_duration: Duration) -> (step: AdvanceStep)
        requires
            old(self).wf(),
            !old(self)@.is_advancing(),
        ensures
            final(self).wf(),
            final(self)@ == old(self)@.begin_advance(nanos_of(by_duration)).step(),
            step.reports(old(self)@.begin_advance(nanos_of(by_duration)).outcome()),
    {
        let by: u128 = to_nanos(by_duration);
        let target: u128 = if by <= MAX_NANOS - self.current_time {
            self.current_time + by
        } else {
            MAX_NANOS
        };
        self.phase = Phase::Waiting { target };
        assert(self@ == old(self)@.begin_advance(nanos_of(by_duration)));
        self.continue_advance()
    }

    /// Makes the next step of the call that advances the clock.
    ///
    /// While no timer has been seen the step waits for one. After that it triggers one
    /// timer per step, in the order of their wake-up and, among equal wake-ups, in the order
    /// in which they were scheduled, as long as one wakes at or before the target. A step
    /// that finds none moves the clock to the target and ends the call. With no call under
    /// way the step reports that the call is over and changes nothing.
    pub fn continue_advance(&mut self) -> (step: AdvanceStep)
        requires
            old(self).wf(),
        ensures
            final(self).wf(),
            final(self)@ == old(self)@.step(),
            step.reports(old(self)@.outcome()),
    {
        proof {
            lemma_step_wf(self@);
        }
        let target: u128 = match self.phase {
            Phase::Idle => {
                return AdvanceStep::Finished;
            },
            Phase::Waiting { target } => {
                if self.timers_by_time.len() == 0 {
                    return AdvanceStep::WaitForTimer;
                }
                target
            },
            Phase::Draining { target } => target,
        };
        self.phase = Phase::Draining { target };
        if self.due.len() == 0 {
            if self.timers_by_time.len() > 0 && self.timers_by_time[0].wake <= target {
                self.take_bucket();
            } else {
                self.current_time = target;
                self.phase = Phase::Idle;
                return AdvanceStep::Finished;
            }
        }
        let ghost before = self.due@;
        proof {
            assert(self@.due == model_of(before));
            if old(self)@.due.len() == 0 {
                let size = old(self)@.bucket_size();
                lemma_first_after_bounds(old(self)@.pending, old(self)@.pending[0].wake, 0);
                assert(self@.due == old(self)@.pending.take(size as int));
                assert(self@.due[0] == old(self)@.pending[0]);
            }
            assert(old(self)@.outcome() == StepOutcome::Fired(self@.due[0]));
        }
        let next = self.due.pop_front();
        match next {
            Some(scheduled) => {
                assert(self@.due =~= model_of(before).drop_first());
                assert(scheduled == before[0]);
                assert(before[0].timer.ticket() == Some(before[0].ticket@));
                assert(model_of(before)[0].ticket == before[0].ticket@);
                assert forall|i: int| 0 <= i < self.due@.len() implies (
                #[trigger] self.due@[i]).timer.ticket() == Some(self.due@[i].ticket@) by {
                    assert(self.due@[i] == before[i + 1]);
                }
                AdvanceStep::HandlerStarted(scheduled.timer.trigger())
            },
            None => AdvanceStep::Finished,
        }
    }

    /// Gives up the call that advances the clock, if one is under way. The clock stays where
    /// the call has brought it. The timers of the bucket that the call was triggering are
    /// dropped with it: those not triggered yet will never fire.
    pub fn cancel_advance(&mut self)
        requires
            old(self).wf(),
        ensures
            final(self).wf(),
            final(self)@ == old(self)@.cancel_advance(),
    {
        self.due = VecDeque::new();
        self.phase = Phase::Idle;
        assert(self@.due =~= Seq::empty());
    }

    /// Takes the earliest bucket out of the pending timers and moves the clock to its
    /// wake-up, unless the clock is past it already.
    fn take_bucket(&mut self)
        requires
            old(self)@.due.len() == 0,
            old(self)@.pending.len() > 0,
            old(self).timers_carry_their_tickets(),
        ensures
            final(self).timers_carry_their_tickets(),
            final(self)@.due == old(self)@.pending.take(old(self)@.bucket_size() as int),
            final(self)@.due.len() > 0,
            final(self)@.pending == old(self)@.pending.skip(old(self)@.bucket_size() as int),
            final(self)@.now == if old(self)@.pending[0].wake > old(self)@.now {
                old(self)@.pending[0].wake
            } else {
                old(self)@.now
            },
            final(self)@.id == old(self)@.id,
            final(self)@.scheduled == old(self)@.scheduled,
            final(self)@.advance == old(self)@.advance,
    {
        let ghost pending = self@.pending;
        let wake: u128 = self.timers_by_time[0].wake;
        let mut size: usize = 0;
        while size < self.timers_by_time.len() && self.timers_by_time[size].wake <= wake
            invariant
                size <= self.timers_by_time.len(),
                *self == *old(self),
                self@.pending == pending,
                first_after(pending, wake as nat, 0) == first_after(pending, wake as nat, size as nat),
            decreases self.timers_by_time.len() - size,
        {
            size += 1;
        }
        proof {
            lemma_first_after_bounds(pending, wake as nat, 1);
            assert(pending[0].wake == wake);
        }
        let ghost timers = self.timers_by_time@;
        let mut bucket = self.timers_by_time.split_off(size);
        std::mem::swap(&mut self.timers_by_time, &mut bucket);
        self.due = bucket;
        if wake > self.current_time {
            self.current_time = wake;
        }
        proof {
            assert(self@.pending =~= pending.skip(size as int));
            assert(self@.due =~= pending.take(size as int));
            assert forall|i: int| 0 <= i < self.timers_by_time@.len() implies (
            #[trigger] self.timers_by_time@[i]).timer.ticket() == Some(
                self.timers_by_time@[i].ticket@,
            ) by {
                assert(self.timers_by_time@[i] == timers[i + size]);
            }
            assert forall|i: int| 0 <= i < self.due@.len() implies (
            #[trigger] self.due@[i]).timer.ticket() == Some(self.due@[i].ticket@) by {
                assert(self.due@[i] == timers[i]);
            }
        }
    }
}

} // verus!
