//! Periodic ticks on the clock of a timer registry.
//!
//! An interval keeps one sleep pending in the registry. When that sleep fires the interval
//! hands out the guard together with the time of the tick, decides when the next tick is
//! due and schedules the sleep for it.
use crate::duration::{from_nanos, nanos_of, to_nanos, MAX_NANOS};
use crate::instant::Instant;
use crate::time_handler_guard::TimeHandlerGuard;
use crate::timer::TimerListener;
use crate::timer_registry::TimerRegistry;
use event_listener::EventListener;
use std::time::Duration;
use vstd::prelude::*;

verus! {

/// What an interval does about a tick that is consumed late.
#[derive(Copy, Clone, Debug, PartialEq, Eq, Structural)]
pub enum MissedTickBehavior {
    /// Keep the original raster; the ticks that are behind follow one another at once.
    Burst,
    /// Start a new raster at the moment the late tick is consumed.
    Delay,
    /// Keep the original raster and leave out the ticks that are behind.
    Skip,
}

/// The number of periods to add to `first` so that it is not behind `now`.
pub open spec fn periods_behind(first: nat, now: nat, period: nat) -> nat {
    if first >= now || period == 0 {
        0
    } else {
        (((now - first) + period - 1) / (period as int)) as nat
    }
}

/// The deadline that follows the tick at `tick_time` when that tick is consumed at `now`.
///
/// A tick is late if `now` is more than `threshold` past it. The deadline after a tick that
/// is not late lies one period after the tick. After a late tick it depends on `behavior`:
/// one period after the tick; one period after `now`; or the first point of the raster
/// after the tick that is not behind `now`.
pub open spec fn next_deadline_after(
    tick_time: nat,
    now: nat,
    period: nat,
    behavior: MissedTickBehavior,
    threshold: nat,
) -> nat {
    if now > tick_time + threshold {
        match behavior {
            MissedTickBehavior::Burst => tick_time + period,
            MissedTickBehavior::Delay => now + period,
            MissedTickBehavior::Skip => tick_time + period + periods_behind(
                tick_time + period,
                now,
                period,
            ) * period,
        }
    } else {
        tick_time + period
    }
}

/// An interval: the pending sleep, the time of the next tick, the period, and what to do
/// about late ticks.
pub struct Interval {
    sleep: TimerListener,
    next_deadline: Instant,
    period: u128,
    missed_tick_behavior: MissedTickBehavior,
    missed_tick_threshold: u128,
}

/// What an [`Interval`] stands for.
pub struct IntervalView {
    /// The registry on whose clock the interval ticks.
    pub registry_id: u64,
    /// When the next tick is due, in nanoseconds since the registry's epoch.
    pub next_deadline: nat,
    /// The time between two ticks, in nanoseconds.
    pub period: nat,
    /// What happens after a late tick.
    pub missed_tick_behavior: MissedTickBehavior,
    /// How far past its deadline a tick may be consumed without being late.
    pub missed_tick_threshold: nat,
}

impl View for Interval {
    type V = IntervalView;

    closed spec fn view(&self) -> IntervalView {
        IntervalView {
            registry_id: self.next_deadline@.registry_id,
            next_deadline: self.next_deadline@.offset,
            period: self.period as nat,
            missed_tick_behavior: self.missed_tick_behavior,
            missed_tick_threshold: self.missed_tick_threshold as nat,
        }
    }
}

impl IntervalView {
    /// The deadline that follows the next tick when that tick is consumed at `now`.
    pub open spec fn deadline_after_tick(self, now: nat) -> nat {
        next_deadline_after(
            self.next_deadline,
            now,
            self.period,
            self.missed_tick_behavior,
            self.missed_tick_threshold,
        )
    }
}

impl Interval {
    /// What holds of every interval: its numbers are times that a `Duration` can express,
    /// and its pending sleep still holds its guard.
    pub closed spec fn wf(&self) -> bool {
        &&& self.period <= MAX_NANOS
        &&& self.missed_tick_threshold <= MAX_NANOS
        &&& self.next_deadline@.offset <= MAX_NANOS
        &&& self.sleep.guard() is Some
    }

    /// The guard that the next tick hands out.
    pub closed spec fn pending_guard(&self) -> TimeHandlerGuard {
        self.sleep.guard()->0
    }

    /// The ticket under which the registry scheduled the pending sleep.
    pub closed spec fn pending_ticket(&self) -> Option<nat> {
        self.sleep.ticket()
    }

    /// The subscription of the pending sleep to the event of its timer.
    pub closed spec fn pending_subscription(&self) -> EventListener {
        self.sleep.subscription()
    }

    /// An interval on `timer_registry` whose first tick is due at `start` and whose ticks
    /// are `period` apart. Late ticks are treated as [`MissedTickBehavior::Burst`] says, and
    /// every tick consumed after its deadline counts as late.
    pub fn new(timer_registry: &mut TimerRegistry, start: Instant, period: Duration) -> (interval:
        Self)
        requires
            old(timer_registry).wf(),
            start@.registry_id == old(timer_registry)@.id,
        ensures
            final(timer_registry).wf(),
            final(timer_registry)@ == old(timer_registry)@.schedule(start@.offset),
            interval.wf(),
            interval.pending_ticket() == Some(old(timer_registry)@.scheduled),
            interval@ == (IntervalView {
                registry_id: start@.registry_id,
                next_deadline: start@.offset,
                period: nanos_of(period),
                missed_tick_behavior: MissedTickBehavior::Burst,
                missed_tick_threshold: 0,
            }),
    {
        let _ = start.offset_nanos();
        let sleep = timer_registry.sleep_until(start);
        Interval {
            sleep,
            next_deadline: start,
            period: to_nanos(period),
            missed_tick_behavior: MissedTickBehavior::Burst,
            missed_tick_threshold: 0,
        }
    }

    /// The subscription of the pending sleep, to wait on before [`Interval::poll_tick`] is
    /// called with `true`.
    pub fn listener_mut(&mut self) -> (listener: &mut EventListener)
        requires
            old(self).wf(),
        ensures
            *listener == old(self).pending_subscription(),
            final(self).pending_subscription() == *final(listener),
            final(self)@ == old(self)@,
            final(self).wf(),
            final(self).pending_guard() == old(self).pending_guard(),
            final(self).pending_ticket() == old(self).pending_ticket(),
    {
        self.sleep.listener_mut()
    }

    /// The deadline that would follow the next tick if that tick were consumed at `now`, or
    /// `None` if it lies beyond what a `Duration` since the epoch can express.
    pub fn deadline_after_tick(&self, now: Instant) -> (deadline: Option<Instant>)
        requires
            self.wf(),
            now@.registry_id == self@.registry_id,
        ensures
            deadline is Some <==> self@.deadline_after_tick(now@.offset) <= MAX_NANOS,
            deadline is Some ==> deadline->0@.offset == self@.deadline_after_tick(now@.offset),
            deadline is Some ==> deadline->0@.registry_id == self@.registry_id,
    {
        let tick_time: u128 = self.next_deadline.offset_nanos();
        let now: u128 = now.offset_nanos();
        let on_raster: u128 = tick_time + self.period;
        let late: bool = now > tick_time + self.missed_tick_threshold;
        let deadline: u128 = if !late {
            on_raster
        } else {
            match self.missed_tick_behavior {
                MissedTickBehavior::Burst => on_raster,
                MissedTickBehavior::Delay => now + self.period,
                MissedTickBehavior::Skip => {
                    if on_raster >= now || self.period == 0 {
                        on_raster
                    } else {
                        let behind: u128 = now - on_raster + self.period - 1;
                        let periods: u128 = behind / self.period;
                        assert(periods * self.period <= behind) by (nonlinear_arith)
                            requires
                                periods == behind / self.period,
                                self.period > 0,
                        ;
                        on_raster + periods * self.period
                    }
                },
            }
        };
        if deadline <= MAX_NANOS {
            Some(Instant::from_offset(deadline, self.next_deadline.timer_registry_id()))
        } else {
            None
        }
    }

    /// Reacts to one poll of the pending sleep.
    ///
    /// While the sleep has not fired, nothing is handed out and nothing changes. Once it
    /// has, the tick is handed out: the guard of the sleep and the time at which the tick
    /// was due. The interval then moves on to the deadline that follows the tick, as the
    /// present moment on the registry's clock and the interval's treatment of late ticks
    /// determine it, and schedules the sleep for that deadline.
    pub fn poll_tick(&mut self, timer_registry: &mut TimerRegistry, triggered: bool) -> (tick:
        Option<(TimeHandlerGuard, Instant)>)
        requires
            old(self).wf(),
            old(timer_registry).wf(),
            old(timer_registry)@.id == old(self)@.registry_id,
            triggered ==> old(self)@.deadline_after_tick(old(timer_registry)@.now) <= MAX_NANOS,
        ensures
            final(self).wf(),
            final(timer_registry).wf(),
            !triggered ==> {
                &&& tick is None
                &&& final(self)@ == old(self)@
                &&& final(timer_registry)@ == old(timer_registry)@
                &&& final(self).pending_guard() == old(self).pending_guard()
                &&& final(self).pending_ticket() == old(self).pending_ticket()
                &&& final(self).pending_subscription() == old(self).pending_subscription()
            },
            triggered ==> final(self).pending_ticket() == Some(old(timer_registry)@.scheduled),
            triggered ==> match tick {
                Some((guard, tick_time)) => {
                    &&& guard == old(self).pending_guard()
                    &&& tick_time@.offset == old(self)@.next_deadline
                    &&& tick_time@.registry_id == old(self)@.registry_id
                },
                None => false,
            },
            triggered ==> final(self)@ == (IntervalView {
                next_deadline: old(self)@.deadline_after_tick(old(timer_registry)@.now),
                ..old(self)@
            }),
            triggered ==> final(timer_registry)@ == old(timer_registry)@.schedule(
                final(self)@.next_deadline,
            ),
    {
        if !triggered {
            return None;
        }
        let tick_time = self.next_deadline;
        let now = timer_registry.now();
        let deadline = self.deadline_after_tick(now);
        match (self.sleep.take_guard(true), deadline) {
            (Some(guard), Some(next_deadline)) => {
                self.next_deadline = next_deadline;
                self.sleep = timer_registry.sleep_until(next_deadline);
                Some((guard, tick_time))
            },
            _ => None,
        }
    }

    /// Starts a new raster one period after the present moment on the registry's clock: the
    /// pending sleep is given up and a sleep for the new deadline is scheduled.
    pub fn reset(&mut self, timer_registry: &mut TimerRegistry)
        requires
            old(self).wf(),
            old(timer_registry).wf(),
            old(timer_registry)@.id == old(self)@.registry_id,
            old(timer_registry)@.now + old(self)@.period <= MAX_NANOS,
        ensures
            final(self).wf(),
            final(timer_registry).wf(),
            final(self)@ == (IntervalView {
                next_deadline: old(timer_registry)@.now + old(self)@.period,
                ..old(self)@
            }),
            final(timer_registry)@ == old(timer_registry)@.schedule(final(self)@.next_deadline),
            final(self).pending_ticket() == Some(old(timer_registry)@.scheduled),
    {
        let now = timer_registry.now();
        let next_deadline = Instant::from_offset(
            now.offset_nanos() + self.period,
            self.next_deadline.timer_registry_id(),
        );
        self.next_deadline = next_deadline;
        self.sleep = timer_registry.sleep_until(next_deadline);
    }

    /// The time between two ticks.
    pub fn period(&self) -> (period: Duration)
        requires
            self.wf(),
        ensures
            nanos_of(period) == self@.period,
    {
        from_nanos(self.period)
    }

    /// When the next tick is due.
    pub fn next_deadline(&self) -> (deadline: Instant)
        ensures
            deadline@.offset == self@.next_deadline,
            deadline@.registry_id == self@.registry_id,
    {
        self.next_deadline
    }

    /// What the interval does about a late tick.
    pub fn missed_tick_behavior(&self) -> (behavior: MissedTickBehavior)
        ensures
            behavior == self@.missed_tick_behavior,
    {
        self.missed_tick_behavior
    }

    /// Sets what the interval does about a late tick.
    pub fn set_missed_tick_behavior(&mut self, missed_tick_behavior: MissedTickBehavior)
        requires
            old(self).wf(),
        ensures
            final(self)@ == (IntervalView { missed_tick_behavior, ..old(self)@ }),
            final(self).wf(),
            final(self).pending_guard() == old(self).pending_guard(),
            final(self).pending_ticket() == old(self).pending_ticket(),
            final(self).pending_subscription() == old(self).pending_subscription(),
    {
        self.missed_tick_behavior = missed_tick_behavior;
    }

    /// Sets how far past its deadline a tick may be consumed without being late.
    pub fn set_missed_tick_threshold(&mut self, threshold: Duration)
        requires
            old(self).wf(),
        ensures
            final(self)@ == (IntervalView {
                missed_tick_threshold: nanos_of(threshold),
                ..old(self)@
            }),
            final(self).wf(),
            final(self).pending_guard() == old(self).pending_guard(),
            final(self).pending_ticket() == old(self).pending_ticket(),
            final(self).pending_subscription() == old(self).pending_subscription(),
    {
        self.missed_tick_threshold = to_nanos(threshold);
    }
}

} // verus!
