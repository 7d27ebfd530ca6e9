//! The mathematical model of a timer registry: a clock, the pending timers in the order in
//! which they will fire, and the progress of the call that currently advances the clock.
use crate::duration::{saturating_sum, MAX_NANOS};
use vstd::prelude::*;

verus! {

/// A timer that waits for the clock to reach `wake`. Tickets are handed out in the order in
/// which timers are scheduled, starting at zero.
pub struct PendingTimer {
    pub wake: nat,
    pub ticket: nat,
}

/// How far a call that advances the clock has come.
pub enum Advance {
    /// No call is under way.
    Idle,
    /// A call is under way and has not seen a pending timer yet.
    Waiting { target: nat },
    /// A call is under way and fires the timers that wake up to `target`.
    Draining { target: nat },
}

/// What one step of advancing the clock did.
pub enum StepOutcome {
    /// No timer is pending: nothing changes until one is scheduled.
    WaitForTimer,
    /// This timer was triggered.
    Fired(PendingTimer),
    /// The clock has arrived at the target and the call is over.
    Finished,
}

/// The state of a timer registry.
pub struct RegistryView {
    /// Identifies the registry among all registries.
    pub id: u64,
    /// The clock: nanoseconds since the registry's epoch.
    pub now: nat,
    /// The timers that wait in the registry, earliest wake-up first; timers with the same
    /// wake-up stand in the order in which they were scheduled.
    pub pending: Seq<PendingTimer>,
    /// The rest of the bucket that the running call took out of `pending` last: the timers
    /// that it still has to trigger before it looks at `pending` again, in firing order.
    pub due: Seq<PendingTimer>,
    /// How many timers have ever been scheduled: the ticket of the next one.
    pub scheduled: nat,
    /// The progress of the call that advances the clock.
    pub advance: Advance,
}

/// The first index at or after `from` whose timer wakes later than `wake`, or the length of
/// `pending` if there is none.
pub open spec fn first_after(pending: Seq<PendingTimer>, wake: nat, from: nat) -> nat
    decreases pending.len() - from,
{
    if from >= pending.len() || pending[from as int].wake > wake {
        from
    } else {
        first_after(pending, wake, from + 1)
    }
}

/// Whether `timers` is ordered by wake-up, and by ticket among equal wake-ups.
pub open spec fn in_firing_order(timers: Seq<PendingTimer>) -> bool {
    forall|i: int, j: int|
        0 <= i < j < timers.len() ==> {
            ||| (#[trigger] timers[i]).wake < (#[trigger] timers[j]).wake
            ||| timers[i].wake == timers[j].wake && timers[i].ticket < timers[j].ticket
        }
}

/// Whether every timer of `timers` wakes no later than `limit` and has a ticket below
/// `scheduled`.
pub open spec fn all_within(timers: Seq<PendingTimer>, limit: nat, scheduled: nat) -> bool {
    forall|i: int|
        0 <= i < timers.len() ==> (#[trigger] timers[i]).wake <= limit && timers[i].ticket
            < scheduled
}

impl RegistryView {
    /// The state of a registry that has just been created.
    pub open spec fn fresh(id: u64) -> RegistryView {
        RegistryView {
            id,
            now: 0,
            pending: Seq::empty(),
            due: Seq::empty(),
            scheduled: 0,
            advance: Advance::Idle,
        }
    }

    /// What holds of every registry.
    pub open spec fn wf(self) -> bool {
        &&& self.now <= MAX_NANOS
        &&& in_firing_order(self.pending)
        &&& in_firing_order(self.due)
        &&& all_within(self.pending, MAX_NANOS as nat, self.scheduled)
        &&& all_within(self.due, self.now, self.scheduled)
        &&& forall|i: int, j: int|
            0 <= i < self.due.len() && 0 <= j < self.pending.len() && (#[trigger] self.due[i]).wake
                == (#[trigger] self.pending[j]).wake ==> self.due[i].ticket
                < self.pending[j].ticket
        &&& match self.advance {
            Advance::Idle => self.due.len() == 0,
            Advance::Waiting { target } => self.due.len() == 0 && self.now <= target <= MAX_NANOS,
            Advance::Draining { target } => self.now <= target <= MAX_NANOS,
        }
    }

    /// Whether a call that advances the clock is under way.
    pub open spec fn is_advancing(self) -> bool {
        !(self.advance is Idle)
    }

    /// Whether no timer is overdue: every pending timer wakes after the present moment, and
    /// the timers that are about to be triggered wake at the present moment.
    pub open spec fn on_schedule(self) -> bool {
        &&& forall|i: int|
            0 <= i < self.pending.len() ==> (#[trigger] self.pending[i]).wake > self.now
        &&& forall|i: int| 0 <= i < self.due.len() ==> (#[trigger] self.due[i]).wake == self.now
    }

    /// The order in which the timers known to the registry fire if none is added.
    pub open spec fn firing_order(self) -> Seq<PendingTimer> {
        self.due + self.pending
    }

    /// The registry after a timer for `wake` has been scheduled: the timer gets the next
    /// ticket and stands behind every pending timer that wakes at `wake` or earlier.
    pub open spec fn schedule(self, wake: nat) -> RegistryView {
        RegistryView {
            pending: self.pending.insert(
                first_after(self.pending, wake, 0) as int,
                PendingTimer { wake, ticket: self.scheduled },
            ),
            scheduled: self.scheduled + 1,
            ..self
        }
    }

    /// The registry after a call has begun that advances the clock by `by`. The target is
    /// fixed here and saturates at the largest time a `Duration` can express.
    pub open spec fn begin_advance(self, by: nat) -> RegistryView {
        RegistryView { advance: Advance::Waiting { target: saturating_sum(self.now, by) }, ..self }
    }

    /// The number of timers in the earliest bucket of `pending`.
    pub open spec fn bucket_size(self) -> nat {
        first_after(self.pending, self.pending[0].wake, 0)
    }

    /// One step of draining towards `target`: triggers the next timer of the bucket taken
    /// last; with that bucket used up, takes the earliest bucket that wakes up to `target`,
    /// moves the clock to its wake-up unless the clock is past it, and triggers its first
    /// timer; with no such bucket, moves the clock to `target` and ends the call.
    pub open spec fn drain(self, target: nat) -> RegistryView {
        if self.due.len() > 0 {
            RegistryView { due: self.due.drop_first(), advance: Advance::Draining { target }, ..self }
        } else if self.pending.len() > 0 && self.pending[0].wake <= target {
            let wake = self.pending[0].wake;
            RegistryView {
                now: if wake > self.now {
                    wake
                } else {
                    self.now
                },
                due: self.pending.take(self.bucket_size() as int).drop_first(),
                pending: self.pending.skip(self.bucket_size() as int),
                advance: Advance::Draining { target },
                ..self
            }
        } else {
            RegistryView { now: target, advance: Advance::Idle, ..self }
        }
    }

    /// What [`RegistryView::drain`] reports.
    pub open spec fn drain_outcome(self, target: nat) -> StepOutcome {
        if self.due.len() > 0 {
            StepOutcome::Fired(self.due[0])
        } else if self.pending.len() > 0 && self.pending[0].wake <= target {
            StepOutcome::Fired(self.pending[0])
        } else {
            StepOutcome::Finished
        }
    }

    /// The registry after one step of the running call. A call that has not seen a pending
    /// timer yet stays where it is while none is pending.
    pub open spec fn step(self) -> RegistryView {
        match self.advance {
            Advance::Idle => self,
            Advance::Waiting { target } => if self.pending.len() == 0 {
                self
            } else {
                self.drain(target)
            },
            Advance::Draining { target } => self.drain(target),
        }
    }

    /// The registry after the running call has been given up: the clock stays where the
    /// call has brought it, and the timers that the call had taken out of the pending ones
    /// and not triggered yet are gone.
    pub open spec fn cancel_advance(self) -> RegistryView {
        RegistryView { due: Seq::empty(), advance: Advance::Idle, ..self }
    }

    /// What the step from this state reports.
    pub open spec fn outcome(self) -> StepOutcome {
        match self.advance {
            Advance::Idle => StepOutcome::Finished,
            Advance::Waiting { target } => if self.pending.len() == 0 {
                StepOutcome::WaitForTimer
            } else {
                self.drain_outcome(target)
            },
            Advance::Draining { target } => self.drain_outcome(target),
        }
    }
}

/// `first_after` stays within the sequence and never goes back.
pub proof fn lemma_first_after_bounds(pending: Seq<PendingTimer>, wake: nat, from: nat)
    requires
        from <= pending.len(),
    ensures
        from <= first_after(pending, wake, from) <= pending.len(),
    decreases pending.len() - from,
{
    if from < pending.len() && pending[from as int].wake <= wake {
        lemma_first_after_bounds(pending, wake, from + 1);
    }
}

/// In a sequence in firing order, `first_after` finds the end of the run of timers that wake
/// at `wake` or earlier: each timer before it wakes at `wake` or earlier, each timer from it
/// on wakes later.
pub proof fn lemma_first_after_splits(pending: Seq<PendingTimer>, wake: nat, from: nat)
    requires
        in_firing_order(pending),
        from <= pending.len(),
    ensures
        from <= first_after(pending, wake, from) <= pending.len(),
        forall|i: int|
            from <= i < first_after(pending, wake, from) ==> (#[trigger] pending[i]).wake <= wake,
        forall|i: int|
            first_after(pending, wake, from) <= i < pending.len() ==> (#[trigger] pending[i]).wake
                > wake,
    decreases pending.len() - from,
{
    if from >= pending.len() || pending[from as int].wake > wake {
        assert forall|i: int| from <= i < pending.len() implies (#[trigger] pending[i]).wake
            > wake by {
            if i > from {
                assert(pending[from as int].wake <= pending[i].wake);
            }
        }
    } else {
        lemma_first_after_splits(pending, wake, from + 1);
    }
}

/// Scheduling a timer keeps a registry well-formed.
pub proof fn lemma_schedule_wf(v: RegistryView, wake: nat)
    requires
        v.wf(),
        wake <= MAX_NANOS,
    ensures
        v.schedule(wake).wf(),
{
    let position = first_after(v.pending, wake, 0) as int;
    lemma_first_after_splits(v.pending, wake, 0);
    let after = v.schedule(wake).pending;
    assert forall|i: int, j: int| 0 <= i < j < after.len() implies {
        ||| (#[trigger] after[i]).wake < (#[trigger] after[j]).wake
        ||| after[i].wake == after[j].wake && after[i].ticket < after[j].ticket
    } by {
        if i < position && j > position {
            assert(after[i] == v.pending[i]);
            assert(after[j] == v.pending[j - 1]);
        } else if i < position && j < position {
            assert(after[i] == v.pending[i]);
            assert(after[j] == v.pending[j]);
        } else if i > position {
            assert(after[i] == v.pending[i - 1]);
            assert(after[j] == v.pending[j - 1]);
        } else if i == position {
            assert(after[j] == v.pending[j - 1]);
        } else {
            assert(after[i] == v.pending[i]);
        }
    }
    assert forall|i: int| 0 <= i < after.len() implies (#[trigger] after[i]).wake <= MAX_NANOS
        && after[i].ticket < v.scheduled + 1 by {
        if i < position {
            assert(after[i] == v.pending[i]);
        } else if i > position {
            assert(after[i] == v.pending[i - 1]);
        }
    }
    assert forall|i: int, j: int|
        0 <= i < v.due.len() && 0 <= j < after.len() && (#[trigger] v.due[i]).wake == (
        #[trigger] after[j]).wake implies v.due[i].ticket < after[j].ticket by {
        if j < position {
            assert(after[j] == v.pending[j]);
        } else if j > position {
            assert(after[j] == v.pending[j - 1]);
        }
    }
}

/// A step of the running call keeps a registry well-formed.
pub proof fn lemma_step_wf(v: RegistryView)
    requires
        v.wf(),
    ensures
        v.step().wf(),
{
    let after = v.step();
    if v.advance is Idle || (v.advance is Waiting && v.pending.len() == 0) {
    } else if v.due.len() > 0 {
        assert forall|i: int, j: int| 0 <= i < j < after.due.len() implies {
            ||| (#[trigger] after.due[i]).wake < (#[trigger] after.due[j]).wake
            ||| after.due[i].wake == after.due[j].wake && after.due[i].ticket < after.due[j].ticket
        } by {
            assert(after.due[i] == v.due[i + 1]);
            assert(after.due[j] == v.due[j + 1]);
        }
        assert forall|i: int| 0 <= i < after.due.len() implies (#[trigger] after.due[i]).wake
            <= after.now && after.due[i].ticket < after.scheduled by {
            assert(after.due[i] == v.due[i + 1]);
        }
        assert forall|i: int, j: int|
            0 <= i < after.due.len() && 0 <= j < after.pending.len() && (
            #[trigger] after.due[i]).wake == (#[trigger] after.pending[j]).wake implies after.due[i].ticket
            < after.pending[j].ticket by {
            assert(after.due[i] == v.due[i + 1]);
        }
    } else if after.advance is Draining {
        let wake = v.pending[0].wake;
        let size = v.bucket_size() as int;
        lemma_first_after_splits(v.pending, wake, 0);
        assert(size >= 1);
        assert forall|i: int, j: int| 0 <= i < j < after.pending.len() implies {
            ||| (#[trigger] after.pending[i]).wake < (#[trigger] after.pending[j]).wake
            ||| after.pending[i].wake == after.pending[j].wake && after.pending[i].ticket
                < after.pending[j].ticket
        } by {
            assert(after.pending[i] == v.pending[i + size]);
            assert(after.pending[j] == v.pending[j + size]);
        }
        assert forall|i: int, j: int| 0 <= i < j < after.due.len() implies {
            ||| (#[trigger] after.due[i]).wake < (#[trigger] after.due[j]).wake
            ||| after.due[i].wake == after.due[j].wake && after.due[i].ticket < after.due[j].ticket
        } by {
            assert(after.due[i] == v.pending[i + 1]);
            assert(after.due[j] == v.pending[j + 1]);
        }
        assert forall|i: int| 0 <= i < after.pending.len() implies (
        #[trigger] after.pending[i]).wake <= MAX_NANOS && after.pending[i].ticket
            < after.scheduled by {
            assert(after.pending[i] == v.pending[i + size]);
        }
        assert forall|i: int| 0 <= i < after.due.len() implies (#[trigger] after.due[i]).wake
            <= after.now && after.due[i].ticket < after.scheduled by {
            assert(after.due[i] == v.pending[i + 1]);
            assert(v.pending[0].wake <= v.pending[i + 1].wake);
        }
        assert forall|i: int, j: int|
            0 <= i < after.due.len() && 0 <= j < after.pending.len() && (
            #[trigger] after.due[i]).wake == (#[trigger] after.pending[j]).wake implies after.due[i].ticket
            < after.pending[j].ticket by {
            assert(after.due[i] == v.pending[i + 1]);
            assert(after.pending[j] == v.pending[j + size]);
        }
    }
}

} // verus!
