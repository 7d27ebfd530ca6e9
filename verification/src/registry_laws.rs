//! What follows from the model of the timer registry: the clock never runs backwards, timers
//! fire in the order of their wake-up and of their scheduling, a timer fires when the clock
//! reaches its wake-up and not before, and a call on an empty registry waits.
use crate::duration::{saturating_sum, MAX_NANOS};
use crate::registry_view::{
    first_after, in_firing_order, lemma_first_after_bounds, lemma_first_after_splits,
    lemma_schedule_wf, lemma_step_wf, Advance, PendingTimer, RegistryView,
};
use vstd::prelude::*;

verus! {

impl RegistryView {
    /// The registry after the running call has made all its steps, no timer being scheduled
    /// in between.
    pub open spec fn run(self) -> RegistryView
        decreases self.due.len() + self.pending.len(),
        via Self::run_terminates
    {
        if self.outcome() is Fired {
            self.step().run()
        } else {
            self.step()
        }
    }

    #[via_fn]
    proof fn run_terminates(self) {
        if self.outcome() is Fired && self.due.len() == 0 {
            lemma_first_after_bounds(self.pending, self.pending[0].wake, 1);
        }
    }

    /// The timers that the running call triggers on its way, in the order in which it
    /// triggers them, no timer being scheduled in between.
    pub open spec fn fired(self) -> Seq<PendingTimer>
        decreases self.due.len() + self.pending.len(),
        via Self::fired_terminates
    {
        if self.outcome() is Fired {
            seq![self.outcome()->Fired_0] + self.step().fired()
        } else {
            Seq::empty()
        }
    }

    #[via_fn]
    proof fn fired_terminates(self) {
        if self.outcome() is Fired && self.due.len() == 0 {
            lemma_first_after_bounds(self.pending, self.pending[0].wake, 1);
        }
    }

    /// The registry after one call for each entry of `deltas` has advanced the clock by that
    /// entry and run to its end, no timer being scheduled in between.
    pub open spec fn after_calls(self, deltas: Seq<nat>) -> RegistryView
        decreases deltas.len(),
    {
        if deltas.len() == 0 {
            self
        } else {
            self.after_calls(deltas.drop_last()).begin_advance(deltas.last()).run()
        }
    }

    /// The target of the running call.
    pub open spec fn target(self) -> nat {
        match self.advance {
            Advance::Idle => self.now,
            Advance::Waiting { target } => target,
            Advance::Draining { target } => target,
        }
    }
}

/// The sum of `deltas`.
pub open spec fn total(deltas: Seq<nat>) -> nat
    decreases deltas.len(),
{
    if deltas.len() == 0 {
        0
    } else {
        total(deltas.drop_last()) + deltas.last()
    }
}

/// Running a call to its end keeps a registry well-formed and leaves no bucket half
/// triggered.
pub proof fn lemma_run_wf(v: RegistryView)
    requires
        v.wf(),
    ensures
        v.run().wf(),
        !(v.run().advance is Draining),
    decreases v.due.len() + v.pending.len(),
{
    lemma_step_wf(v);
    if v.outcome() is Fired {
        if v.due.len() == 0 {
            lemma_first_after_bounds(v.pending, v.pending[0].wake, 1);
        }
        lemma_run_wf(v.step());
    }
}

/// Over any number of calls that advance the clock, the clock never runs backwards.
pub proof fn lemma_clock_never_runs_backwards_over_calls(v: RegistryView, deltas: Seq<nat>)
    requires
        v.wf(),
        !v.is_advancing(),
    ensures
        v.after_calls(deltas).wf(),
        !(v.after_calls(deltas).advance is Draining),
        v.after_calls(deltas).now >= v.now,
    decreases deltas.len(),
{
    if deltas.len() > 0 {
        lemma_clock_never_runs_backwards_over_calls(v, deltas.drop_last());
        let begun = v.after_calls(deltas.drop_last()).begin_advance(deltas.last());
        lemma_run_wf(begun);
        lemma_clock_never_runs_backwards(begun, 0, 0);
    }
}

/// The clock never runs backwards: scheduling a timer, beginning to advance and giving up
/// a call leave it where it is, and no step of advancing moves it back.
pub proof fn lemma_clock_never_runs_backwards(v: RegistryView, wake: nat, by: nat)
    requires
        v.wf(),
    ensures
        v.schedule(wake).now == v.now,
        v.begin_advance(by).now == v.now,
        v.cancel_advance().now == v.now,
        v.step().now >= v.now,
        v.run().now >= v.now,
    decreases v.due.len() + v.pending.len(),
{
    if v.outcome() is Fired {
        if v.due.len() == 0 {
            lemma_first_after_bounds(v.pending, v.pending[0].wake, 1);
        }
        lemma_step_wf(v);
        lemma_clock_never_runs_backwards(v.step(), wake, by);
    }
}

/// Each step triggers the timer at the head of the firing order and leaves the order of
/// the others as it is.
pub proof fn lemma_step_fires_head_of_firing_order(v: RegistryView)
    requires
        v.wf(),
        v.outcome() is Fired,
    ensures
        v.outcome()->Fired_0 == v.firing_order()[0],
        v.step().firing_order() == v.firing_order().drop_first(),
{
    if v.due.len() == 0 {
        lemma_first_after_bounds(v.pending, v.pending[0].wake, 1);
    }
    assert(v.step().firing_order() =~= v.firing_order().drop_first());
}

/// Scheduling a timer puts it into the firing order without changing the order of the
/// others.
pub proof fn lemma_schedule_keeps_order_of_others(v: RegistryView, wake: nat)
    requires
        v.wf(),
    ensures
        v.schedule(wake).firing_order() == v.firing_order().insert(
            (v.due.len() + first_after(v.pending, wake, 0)) as int,
            PendingTimer { wake, ticket: v.scheduled },
        ),
{
    lemma_first_after_bounds(v.pending, wake, 0);
    assert(v.schedule(wake).firing_order() =~= v.firing_order().insert(
        (v.due.len() + first_after(v.pending, wake, 0)) as int,
        PendingTimer { wake, ticket: v.scheduled },
    ));
}

/// Among timers with the same wake-up, the one that was scheduled first fires first.
pub proof fn lemma_same_wake_fires_in_scheduling_order(v: RegistryView, i: int, j: int)
    requires
        v.wf(),
        0 <= i < j < v.firing_order().len(),
        v.firing_order()[i].wake == v.firing_order()[j].wake,
    ensures
        v.firing_order()[i].ticket < v.firing_order()[j].ticket,
{
    let order = v.firing_order();
    if j < v.due.len() {
        assert(order[i] == v.due[i] && order[j] == v.due[j]);
    } else if i < v.due.len() {
        assert(order[i] == v.due[i] && order[j] == v.pending[j - v.due.len()]);
    } else {
        assert(order[i] == v.pending[i - v.due.len()] && order[j] == v.pending[j - v.due.len()]);
    }
}

/// Of two pending timers with different wake-ups, the one that wakes earlier fires first,
/// whichever was scheduled first.
pub proof fn lemma_earlier_wake_fires_first(v: RegistryView, i: int, j: int)
    requires
        v.wf(),
        0 <= i < v.pending.len(),
        0 <= j < v.pending.len(),
        v.pending[i].wake < v.pending[j].wake,
    ensures
        i < j,
{
}

/// Two sleeps scheduled for the same moment fire in the order in which they were scheduled:
/// the first stands before the second among the pending timers.
pub proof fn lemma_two_sleeps_for_one_moment(v: RegistryView, wake: nat)
    requires
        v.wf(),
        wake <= MAX_NANOS,
    ensures
        ({
            let once = v.schedule(wake);
            let twice = once.schedule(wake);
            let first = first_after(v.pending, wake, 0) as int;
            let second = first_after(once.pending, wake, 0) as int;
            &&& 0 <= first < second < twice.pending.len()
            &&& twice.pending[first] == PendingTimer { wake, ticket: v.scheduled }
            &&& twice.pending[second] == PendingTimer { wake, ticket: v.scheduled + 1 }
        }),
{
    let once = v.schedule(wake);
    let first = first_after(v.pending, wake, 0) as int;
    lemma_first_after_bounds(v.pending, wake, 0);
    lemma_schedule_wf(v, wake);
    lemma_first_after_splits(once.pending, wake, 0);
    assert(once.pending[first].wake == wake);
}

/// Two sleeps scheduled for different moments fire in the order of their wake-ups, in
/// whichever order they were scheduled: the one that wakes earlier stands before the other
/// among the pending timers.
pub proof fn lemma_two_sleeps_for_different_moments(v: RegistryView, early: nat, late: nat)
    requires
        v.wf(),
        early < late <= MAX_NANOS,
    ensures
        ({
            let after = v.schedule(early).schedule(late);
            let first = first_after(v.pending, early, 0) as int;
            let second = first_after(v.schedule(early).pending, late, 0) as int;
            &&& 0 <= first < second < after.pending.len()
            &&& after.pending[first] == PendingTimer { wake: early, ticket: v.scheduled }
            &&& after.pending[second] == PendingTimer { wake: late, ticket: v.scheduled + 1 }
        }),
        ({
            let after = v.schedule(late).schedule(early);
            let first = first_after(v.schedule(late).pending, early, 0) as int;
            let second = first_after(v.pending, late, 0) as int + 1;
            &&& 0 <= first < second < after.pending.len()
            &&& after.pending[first] == PendingTimer { wake: early, ticket: v.scheduled + 1 }
            &&& after.pending[second] == PendingTimer { wake: late, ticket: v.scheduled }
        }),
{
    lemma_first_after_bounds(v.pending, early, 0);
    lemma_first_after_bounds(v.pending, late, 0);
    let early_first = v.schedule(early);
    lemma_schedule_wf(v, early);
    lemma_first_after_splits(early_first.pending, late, 0);
    assert(early_first.pending[first_after(v.pending, early, 0) as int].wake == early);
    let late_first = v.schedule(late);
    lemma_schedule_wf(v, late);
    lemma_first_after_splits(late_first.pending, early, 0);
    assert(late_first.pending[first_after(v.pending, late, 0) as int].wake == late);
}

/// Taking the first `skipped` timers away moves the end of the run of timers that wake up to
/// `wake` by as much, provided that all of them belong to that run.
proof fn lemma_first_after_skip(pending: Seq<PendingTimer>, wake: nat, skipped: int)
    requires
        in_firing_order(pending),
        0 <= skipped <= pending.len(),
        forall|i: int| 0 <= i < skipped ==> (#[trigger] pending[i]).wake <= wake,
    ensures
        skipped <= first_after(pending, wake, 0),
        first_after(pending.skip(skipped), wake, 0) == first_after(pending, wake, 0) - skipped,
{
    let rest = pending.skip(skipped);
    assert forall|i: int, j: int| 0 <= i < j < rest.len() implies {
        ||| (#[trigger] rest[i]).wake < (#[trigger] rest[j]).wake
        ||| rest[i].wake == rest[j].wake && rest[i].ticket < rest[j].ticket
    } by {
        assert(rest[i] == pending[i + skipped]);
        assert(rest[j] == pending[j + skipped]);
    }
    lemma_first_after_splits(pending, wake, 0);
    lemma_first_after_splits(rest, wake, 0);
    let all = first_after(pending, wake, 0) as int;
    let some = first_after(rest, wake, 0) as int;
    if all < skipped {
        assert(pending[all].wake > wake);
    }
    if some < all - skipped {
        assert(rest[some] == pending[some + skipped]);
    }
    if some > all - skipped {
        assert(rest[all - skipped] == pending[all]);
    }
}

/// Taking the earliest bucket and then the timers that the rest holds up to `count` is the
/// same as taking the timers up to `size + count` at once.
proof fn lemma_bucket_then_rest(pending: Seq<PendingTimer>, size: int, count: int)
    requires
        1 <= size <= pending.len(),
        0 <= count <= pending.len() - size,
    ensures
        seq![pending[0]] + (pending.take(size).drop_first() + pending.skip(size).take(count))
            == pending.take(size + count),
        pending.skip(size).skip(count) == pending.skip(size + count),
{
    assert(seq![pending[0]] + (pending.take(size).drop_first() + pending.skip(size).take(count))
        =~= pending.take(size + count));
    assert(pending.skip(size).skip(count) =~= pending.skip(size + count));
}

/// A call that advances the clock with no timer scheduled in between triggers the timers
/// left of the last bucket and then exactly the pending timers that wake at or before the
/// target, in their order; it leaves the later ones pending and the clock at the target.
pub proof fn lemma_uninterrupted_advance(v: RegistryView)
    requires
        v.wf(),
        v.advance is Draining || (v.advance is Waiting && v.pending.len() > 0),
    ensures
        v.fired() == v.due + v.pending.take(first_after(v.pending, v.target(), 0) as int),
        v.run().pending == v.pending.skip(first_after(v.pending, v.target(), 0) as int),
        v.run().due.len() == 0,
        v.run().now == v.target(),
        v.run().advance is Idle,
        v.run().scheduled == v.scheduled,
        v.run().id == v.id,
    decreases v.due.len() + v.pending.len(),
{
    let target = v.target();
    let due_by_target = first_after(v.pending, target, 0) as int;
    lemma_first_after_bounds(v.pending, target, 0);
    lemma_step_wf(v);
    let next = v.step();
    if v.due.len() > 0 {
        lemma_uninterrupted_advance(next);
        assert(v.fired() == seq![v.due[0]] + next.fired());
        assert(seq![v.due[0]] + (v.due.drop_first() + v.pending.take(due_by_target)) =~= v.due
            + v.pending.take(due_by_target));
    } else if v.pending.len() > 0 && v.pending[0].wake <= target {
        let wake = v.pending[0].wake;
        let size = v.bucket_size() as int;
        lemma_first_after_splits(v.pending, wake, 0);
        lemma_first_after_bounds(v.pending, wake, 1);
        assert forall|i: int| 0 <= i < size implies (#[trigger] v.pending[i]).wake <= target by {}
        lemma_first_after_skip(v.pending, target, size);
        lemma_uninterrupted_advance(next);
        assert(next.pending == v.pending.skip(size));
        assert(next.due == v.pending.take(size).drop_first());
        assert(v.fired() == seq![v.pending[0]] + next.fired());
        lemma_bucket_then_rest(v.pending, size, due_by_target - size);
        assert(v.due + v.pending.take(due_by_target) =~= v.pending.take(due_by_target));
    } else {
        assert(due_by_target == 0);
        assert(v.fired() =~= v.due + v.pending.take(due_by_target));
        assert(v.run().pending =~= v.pending.skip(due_by_target));
    }
}

/// A timer never fires before the clock has reached its wake-up.
pub proof fn lemma_never_fires_early(v: RegistryView)
    requires
        v.wf(),
        v.outcome() is Fired,
    ensures
        v.outcome()->Fired_0.wake <= v.step().now,
{
    if v.due.len() > 0 {
        assert(v.due[0].wake <= v.now);
    }
}

/// While no timer is overdue, a timer fires with the clock at its wake-up exactly, and the
/// step leaves no timer overdue.
pub proof fn lemma_fires_at_its_wake_up(v: RegistryView)
    requires
        v.wf(),
        v.on_schedule(),
    ensures
        v.outcome() is Fired ==> v.step().now == v.outcome()->Fired_0.wake,
        v.step().on_schedule(),
{
    let next = v.step();
    if v.outcome() is Fired {
        if v.due.len() > 0 {
            assert(v.due[0].wake == v.now);
            assert forall|i: int| 0 <= i < next.due.len() implies (#[trigger] next.due[i]).wake
                == next.now by {
                assert(next.due[i] == v.due[i + 1]);
            }
        } else {
            let wake = v.pending[0].wake;
            let size = v.bucket_size() as int;
            lemma_first_after_splits(v.pending, wake, 0);
            lemma_first_after_bounds(v.pending, wake, 1);
            assert forall|i: int| 0 <= i < next.due.len() implies (#[trigger] next.due[i]).wake
                == next.now by {
                assert(next.due[i] == v.pending[i + 1]);
                assert(v.pending[0].wake <= v.pending[i + 1].wake);
            }
            assert forall|i: int| 0 <= i < next.pending.len() implies (
            #[trigger] next.pending[i]).wake > next.now by {
                assert(next.pending[i] == v.pending[i + size]);
            }
        }
    } else if v.outcome() is Finished && v.is_advancing() {
        assert forall|i: int| 0 <= i < next.pending.len() implies (
        #[trigger] next.pending[i]).wake > next.now by {
            assert(v.pending[0].wake <= v.pending[i].wake);
        }
    }
}

/// A sleep for more than no time leaves no timer overdue.
pub proof fn lemma_sleep_is_on_schedule(v: RegistryView, duration: nat)
    requires
        v.wf(),
        v.on_schedule(),
        duration > 0,
    ensures
        v.schedule(v.now + duration).on_schedule(),
{
    let wake = v.now + duration;
    let position = first_after(v.pending, wake, 0) as int;
    lemma_first_after_bounds(v.pending, wake, 0);
    let after = v.schedule(wake).pending;
    assert forall|i: int| 0 <= i < after.len() implies (#[trigger] after[i]).wake > v.now by {
        if i < position {
            assert(after[i] == v.pending[i]);
        } else if i > position {
            assert(after[i] == v.pending[i - 1]);
        }
    }
}

/// A pending timer fires in the next call that advances the clock exactly if that call
/// takes the clock to the timer's wake-up or beyond; otherwise it is still pending when the
/// call is over.
pub proof fn lemma_pending_timer_fires_when_clock_reaches_it(v: RegistryView, i: int, by: nat)
    requires
        v.wf(),
        !v.is_advancing(),
        0 <= i < v.pending.len(),
    ensures
        v.begin_advance(by).fired().contains(v.pending[i]) <==> v.pending[i].wake
            <= saturating_sum(v.now, by),
        v.pending[i].wake > saturating_sum(v.now, by) ==> v.begin_advance(by).run().pending.contains(
            v.pending[i],
        ),
        v.begin_advance(by).run().wf(),
        v.begin_advance(by).run().now == saturating_sum(v.now, by),
        !v.begin_advance(by).run().is_advancing(),
{
    let timer = v.pending[i];
    let begun = v.begin_advance(by);
    let target = saturating_sum(v.now, by);
    lemma_run_wf(begun);
    lemma_uninterrupted_advance(begun);
    lemma_first_after_splits(v.pending, target, 0);
    let count = first_after(v.pending, target, 0) as int;
    let fired = begun.fired();
    assert(fired =~= v.pending.take(count));
    if timer.wake <= target {
        assert(i < count);
        assert(fired[i] == timer);
    } else {
        assert(i >= count);
        assert(begun.run().pending[i - count] == timer);
        if fired.contains(timer) {
            let j = choose|j: int| 0 <= j < fired.len() && fired[j] == timer;
            assert(v.pending[j].wake <= target);
        }
    }
}

/// A pending timer is still pending after any number of calls that, taken together, do not
/// take the clock to its wake-up, and the clock has then advanced by their sum.
pub proof fn lemma_timer_stays_pending_until_reached(
    v: RegistryView,
    timer: PendingTimer,
    deltas: Seq<nat>,
)
    requires
        v.wf(),
        !v.is_advancing(),
        v.pending.contains(timer),
        v.now + total(deltas) < timer.wake,
    ensures
        v.after_calls(deltas).wf(),
        !v.after_calls(deltas).is_advancing(),
        v.after_calls(deltas).pending.contains(timer),
        v.after_calls(deltas).now == v.now + total(deltas),
    decreases deltas.len(),
{
    if deltas.len() > 0 {
        lemma_timer_stays_pending_until_reached(v, timer, deltas.drop_last());
        let before = v.after_calls(deltas.drop_last());
        let i = choose|i: int| 0 <= i < before.pending.len() && before.pending[i] == timer;
        assert(timer.wake <= MAX_NANOS);
        lemma_pending_timer_fires_when_clock_reaches_it(before, i, deltas.last());
    }
}

/// A task that sleeps for `duration` is woken by the first of the following calls with which
/// the clock has advanced by `duration` in all, and by none before it: while the calls
/// before the last have not advanced the clock by `duration`, the sleep is pending, and
/// the last call ends it exactly if it completes the `duration`.
pub proof fn lemma_sleep_ends_when_advances_add_up_to_it(
    v: RegistryView,
    duration: nat,
    deltas: Seq<nat>,
)
    requires
        v.wf(),
        !v.is_advancing(),
        duration > 0,
        v.now + duration <= MAX_NANOS,
        deltas.len() > 0,
        total(deltas.drop_last()) < duration,
    ensures
        ({
            let timer = PendingTimer { wake: v.now + duration, ticket: v.scheduled };
            let before_last = v.schedule(v.now + duration).after_calls(deltas.drop_last());
            &&& before_last.pending.contains(timer)
            &&& before_last.now == v.now + total(deltas.drop_last())
            &&& before_last.begin_advance(deltas.last()).fired().contains(timer) <==> total(deltas)
                >= duration
        }),
{
    let wake = v.now + duration;
    let timer = PendingTimer { wake, ticket: v.scheduled };
    let slept = v.schedule(wake);
    lemma_schedule_wf(v, wake);
    lemma_first_after_bounds(v.pending, wake, 0);
    assert(slept.pending[first_after(v.pending, wake, 0) as int] == timer);
    lemma_timer_stays_pending_until_reached(slept, timer, deltas.drop_last());
    let before_last = slept.after_calls(deltas.drop_last());
    let i = choose|i: int| 0 <= i < before_last.pending.len() && before_last.pending[i] == timer;
    lemma_pending_timer_fires_when_clock_reaches_it(before_last, i, deltas.last());
}

/// A sleep of `duration`, begun with no call under way, is over with the next call that
/// advances the clock exactly if that call advances it by `duration` or more.
pub proof fn lemma_sleep_ends_when_clock_reaches_it(v: RegistryView, duration: nat, by: nat)
    requires
        v.wf(),
        !v.is_advancing(),
        duration > 0,
        v.now + duration <= MAX_NANOS,
    ensures
        v.schedule(v.now + duration).begin_advance(by).fired().contains(
            PendingTimer { wake: v.now + duration, ticket: v.scheduled },
        ) <==> by >= duration,
{
    let wake = v.now + duration;
    let timer = PendingTimer { wake, ticket: v.scheduled };
    let slept = v.schedule(wake);
    let begun = slept.begin_advance(by);
    let target = saturating_sum(v.now, by);
    let position = first_after(v.pending, wake, 0) as int;
    lemma_first_after_bounds(v.pending, wake, 0);
    lemma_schedule_wf(v, wake);
    lemma_uninterrupted_advance(begun);
    lemma_first_after_splits(begun.pending, target, 0);
    let count = first_after(begun.pending, target, 0) as int;
    let fired = begun.fired();
    assert(fired =~= begun.pending.take(count));
    assert(begun.pending[position] == timer);
    if by >= duration {
        assert(wake <= target);
        assert(position < count);
        assert(fired[position] == timer);
    } else {
        assert(target < wake);
        if fired.contains(timer) {
            let i = choose|i: int| 0 <= i < fired.len() && fired[i] == timer;
            assert(begun.pending[i].wake <= target);
        }
    }
}

/// A call that finds no timer scheduled waits: its steps change nothing until a timer is
/// scheduled. Once one is, the call runs to its end and leaves the clock advanced by the
/// amount it was begun with.
pub proof fn lemma_advance_waits_for_first_timer(v: RegistryView, by: nat, wake: nat)
    requires
        v.wf(),
        !v.is_advancing(),
        v.pending.len() == 0,
        wake <= MAX_NANOS,
    ensures
        v.begin_advance(by).outcome() is WaitForTimer,
        v.begin_advance(by).step() == v.begin_advance(by),
        v.begin_advance(by).schedule(wake).run().now == saturating_sum(v.now, by),
        v.begin_advance(by).schedule(wake).run().advance is Idle,
{
    let begun = v.begin_advance(by);
    lemma_first_after_bounds(begun.pending, wake, 0);
    lemma_schedule_wf(begun, wake);
    lemma_uninterrupted_advance(begun.schedule(wake));
}

} // verus!
