//! What follows from the way an interval chooses its deadlines.
use crate::interval::{next_deadline_after, periods_behind, MissedTickBehavior};
use vstd::prelude::*;

verus! {

/// The deadline of an interval that started at `start` after one tick for each entry of
/// `consumed_at`, the entry being the time on the clock at which that tick was consumed.
pub open spec fn deadline_after_ticks(
    start: nat,
    period: nat,
    behavior: MissedTickBehavior,
    threshold: nat,
    consumed_at: Seq<nat>,
) -> nat
    decreases consumed_at.len(),
{
    if consumed_at.len() == 0 {
        start
    } else {
        next_deadline_after(
            deadline_after_ticks(start, period, behavior, threshold, consumed_at.drop_last()),
            consumed_at.last(),
            period,
            behavior,
            threshold,
        )
    }
}

/// While no tick is consumed late, the ticks keep the raster: after `k` ticks the next one
/// is due `k` periods after the start.
pub proof fn lemma_prompt_ticks_keep_cadence(
    start: nat,
    period: nat,
    behavior: MissedTickBehavior,
    threshold: nat,
    consumed_at: Seq<nat>,
)
    requires
        forall|k: int|
            0 <= k < consumed_at.len() ==> #[trigger] consumed_at[k] <= start + k * period
                + threshold,
    ensures
        deadline_after_ticks(start, period, behavior, threshold, consumed_at) == start
            + consumed_at.len() * period,
    decreases consumed_at.len(),
{
    if consumed_at.len() > 0 {
        let earlier = consumed_at.drop_last();
        assert forall|k: int| 0 <= k < earlier.len() implies #[trigger] earlier[k] <= start + k
            * period + threshold by {
            assert(earlier[k] == consumed_at[k]);
        }
        lemma_prompt_ticks_keep_cadence(start, period, behavior, threshold, earlier);
        assert(consumed_at.last() == consumed_at[consumed_at.len() - 1]);
        assert(start + earlier.len() * period + period == start + consumed_at.len() * period)
            by (nonlinear_arith)
            requires
                earlier.len() + 1 == consumed_at.len(),
        ;
    }
}

/// An interval that always keeps the original raster does so whenever its ticks are
/// consumed.
pub proof fn lemma_burst_keeps_cadence(
    start: nat,
    period: nat,
    threshold: nat,
    consumed_at: Seq<nat>,
)
    ensures
        deadline_after_ticks(start, period, MissedTickBehavior::Burst, threshold, consumed_at)
            == start + consumed_at.len() * period,
    decreases consumed_at.len(),
{
    if consumed_at.len() > 0 {
        let earlier = consumed_at.drop_last();
        lemma_burst_keeps_cadence(start, period, threshold, earlier);
        assert(start + earlier.len() * period + period == start + consumed_at.len() * period)
            by (nonlinear_arith)
            requires
                earlier.len() + 1 == consumed_at.len(),
        ;
    }
}

/// The number of periods that a deadline is behind: with `now` lying `periods` whole periods
/// and a part of a period past `first`, it is `periods + 1`.
proof fn lemma_periods_behind(first: nat, period: nat, periods: nat, rest: nat)
    requires
        0 < rest < period,
    ensures
        periods_behind(first, first + periods * period + rest, period) == periods + 1,
{
    let behind = (periods * period + rest + period - 1) as int;
    assert((periods + 1) * period == periods * period + period) by (nonlinear_arith);
    assert(behind / (period as int) == periods + 1) by (nonlinear_arith)
        requires
            behind == (periods + 1) * period + (rest - 1),
            0 <= rest - 1 < period,
    ;
}

/// A tick that is consumed late, `periods` whole periods and a part `rest` of a period past
/// its deadline, is followed by a deadline that depends on the interval's behaviour: one
/// period after the tick; one period after the moment of consumption; or the first point of
/// the raster after that moment.
pub proof fn lemma_deadline_after_missed_tick(
    tick_time: nat,
    period: nat,
    threshold: nat,
    periods: nat,
    rest: nat,
)
    requires
        0 < rest < period,
        periods * period + rest > threshold,
    ensures
        next_deadline_after(
            tick_time,
            tick_time + periods * period + rest,
            period,
            MissedTickBehavior::Burst,
            threshold,
        ) == tick_time + period,
        next_deadline_after(
            tick_time,
            tick_time + periods * period + rest,
            period,
            MissedTickBehavior::Delay,
            threshold,
        ) == tick_time + periods * period + rest + period,
        next_deadline_after(
            tick_time,
            tick_time + periods * period + rest,
            period,
            MissedTickBehavior::Skip,
            threshold,
        ) == tick_time + (periods + 1) * period,
{
    let now = tick_time + periods * period + rest;
    assert((periods + 1) * period == periods * period + period) by (nonlinear_arith);
    if periods > 0 {
        let more = (periods - 1) as nat;
        assert(periods * period == more * period + period) by (nonlinear_arith)
            requires
                more + 1 == periods,
        ;
        assert(now == tick_time + period + more * period + rest);
        lemma_periods_behind(tick_time + period, period, more, rest);
    }
}

/// A late tick of an interval that leaves out the ticks it is behind is followed by a
/// deadline on the original raster that is not behind the moment of consumption, and by the
/// first such.
pub proof fn lemma_skip_finds_first_deadline_not_behind(
    tick_time: nat,
    now: nat,
    period: nat,
    threshold: nat,
)
    requires
        period > 0,
        now > tick_time + threshold,
    ensures
        ({
            let deadline = next_deadline_after(
                tick_time,
                now,
                period,
                MissedTickBehavior::Skip,
                threshold,
            );
            let steps = 1 + periods_behind(tick_time + period, now, period);
            &&& deadline == tick_time + steps * period
            &&& deadline >= now
            &&& steps > 1 ==> deadline - period < now
        }),
{
    let first = tick_time + period;
    let behind = periods_behind(first, now, period);
    assert((1 + behind) * period == period + behind * period) by (nonlinear_arith);
    if first < now {
        let gap = (now - first) as int;
        let padded = gap + period - 1;
        assert(behind == padded / (period as int));
        assert(behind * period <= padded && padded < behind * period + period && behind >= 1)
            by (nonlinear_arith)
            requires
                behind == padded / (period as int),
                period > 0,
                padded >= period,
        ;
    }
}

} // verus!
