//! Points on the logical clock of a timer registry.
use crate::duration::{from_nanos, nanos_of, saturating_diff, to_nanos, MAX_NANOS};
use crate::timer_registry::TimerRegistry;
use std::ops::{Add, AddAssign, Sub, SubAssign};
use std::time::Duration;
use vstd::prelude::*;
use vstd::std_specs::ops::{AddSpecImpl, SubSpecImpl};

verus! {

/// A point on the logical clock of one timer registry: the time since the registry's epoch
/// and the id of the registry that owns the clock.
///
/// Instants of different registries must never be mixed; the operations that take two
/// instants demand that both belong to the same registry.
#[derive(Copy, Clone, Debug, Hash, PartialEq, Eq, Structural, Ord)]
pub struct Instant {
    nanos: u128,
    timer_registry_id: u64,
}

/// What an [`Instant`] stands for.
pub struct InstantView {
    /// Nanoseconds since the epoch of the owning registry.
    pub offset: nat,
    /// Id of the owning registry.
    pub registry_id: u64,
}

impl View for Instant {
    type V = InstantView;

    closed spec fn view(&self) -> InstantView {
        InstantView { offset: self.nanos as nat, registry_id: self.timer_registry_id }
    }
}

impl Instant {
    #[verifier::type_invariant]
    spec fn in_range(self) -> bool {
        self.nanos <= MAX_NANOS
    }

    /// The instant `duration` after the epoch of the registry `timer_registry_id`.
    pub fn new(duration: Duration, timer_registry_id: u64) -> (instant: Self)
        ensures
            instant@.offset == nanos_of(duration),
            instant@.registry_id == timer_registry_id,
    {
        Instant { nanos: to_nanos(duration), timer_registry_id }
    }

    /// The instant `nanos` nanoseconds after the epoch of the registry `timer_registry_id`.
    pub(crate) fn from_offset(nanos: u128, timer_registry_id: u64) -> (instant: Self)
        requires
            nanos <= MAX_NANOS,
        ensures
            instant@.offset == nanos,
            instant@.registry_id == timer_registry_id,
    {
        Instant { nanos, timer_registry_id }
    }

    /// The time between the registry's epoch and this instant.
    pub fn into_duration(self, timer_registry_id: u64) -> (duration: Duration)
        requires
            self@.registry_id == timer_registry_id,
        ensures
            nanos_of(duration) == self@.offset,
    {
        proof {
            use_type_invariant(&self);
        }
        from_nanos(self.nanos)
    }

    /// Nanoseconds since the epoch of the owning registry.
    pub fn offset_nanos(&self) -> (nanos: u128)
        ensures
            nanos == self@.offset,
            nanos <= MAX_NANOS,
    {
        proof {
            use_type_invariant(self);
        }
        self.nanos
    }

    /// Id of the registry that owns this instant.
    pub fn timer_registry_id(&self) -> (id: u64)
        ensures
            id == self@.registry_id,
    {
        self.timer_registry_id
    }

    /// Whether both instants belong to the same registry.
    pub fn is_compatible_with(&self, other: &Self) -> (compatible: bool)
        ensures
            compatible == (self@.registry_id == other@.registry_id),
    {
        self.timer_registry_id == other.timer_registry_id
    }

    /// The time elapsed from `earlier` to this instant, or zero if `earlier` is later.
    pub fn duration_since(&self, earlier: Self) -> (duration: Duration)
        requires
            self@.registry_id == earlier@.registry_id,
        ensures
            nanos_of(duration) == saturating_diff(self@.offset, earlier@.offset),
    {
        self.saturated_duration_since(earlier)
    }

    /// The time elapsed from `earlier` to this instant, or `None` if `earlier` is later.
    pub fn checked_duration_since(&self, earlier: Self) -> (duration: Option<Duration>)
        requires
            self@.registry_id == earlier@.registry_id,
        ensures
            duration is Some <==> self@.offset >= earlier@.offset,
            duration is Some ==> nanos_of(duration->0) == self@.offset - earlier@.offset,
    {
        proof {
            use_type_invariant(self);
        }
        if self.nanos >= earlier.nanos {
            Some(from_nanos(self.nanos - earlier.nanos))
        } else {
            None
        }
    }

    /// The time elapsed from `earlier` to this instant, or zero if `earlier` is later.
    pub fn saturated_duration_since(&self, earlier: Self) -> (duration: Duration)
        requires
            self@.registry_id == earlier@.registry_id,
        ensures
            nanos_of(duration) == saturating_diff(self@.offset, earlier@.offset),
    {
        proof {
            use_type_invariant(self);
        }
        if self.nanos >= earlier.nanos {
            from_nanos(self.nanos - earlier.nanos)
        } else {
            from_nanos(0)
        }
    }

    /// The time that has passed on the clock of `timer_registry` since this instant, or zero
    /// if the clock has not reached it yet.
    pub fn elapsed(&self, timer_registry: &TimerRegistry) -> (duration: Duration)
        requires
            timer_registry.wf(),
            self@.registry_id == timer_registry@.id,
        ensures
            nanos_of(duration) == saturating_diff(timer_registry@.now, self@.offset),
    {
        timer_registry.now().duration_since(*self)
    }

    /// This instant moved `duration` into the future, or `None` if that lies beyond what a
    /// `Duration` since the epoch can express.
    pub fn checked_add(&self, duration: Duration) -> (sum: Option<Self>)
        ensures
            sum is Some <==> self@.offset + nanos_of(duration) <= MAX_NANOS,
            sum is Some ==> sum->0@.offset == self@.offset + nanos_of(duration),
            sum is Some ==> sum->0@.registry_id == self@.registry_id,
    {
        proof {
            use_type_invariant(self);
        }
        let delta: u128 = to_nanos(duration);
        if delta <= MAX_NANOS - self.nanos {
            Some(Instant { nanos: self.nanos + delta, timer_registry_id: self.timer_registry_id })
        } else {
            None
        }
    }

    /// This instant moved `duration` into the past, or `None` if that lies before the epoch.
    pub fn checked_sub(&self, duration: Duration) -> (difference: Option<Self>)
        ensures
            difference is Some <==> self@.offset >= nanos_of(duration),
            difference is Some ==> difference->0@.offset == self@.offset - nanos_of(duration),
            difference is Some ==> difference->0@.registry_id == self@.registry_id,
    {
        proof {
            use_type_invariant(self);
        }
        let delta: u128 = to_nanos(duration);
        if delta <= self.nanos {
            Some(Instant { nanos: self.nanos - delta, timer_registry_id: self.timer_registry_id })
        } else {
            None
        }
    }
}

impl AddSpecImpl<Duration> for Instant {
    open spec fn obeys_add_spec() -> bool {
        true
    }

    open spec fn add_req(self, rhs: Duration) -> bool {
        self@.offset + nanos_of(rhs) <= MAX_NANOS
    }

    closed spec fn add_spec(self, rhs: Duration) -> Instant {
        Instant {
            nanos: (self.nanos + nanos_of(rhs)) as u128,
            timer_registry_id: self.timer_registry_id,
        }
    }
}

impl Add<Duration> for Instant {
    type Output = Instant;

    /// This instant moved `rhs` into the future.
    fn add(self, rhs: Duration) -> (sum: Instant)
        ensures
            sum@.offset == self@.offset + nanos_of(rhs),
            sum@.registry_id == self@.registry_id,
    {
        proof {
            use_type_invariant(&self);
        }
        Instant { nanos: self.nanos + to_nanos(rhs), timer_registry_id: self.timer_registry_id }
    }
}

impl SubSpecImpl<Duration> for Instant {
    open spec fn obeys_sub_spec() -> bool {
        true
    }

    open spec fn sub_req(self, rhs: Duration) -> bool {
        self@.offset >= nanos_of(rhs)
    }

    closed spec fn sub_spec(self, rhs: Duration) -> Instant {
        Instant {
            nanos: (self.nanos - nanos_of(rhs)) as u128,
            timer_registry_id: self.timer_registry_id,
        }
    }
}

impl Sub<Duration> for Instant {
    type Output = Instant;

    /// This instant moved `rhs` into the past.
    fn sub(self, rhs: Duration) -> (difference: Instant)
        ensures
            difference@.offset == self@.offset - nanos_of(rhs),
            difference@.registry_id == self@.registry_id,
    {
        proof {
            use_type_invariant(&self);
        }
        Instant { nanos: self.nanos - to_nanos(rhs), timer_registry_id: self.timer_registry_id }
    }
}

impl SubSpecImpl<Instant> for Instant {
    open spec fn obeys_sub_spec() -> bool {
        false
    }

    open spec fn sub_req(self, rhs: Instant) -> bool {
        &&& self@.registry_id == rhs@.registry_id
        &&& self@.offset >= rhs@.offset
    }

    open spec fn sub_spec(self, rhs: Instant) -> Duration {
        arbitrary()
    }
}

impl Sub<Instant> for Instant {
    type Output = Duration;

    /// The time elapsed from `rhs` to this instant.
    fn sub(self, rhs: Instant) -> (duration: Duration)
        ensures
            nanos_of(duration) == self@.offset - rhs@.offset,
    {
        proof {
            use_type_invariant(&self);
        }
        from_nanos(self.nanos - rhs.nanos)
    }
}

impl AddAssign<Duration> for Instant {
    /// Moves this instant `rhs` into the future.
    fn add_assign(&mut self, rhs: Duration)
        requires
            old(self)@.offset + nanos_of(rhs) <= MAX_NANOS,
        ensures
            final(self)@.offset == old(self)@.offset + nanos_of(rhs),
            final(self)@.registry_id == old(self)@.registry_id,
    {
        proof {
            use_type_invariant(&*self);
        }
        self.nanos = self.nanos + to_nanos(rhs);
    }
}

impl SubAssign<Duration> for Instant {
    /// Moves this instant `rhs` into the past.
    fn sub_assign(&mut self, rhs: Duration)
        requires
            old(self)@.offset >= nanos_of(rhs),
        ensures
            final(self)@.offset == old(self)@.offset - nanos_of(rhs),
            final(self)@.registry_id == old(self)@.registry_id,
    {
        proof {
            use_type_invariant(&*self);
        }
        self.nanos = self.nanos - to_nanos(rhs);
    }
}

} // verus!
