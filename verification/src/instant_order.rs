//! The order of instants: by the time since the epoch first, by the registry id second.
use crate::instant::Instant;
use std::cmp::Ordering;
use vstd::prelude::*;
use vstd::std_specs::cmp::PartialOrdSpecImpl;

verus! {

/// How two instants compare: the earlier offset is less; on equal offsets the smaller
/// registry id is less.
pub open spec fn instant_order(a: Instant, b: Instant) -> Ordering {
    if a@.offset < b@.offset {
        Ordering::Less
    } else if a@.offset > b@.offset {
        Ordering::Greater
    } else if a@.registry_id < b@.registry_id {
        Ordering::Less
    } else if a@.registry_id > b@.registry_id {
        Ordering::Greater
    } else {
        Ordering::Equal
    }
}

impl PartialOrdSpecImpl for Instant {
    open spec fn obeys_partial_cmp_spec() -> bool {
        true
    }

    open spec fn partial_cmp_spec(&self, other: &Instant) -> Option<Ordering> {
        Some(instant_order(*self, *other))
    }
}

impl PartialOrd for Instant {
    fn partial_cmp(&self, other: &Instant) -> (order: Option<Ordering>) {
        if self.offset_nanos() < other.offset_nanos() {
            Some(Ordering::Less)
        } else if self.offset_nanos() > other.offset_nanos() {
            Some(Ordering::Greater)
        } else if self.timer_registry_id() < other.timer_registry_id() {
            Some(Ordering::Less)
        } else if self.timer_registry_id() > other.timer_registry_id() {
            Some(Ordering::Greater)
        } else {
            Some(Ordering::Equal)
        }
    }
}

} // verus!
