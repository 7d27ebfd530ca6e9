use async_time_mock::{Instant, TimerRegistry};
use std::cmp::Ordering;
use std::time::Duration;

fn instants_from_different_timer_registries() -> (Instant, Instant) {
    let timer_registry1 = TimerRegistry::new(1);
    let timer_registry2 = TimerRegistry::new(2);

    (timer_registry1.now(), timer_registry2.now())
}

#[test]
fn instants_from_different_timer_registries_are_not_compatible() {
    let (instant1, instant2) = instants_from_different_timer_registries();
    assert!(!instant2.is_compatible_with(&instant1));
    assert!(!instant1.is_compatible_with(&instant2));
    assert!(instant1.is_compatible_with(&instant1));
}

#[test]
fn a_registry_owns_only_its_own_instants() {
    let timer_registry1 = TimerRegistry::new(1);
    let timer_registry2 = TimerRegistry::new(2);
    assert!(timer_registry1.owns(&timer_registry1.now()));
    assert!(!timer_registry1.owns(&timer_registry2.now()));
    assert!(!timer_registry2.owns(&(timer_registry1.now() + Duration::from_secs(1))));
}

#[test]
fn now_of_a_new_registry_is_its_epoch() {
    let registry = TimerRegistry::new(7);
    let now = registry.now();
    assert_eq!(now, Instant::new(Duration::ZERO, 7));
    assert_eq!(now.timer_registry_id(), 7);
    assert_eq!(now.offset_nanos(), 0);
    assert_eq!(now.into_duration(7), Duration::ZERO);
    assert_eq!(registry.current_time(), Duration::ZERO);
    assert_eq!(registry.id(), 7);
}

#[test]
fn into_duration_gives_the_time_since_the_epoch() {
    let instant = Instant::new(Duration::new(1337, 42), 0);
    assert_eq!(instant.into_duration(0), Duration::new(1337, 42));
}

#[test]
fn duration_since_is_the_difference_or_zero() {
    let early = Instant::new(Duration::from_secs(10), 3);
    let late = Instant::new(Duration::from_millis(12_500), 3);
    assert_eq!(late.duration_since(early), Duration::from_millis(2_500));
    assert_eq!(early.duration_since(late), Duration::ZERO);
    assert_eq!(late.saturated_duration_since(early), Duration::from_millis(2_500));
    assert_eq!(early.saturated_duration_since(late), Duration::ZERO);
    assert_eq!(early.duration_since(early), Duration::ZERO);
}

#[test]
fn checked_duration_since_is_none_for_a_later_instant() {
    let early = Instant::new(Duration::from_secs(10), 3);
    let late = Instant::new(Duration::from_millis(12_500), 3);
    assert_eq!(late.checked_duration_since(early), Some(Duration::from_millis(2_500)));
    assert_eq!(early.checked_duration_since(late), None);
    assert_eq!(early.checked_duration_since(early), Some(Duration::ZERO));
}

#[test]
fn checked_add_stops_at_the_longest_duration() {
    let instant = Instant::new(Duration::from_secs(10), 3);
    assert_eq!(
        instant.checked_add(Duration::from_secs(5)),
        Some(Instant::new(Duration::from_secs(15), 3))
    );
    assert_eq!(instant.checked_add(Duration::MAX), None);
    assert_eq!(
        instant.checked_add(Duration::MAX - Duration::from_secs(10)),
        Some(Instant::new(Duration::MAX, 3))
    );
    assert_eq!(instant.checked_add(Duration::MAX - Duration::new(9, 999_999_999)), None);
}

#[test]
fn checked_sub_stops_at_the_epoch() {
    let instant = Instant::new(Duration::from_secs(10), 3);
    assert_eq!(
        instant.checked_sub(Duration::from_secs(4)),
        Some(Instant::new(Duration::from_secs(6), 3))
    );
    assert_eq!(
        instant.checked_sub(Duration::from_secs(10)),
        Some(Instant::new(Duration::ZERO, 3))
    );
    assert_eq!(instant.checked_sub(Duration::new(10, 1)), None);
}

#[test]
fn operators_move_an_instant_and_keep_its_registry() {
    let instant = Instant::new(Duration::from_secs(10), 3);
    assert_eq!(instant + Duration::from_secs(5), Instant::new(Duration::from_secs(15), 3));
    assert_eq!(instant - Duration::from_secs(5), Instant::new(Duration::from_secs(5), 3));
    assert_eq!(
        (instant + Duration::from_millis(1_500)) - instant,
        Duration::from_millis(1_500)
    );

    let mut moving = instant;
    moving += Duration::from_secs(32);
    assert_eq!(moving, Instant::new(Duration::from_secs(42), 3));
    moving -= Duration::from_secs(41);
    assert_eq!(moving, Instant::new(Duration::from_secs(1), 3));
}

#[test]
fn instants_are_ordered_by_time_then_by_registry() {
    let early = Instant::new(Duration::from_secs(1), 9);
    let late = Instant::new(Duration::from_secs(2), 0);
    assert!(early < late);
    assert!(late > early);
    assert!(early <= early);
    assert_eq!(early.partial_cmp(&late), Some(Ordering::Less));
    assert_eq!(late.partial_cmp(&early), Some(Ordering::Greater));
    assert_eq!(early.partial_cmp(&early), Some(Ordering::Equal));
    assert_eq!(early.cmp(&late), Ordering::Less);

    let same_time_smaller_id = Instant::new(Duration::from_secs(2), 0);
    let same_time_larger_id = Instant::new(Duration::from_secs(2), 1);
    assert!(same_time_smaller_id < same_time_larger_id);
    assert_eq!(
        same_time_smaller_id.partial_cmp(&same_time_larger_id),
        Some(same_time_smaller_id.cmp(&same_time_larger_id))
    );
    assert_ne!(same_time_smaller_id, same_time_larger_id);
}

#[test]
fn elapsed_is_measured_on_the_registry_clock() {
    let mut registry = TimerRegistry::new(5);
    let start = registry.now();
    let _listener = registry.sleep(Duration::from_secs(1));
    let mut step = registry.advance_time(Duration::from_secs(3));
    while !matches!(step, async_time_mock::AdvanceStep::Finished) {
        step = registry.continue_advance();
    }
    assert_eq!(start.elapsed(&registry), Duration::from_secs(3));
    let later = start + Duration::from_secs(10);
    assert_eq!(later.elapsed(&registry), Duration::ZERO);
}
