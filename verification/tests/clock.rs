use async_time_mock::{MockableClock, TimerRegistry};
use std::sync::{Arc, Mutex};
use std::time::Duration;

#[test]
fn mock_clock_and_handle_share_one_registry() {
    let (clock, timer_registry) = MockableClock::mock(Mutex::new(TimerRegistry::new(11)));
    assert!(clock.is_mock());
    let behind_clock = clock.timer_registry().expect("a mocked clock has a registry");
    assert!(Arc::ptr_eq(behind_clock, &timer_registry));

    drop(timer_registry.lock().unwrap().sleep(Duration::from_secs(1)));
    assert_eq!(behind_clock.lock().unwrap().pending_timers(), 1);
    assert_eq!(behind_clock.lock().unwrap().id(), 11);
}

#[test]
fn clone_of_a_mock_clock_points_to_the_same_registry() {
    let (clock, timer_registry) = MockableClock::mock(TimerRegistry::new(12));
    let copy = clock.clone();
    assert!(Arc::ptr_eq(copy.timer_registry().unwrap(), &timer_registry));
    assert_eq!(Arc::strong_count(&timer_registry), 3);
}

#[test]
fn real_clock_has_no_registry() {
    let clock: MockableClock<TimerRegistry> = MockableClock::Real;
    assert!(!clock.is_mock());
    assert!(clock.timer_registry().is_none());
    assert!(!clock.clone().is_mock());
}
