use async_time_mock::timeout::race;
use async_time_mock::{AdvanceStep, Elapsed, Timeout, TimerRegistry};
use futures_lite::future::{block_on, poll_once};
use std::cell::Cell;
use std::future::Future;
use std::rc::Rc;
use std::time::Duration;

type Task = Box<dyn FnMut(&mut TimerRegistry)>;

/// Polls a timeout once.
fn poll_timeout<F: Future + Unpin>(timeout: &mut Timeout<F>) -> Option<Result<F::Output, Elapsed>> {
    let (future, sleep) = timeout.parts_mut();
    let sleep_triggered =
        !sleep.is_finished() && block_on(poll_once(sleep.listener_mut())).is_some();
    race(sleep, sleep_triggered, || block_on(poll_once(future)))
}

fn advance_time(timer_registry: &mut TimerRegistry, by: Duration, tasks: &mut [Task]) {
    let mut step = timer_registry.advance_time(by);
    loop {
        match step {
            AdvanceStep::Finished => return,
            AdvanceStep::WaitForTimer => {
                for task in tasks.iter_mut() {
                    task(timer_registry);
                }
                assert!(timer_registry.pending_timers() > 0, "no task scheduled a timer");
            }
            AdvanceStep::HandlerStarted(time_handler_finished) => {
                let mut waiter = time_handler_finished.into_listener();
                for task in tasks.iter_mut() {
                    task(timer_registry);
                }
                assert!(block_on(poll_once(&mut waiter)).is_some());
            }
        }
        step = timer_registry.continue_advance();
    }
}

#[test]
fn timeout_should_finish_immediately() {
    let mut timer_registry = TimerRegistry::new(0);

    let mut timeout = timer_registry.timeout(Duration::from_secs(10), std::future::ready(()));
    let result = poll_timeout(&mut timeout).expect("Timer should have finished immediately.");
    assert!(result.is_ok(), "Timer should have finished immediately.");
}

#[test]
fn timeout_should_time_out() {
    let mut timer_registry = TimerRegistry::new(0);
    let start = timer_registry.now();
    let has_timed_out = Rc::new(Cell::new(false));

    let mut timeout: Option<Timeout<std::future::Pending<()>>> = None;
    let mut tasks: Vec<Task> = vec![Box::new({
        let has_timed_out = has_timed_out.clone();
        move |timer_registry| {
            let bounded = timeout.get_or_insert_with(|| {
                timer_registry.timeout(Duration::from_secs(10), std::future::pending())
            });
            match poll_timeout(bounded) {
                None => {}
                Some(Ok(())) => panic!("Pending future should not have succeeded"),
                Some(Err(_elapsed)) => {
                    has_timed_out.set(true);
                    assert_eq!(Duration::from_secs(10), timer_registry.now() - start);
                }
            }
        }
    })];

    assert!(
        !has_timed_out.get(),
        "Should not have timed out before the time was advanced"
    );
    advance_time(&mut timer_registry, Duration::from_secs(10), &mut tasks);
    assert!(has_timed_out.get(), "Should have timed out after advancing time");
}

#[test]
fn timeout_at_should_finish_immediately() {
    let mut timer_registry = TimerRegistry::new(0);
    let now = timer_registry.now();

    let mut timeout =
        timer_registry.timeout_at(now + Duration::from_secs(10), std::future::ready(()));
    let result = poll_timeout(&mut timeout).expect("Timer should have finished immediately.");
    assert!(result.is_ok(), "Timer should have finished immediately.");
}

#[test]
fn timeout_at_should_time_out() {
    let mut timer_registry = TimerRegistry::new(0);
    let start = timer_registry.now();
    let has_timed_out = Rc::new(Cell::new(false));

    let mut timeout: Option<Timeout<std::future::Pending<()>>> = None;
    let mut tasks: Vec<Task> = vec![Box::new({
        let has_timed_out = has_timed_out.clone();
        move |timer_registry| {
            let bounded = timeout.get_or_insert_with(|| {
                timer_registry.timeout_at(start + Duration::from_secs(10), std::future::pending())
            });
            match poll_timeout(bounded) {
                None => {}
                Some(Ok(())) => panic!("Pending future should not have succeeded"),
                Some(Err(_elapsed)) => {
                    has_timed_out.set(true);
                    assert_eq!(Duration::from_secs(10), timer_registry.now() - start);
                }
            }
        }
    })];

    assert!(
        !has_timed_out.get(),
        "Should not have timed out before the time was advanced"
    );
    advance_time(&mut timer_registry, Duration::from_secs(10), &mut tasks);
    assert!(has_timed_out.get(), "Should have timed out after advancing time");
}

#[test]
fn sleep_wins_if_both_are_ready_at_the_same_poll() {
    let mut timer_registry = TimerRegistry::new(0);
    let mut timeout = timer_registry.timeout(Duration::from_secs(1), std::future::ready(7));
    let mut step = timer_registry.advance_time(Duration::from_secs(1));
    let mut waiter = match step {
        AdvanceStep::HandlerStarted(time_handler_finished) => {
            time_handler_finished.into_listener()
        }
        _ => panic!("the sleep of the timeout should have fired"),
    };

    let polled_future = Rc::new(Cell::new(false));
    let (future, sleep) = timeout.parts_mut();
    let sleep_triggered = block_on(poll_once(sleep.listener_mut())).is_some();
    assert!(sleep_triggered);
    let outcome = race(sleep, sleep_triggered, || {
        polled_future.set(true);
        block_on(poll_once(future))
    });
    assert!(matches!(outcome, Some(Err(Elapsed(_)))));
    assert!(!polled_future.get(), "the future must not be polled once the sleep has fired");

    assert!(block_on(poll_once(&mut waiter)).is_none(), "the guard is still held");
    drop(outcome);
    assert!(block_on(poll_once(&mut waiter)).is_some());
    step = timer_registry.continue_advance();
    assert!(matches!(step, AdvanceStep::Finished));
}

#[test]
fn race_is_pending_while_neither_is_ready() {
    let mut timer_registry = TimerRegistry::new(0);
    let mut sleep = timer_registry.sleep(Duration::from_secs(1));
    let outcome: Option<Result<u8, Elapsed>> = race(&mut sleep, false, || None);
    assert!(outcome.is_none());
    assert!(!sleep.is_finished());
}

#[test]
fn race_yields_the_output_of_the_future_while_the_sleep_is_pending() {
    let mut timer_registry = TimerRegistry::new(0);
    let mut sleep = timer_registry.sleep(Duration::from_secs(1));
    let outcome = race(&mut sleep, false, || Some(42));
    assert!(matches!(outcome, Some(Ok(42))));
    assert!(!sleep.is_finished());
}

#[test]
fn elapsed_says_what_happened() {
    let mut timer_registry = TimerRegistry::new(0);
    let mut sleep = timer_registry.sleep(Duration::from_secs(1));
    let guard = sleep.take_guard(true).expect("a new sleep holds its guard");
    assert_eq!(Elapsed(guard).message(), "Timeout elapsed.");
}

#[test]
fn timeout_gives_access_to_its_future() {
    let mut timer_registry = TimerRegistry::new(0);
    let mut timeout = timer_registry.timeout(Duration::from_secs(1), 5u32);
    assert_eq!(*timeout.get_ref(), 5);
    *timeout.get_mut() = 6;
    assert_eq!(*timeout.get_ref(), 6);
    assert_eq!(timeout.into_inner(), 6);

    let timeout = timer_registry.timeout(Duration::from_secs(1), "future");
    let (future, sleep) = timeout.into_parts();
    assert_eq!(future, "future");
    assert!(!sleep.is_finished());
}
