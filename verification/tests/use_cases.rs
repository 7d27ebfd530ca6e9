use async_time_mock::timeout::race;
use async_time_mock::{AdvanceStep, Interval, Timeout, TimerRegistry};
use futures_lite::future::{block_on, poll_once};
use std::cell::Cell;
use std::future::Pending;
use std::rc::Rc;
use std::time::Duration;

type Task = Box<dyn FnMut(&mut TimerRegistry)>;

fn advance_time(timer_registry: &mut TimerRegistry, by: Duration, tasks: &mut [Task]) {
    let mut step = timer_registry.advance_time(by);
    loop {
        match step {
            AdvanceStep::Finished => return,
            AdvanceStep::WaitForTimer => {
                for task in tasks.iter_mut() {
                    task(timer_registry);
                }
                assert!(timer_registry.pending_timers() > 0, "no task scheduled a timer");
            }
            AdvanceStep::HandlerStarted(time_handler_finished) => {
                let mut waiter = time_handler_finished.into_listener();
                for task in tasks.iter_mut() {
                    task(timer_registry);
                }
                assert!(block_on(poll_once(&mut waiter)).is_some());
            }
        }
        step = timer_registry.continue_advance();
    }
}

/// Whether the sleep of `timeout` has fired; the guard that comes with it is released.
fn has_timed_out(timeout: &mut Timeout<Pending<()>>) -> bool {
    let (future, sleep) = timeout.parts_mut();
    let sleep_triggered = block_on(poll_once(sleep.listener_mut())).is_some();
    match race(sleep, sleep_triggered, || block_on(poll_once(future))) {
        None => false,
        Some(Ok(())) => panic!("a pending future cannot finish"),
        Some(Err(_elapsed)) => true,
    }
}

/// Whether the next tick of `interval` has come; the guard that comes with it is released.
fn has_ticked(interval: &mut Interval, timer_registry: &mut TimerRegistry) -> bool {
    let triggered = block_on(poll_once(interval.listener_mut())).is_some();
    interval.poll_tick(timer_registry, triggered).is_some()
}

#[test]
fn operation_with_timeout_triggered_by_interval() {
    let mut timer_registry = TimerRegistry::new(0);
    let operation_count = Rc::new(Cell::new(0));

    let start = timer_registry.now();

    let mut interval: Option<Interval> = None;
    let mut timeout: Option<Timeout<Pending<()>>> = None;
    let mut seconds = 0;
    let mut tasks: Vec<Task> = vec![Box::new({
        let operation_count = operation_count.clone();
        move |timer_registry| {
            if seconds == 10 {
                return;
            }
            if interval.is_none() {
                interval = Some(timer_registry.interval(Duration::from_secs(1)));
            }
            match timeout.as_mut() {
                None => {
                    if has_ticked(interval.as_mut().unwrap(), timer_registry) {
                        assert_eq!(Duration::from_secs(seconds), timer_registry.now() - start);
                        timeout = Some(timer_registry.timeout(
                            Duration::from_millis(500),
                            std::future::pending::<()>(),
                        ));
                    }
                }
                Some(pending) => {
                    if has_timed_out(pending) {
                        assert_eq!(
                            Duration::from_secs(seconds) + Duration::from_millis(500),
                            timer_registry.now() - start
                        );
                        operation_count.set(operation_count.get() + 1);
                        timeout = None;
                        seconds += 1;
                        if seconds == 10 {
                            interval = None;
                        }
                    }
                }
            }
        }
    })];

    assert_eq!(
        0,
        operation_count.get(),
        "Should not have performed an operation before advancing time"
    );

    advance_time(&mut timer_registry, Duration::ZERO, &mut tasks);
    assert_eq!(
        0,
        operation_count.get(),
        "Should not have performed operation immediately after tick finished"
    );

    advance_time(&mut timer_registry, Duration::from_millis(500), &mut tasks);
    assert_eq!(
        1,
        operation_count.get(),
        "Should have performed operation once after tick + timeout"
    );

    advance_time(&mut timer_registry, Duration::from_secs(1), &mut tasks);
    assert_eq!(
        2,
        operation_count.get(),
        "Should have performed operation twice one period after the first one"
    );

    advance_time(&mut timer_registry, Duration::from_secs(8), &mut tasks);
    assert_eq!(
        10,
        operation_count.get(),
        "Should have performed the operation 10 times once the time is over"
    );

    advance_time(&mut timer_registry, Duration::from_secs(1), &mut tasks);
    assert_eq!(
        10,
        operation_count.get(),
        "Should not have performed the operation more than 10 times"
    );
}

#[test]
fn timeout_of_the_length_of_an_interval_that_was_given_up() {
    let mut timer_registry = TimerRegistry::new(0);
    let start = timer_registry.now();

    let mut interval: Option<Interval> = None;
    let mut timeout: Option<Timeout<Pending<()>>> = None;
    let timed_out_at = Rc::new(Cell::new(None));
    let mut started = false;
    let mut tasks: Vec<Task> = vec![Box::new({
        let timed_out_at = timed_out_at.clone();
        move |timer_registry| {
            if !started {
                interval = Some(timer_registry.interval(Duration::from_secs(1)));
                started = true;
            }
            if let Some(ticking) = interval.as_mut() {
                if has_ticked(ticking, timer_registry) {
                    interval = None;
                    timeout = Some(
                        timer_registry
                            .timeout(Duration::from_secs(1), std::future::pending::<()>()),
                    );
                }
            } else if let Some(pending) = timeout.as_mut() {
                if has_timed_out(pending) {
                    timed_out_at.set(Some(timer_registry.now()));
                    timeout = None;
                }
            }
        }
    })];

    advance_time(&mut timer_registry, Duration::from_secs(2), &mut tasks);

    assert_eq!(timed_out_at.get(), Some(start + Duration::from_secs(1)));
    assert_eq!(timer_registry.now(), start + Duration::from_secs(2));
}

#[test]
fn tick_that_nobody_consumes_keeps_the_driver_waiting() {
    let mut timer_registry = TimerRegistry::new(0);
    let interval = timer_registry.interval(Duration::from_secs(1));

    let step = timer_registry.advance_time(Duration::ZERO);
    let mut waiter = match step {
        AdvanceStep::HandlerStarted(time_handler_finished) => {
            time_handler_finished.into_listener()
        }
        _ => panic!("the first tick should be due at once"),
    };
    assert!(block_on(poll_once(&mut waiter)).is_none());
    assert!(block_on(poll_once(&mut waiter)).is_none());

    drop(interval);
    assert!(block_on(poll_once(&mut waiter)).is_some());
    assert!(matches!(timer_registry.continue_advance(), AdvanceStep::Finished));
}
