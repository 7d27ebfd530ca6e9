use async_time_mock::TimeHandlerGuard;
use futures_lite::future::{block_on, poll_once};

#[test]
fn should_notify_once_time_handler_guard_is_dropped() {
    block_on(async {
        let (guard, waiter) = TimeHandlerGuard::new();

        let mut waiter_future = waiter.into_listener();
        assert!(
            poll_once(&mut waiter_future).await.is_none(),
            "Waiter should have been pending before the guard is dropped",
        );

        drop(guard);
        assert!(
            poll_once(&mut waiter_future).await.is_some(),
            "Waiter should have been ready after the guard was dropped",
        );
    });
}

#[test]
fn time_handler_guard_should_notify_once_time_handler_guard_is_dropped() {
    let (guard, waiter) = TimeHandlerGuard::new();

    let mut waiter_future = waiter.into_listener();
    assert!(
        block_on(poll_once(&mut waiter_future)).is_none(),
        "Waiter should have been pending before the guard is dropped",
    );

    drop(guard);
    assert!(
        block_on(poll_once(&mut waiter_future)).is_some(),
        "Waiter should have been ready after the guard was dropped",
    );
}

#[test]
fn waiter_resolves_at_once_if_the_guard_was_dropped_before_the_first_poll() {
    let (guard, waiter) = TimeHandlerGuard::new();
    drop(guard);
    let mut waiter_future = waiter.into_listener();
    assert!(block_on(poll_once(&mut waiter_future)).is_some());
}
