use async_time_mock::timer::Timer;
use futures_lite::future::{block_on, poll_once};

#[test]
fn timer_should_trigger_timer_listener() {
    block_on(async {
        let (timer, mut listener) = Timer::new();

        assert!(
            poll_once(listener.listener_mut()).await.is_none(),
            "Future should have been pending before the timer is triggered",
        );
        assert!(listener.take_guard(false).is_none());
        let _ = timer.trigger();

        let triggered = poll_once(listener.listener_mut()).await.is_some();
        assert!(
            listener.take_guard(triggered).is_some(),
            "Future should have been ready after timer was triggered"
        );
    });
}

#[test]
fn timer_timer_should_trigger_timer_listener() {
    let (timer, mut listener) = Timer::new();
    assert!(!listener.is_finished());

    assert!(
        block_on(poll_once(listener.listener_mut())).is_none(),
        "Future should have been pending before the timer is triggered",
    );
    let _ = timer.trigger();

    assert!(
        block_on(poll_once(listener.listener_mut())).is_some(),
        "Future should have been ready after timer was triggered"
    );
}

#[test]
fn time_handler_finished_should_be_triggered_by_time_handler_completion() {
    block_on(async {
        let (timer, mut listener) = Timer::new();

        let time_handler_finished = timer.trigger();
        let triggered = poll_once(listener.listener_mut()).await.is_some();
        let time_handler_guard = listener.take_guard(triggered);
        assert!(time_handler_guard.is_some());

        let mut waiter = time_handler_finished.into_listener();
        assert!(
            poll_once(&mut waiter).await.is_none(),
            "Future should have been pending before the time handler is finished (guard dropped)",
        );

        drop(time_handler_guard);
        assert!(
            poll_once(&mut waiter).await.is_some(),
            "Future should have been ready after the time handler is finished (guard dropped)",
        );
    });
}

#[test]
fn timer_time_handler_finished_should_be_triggered_by_time_handler_completion() {
    let (timer, listener) = Timer::new();

    let time_handler_finished = timer.trigger();
    let (mut subscription, time_handler_guard) = listener.into_parts();
    assert!(block_on(poll_once(&mut subscription)).is_some());

    let mut waiter = time_handler_finished.into_listener();
    assert!(
        block_on(poll_once(&mut waiter)).is_none(),
        "Future should have been pending before the time handler is finished (guard dropped)",
    );

    drop(time_handler_guard);
    assert!(
        block_on(poll_once(&mut waiter)).is_some(),
        "Future should have been ready after the time handler is finished (guard dropped)",
    );
}

#[test]
fn listener_hands_out_its_guard_only_once() {
    let (timer, mut listener) = Timer::new();
    let _finished = timer.trigger();
    assert!(block_on(poll_once(listener.listener_mut())).is_some());

    assert!(listener.take_guard(true).is_some());
    assert!(listener.is_finished());
    assert!(listener.take_guard(true).is_none());
    assert!(listener.take_guard(false).is_none());
}

#[test]
fn dropping_the_listener_finishes_the_handler() {
    let (timer, listener) = Timer::new();
    drop(listener);
    let mut waiter = timer.trigger().into_listener();
    assert!(block_on(poll_once(&mut waiter)).is_some());
}
