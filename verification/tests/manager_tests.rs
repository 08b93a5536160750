//! Scenario tests for the manager's loop logic, driven synchronously: the
//! non-blocking channel operations need no runtime, so each test plays the
//! role of the loop by feeding observed events to `step`.

use timer_manager::{
    LoopEvent, TimerCommand, TimerEvent, TimerHandle, TimerManager, TrySendFailure,
};
use tokio_util::sync::CancellationToken;

fn pair(heartbeat: u64, cmd_cap: usize, ev_cap: usize) -> (TimerManager, TimerHandle) {
    TimerManager::new(
        "test".to_string(),
        heartbeat,
        cmd_cap,
        ev_cap,
        CancellationToken::new(),
    )
}

/// Feed every queued command to the manager at time `now`, as the loop
/// would; the result says whether some command asked the loop to stop.
fn pump(manager: &mut TimerManager, now: u64) -> bool {
    let mut stop = false;
    while let Ok(command) = manager.try_recv_command() {
        let cancelled = manager.cancel_token.is_cancelled();
        if manager.step(LoopEvent::Command(command), now, cancelled) {
            stop = true;
            break;
        }
    }
    stop
}

fn expect_expired(handle: &mut TimerHandle, want: &str) {
    match handle.try_recv_event() {
        Ok(TimerEvent::TimerExpired { name }) => assert_eq!(name, want),
        other => panic!("expected an expiration event for {want:?}, got {other:?}"),
    }
}

fn expect_no_event(handle: &mut TimerHandle) {
    assert!(handle.try_recv_event().is_err());
}

#[test]
fn test_timer_basic_functionality() {
    let (mut manager, mut handle) = pair(10, 10, 10);

    handle.try_set_timer("test_timer".to_string(), 50).unwrap();
    pump(&mut manager, 0);

    // a scan before the deadline fires nothing
    manager.step(LoopEvent::Heartbeat, 49, false);
    expect_no_event(&mut handle);

    // the first scan at or after the deadline fires the timer
    manager.step(LoopEvent::Heartbeat, 50, false);
    expect_expired(&mut handle, "test_timer");

    handle.try_shutdown().unwrap();
    assert!(pump(&mut manager, 60));
}

#[test]
fn test_timer_cancel() {
    let (mut manager, mut handle) = pair(10, 10, 10);

    handle.try_set_timer("test_timer".to_string(), 100).unwrap();
    pump(&mut manager, 0);

    handle.try_cancel_timer("test_timer".to_string()).unwrap();
    pump(&mut manager, 10);

    // well past the deadline, with margin beyond one heartbeat period
    manager.step(LoopEvent::Heartbeat, 150, false);
    manager.step(LoopEvent::Heartbeat, 300, false);
    expect_no_event(&mut handle);

    handle.try_shutdown().unwrap();
    assert!(pump(&mut manager, 310));
}

#[test]
fn test_bounded_channel_backpressure() {
    let (manager, handle) = pair(10, 2, 2);

    // fill the command channel; nothing consumes it yet
    handle.try_set_timer("timer1".to_string(), 50).unwrap();
    handle.try_set_timer("timer2".to_string(), 50).unwrap();

    // the third non-blocking send fails in a well-defined way: the exact
    // command comes back marked `Full`
    match handle.try_set_timer("timer3".to_string(), 50) {
        Err(TrySendFailure::Full(TimerCommand::SetTimer { name, duration })) => {
            assert_eq!(name, "timer3");
            assert_eq!(duration, 50);
        },
        other => panic!("expected the command back as full, got {other:?}"),
    }

    drop(manager);
}

#[test]
fn test_cancellation_token() {
    let token = CancellationToken::new();
    let (mut manager, mut handle) = TimerManager::new(
        "test".to_string(),
        10,
        10,
        10,
        token.clone(),
    );

    handle.try_set_timer("timer1".to_string(), 50).unwrap();

    // the signal fires before the command is dispatched: the loop stops
    // without processing it
    token.cancel();
    let command = manager.try_recv_command().unwrap();
    let stop = manager.step(
        LoopEvent::Command(command),
        0,
        manager.cancel_token.is_cancelled(),
    );
    assert!(stop);
    drop(manager);

    let result = handle.try_set_timer("timer2".to_string(), 50);
    assert!(result.is_err(), "Setting timer after cancellation should fail");
    assert!(
        handle.try_recv_event().is_err(),
        "Should not receive events after cancellation"
    );
}

#[test]
fn test_cancellation_during_timer_operation() {
    let token = CancellationToken::new();
    let (mut manager, mut handle) = TimerManager::new(
        "test".to_string(),
        10,
        10,
        10,
        token.clone(),
    );

    handle.try_set_timer("timer1".to_string(), 100).unwrap();
    handle.try_set_timer("timer2".to_string(), 200).unwrap();
    pump(&mut manager, 20);

    // the signal fires while both timers are pending and unexpired
    token.cancel();
    assert!(manager.step(LoopEvent::CancelSignal, 50, true));
    drop(manager);

    assert!(
        handle.try_recv_event().is_err(),
        "No timer events should be received after cancellation"
    );
    let result = handle.try_set_timer("timer3".to_string(), 50);
    assert!(result.is_err(), "Operations after cancellation should fail");
}
