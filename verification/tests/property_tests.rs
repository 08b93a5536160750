//! Tests for the stated properties of the manager on concrete values:
//! replacement, latency bounds, cancel-all, shutdown, delivery loss, and
//! the error taxonomy of the channel operations.

use timer_manager::{
    LoopEvent, TimerCommand, TimerEvent, TimerHandle, TimerManager, TryRecvFailure,
    TrySendFailure,
};
use tokio_util::sync::CancellationToken;

fn pair(heartbeat: u64, cmd_cap: usize, ev_cap: usize) -> (TimerManager, TimerHandle) {
    TimerManager::new(
        "test".to_string(),
        heartbeat,
        cmd_cap,
        ev_cap,
        CancellationToken::new(),
    )
}

fn expect_expired(handle: &mut TimerHandle, want: &str) {
    match handle.try_recv_event() {
        Ok(TimerEvent::TimerExpired { name }) => assert_eq!(name, want),
        other => panic!("expected an expiration event for {want:?}, got {other:?}"),
    }
}

#[test]
fn replace_keeps_one_entry_and_fires_once() {
    let (mut manager, mut handle) = pair(10, 10, 10);

    // set "t" twice: the second setting replaces the first deadline
    manager.handle_command(
        TimerCommand::SetTimer { name: "t".to_string(), duration: 100 },
        0,
    );
    manager.handle_command(
        TimerCommand::SetTimer { name: "t".to_string(), duration: 300 },
        0,
    );

    // the first deadline no longer exists
    manager.step(LoopEvent::Heartbeat, 150, false);
    assert!(handle.try_recv_event().is_err());

    // the replaced deadline fires exactly one event
    manager.step(LoopEvent::Heartbeat, 300, false);
    expect_expired(&mut handle, "t");
    manager.step(LoopEvent::Heartbeat, 400, false);
    assert!(handle.try_recv_event().is_err());
}

#[test]
fn deadline_is_dispatch_time_plus_duration() {
    let (mut manager, mut handle) = pair(1, 10, 10);

    manager.handle_command(
        TimerCommand::SetTimer { name: "t".to_string(), duration: 10 },
        5,
    );

    // not before time 15 = 5 + 10, and at 15 exactly
    manager.step(LoopEvent::Heartbeat, 14, false);
    assert!(handle.try_recv_event().is_err());
    manager.step(LoopEvent::Heartbeat, 15, false);
    expect_expired(&mut handle, "t");
}

#[test]
fn zero_duration_fires_on_next_scan() {
    let (mut manager, mut handle) = pair(10, 10, 10);
    manager.handle_command(
        TimerCommand::SetTimer { name: "t".to_string(), duration: 0 },
        7,
    );
    manager.step(LoopEvent::Heartbeat, 7, false);
    expect_expired(&mut handle, "t");
}

#[test]
fn overlong_duration_saturates() {
    let (mut manager, mut handle) = pair(10, 10, 10);
    manager.handle_command(
        TimerCommand::SetTimer { name: "t".to_string(), duration: u64::MAX },
        5,
    );
    manager.step(LoopEvent::Heartbeat, u64::MAX - 1, false);
    assert!(handle.try_recv_event().is_err());
    manager.step(LoopEvent::Heartbeat, u64::MAX, false);
    expect_expired(&mut handle, "t");
}

#[test]
fn cancel_all_clears_table() {
    let (mut manager, mut handle) = pair(10, 10, 10);
    for name in ["a", "b", "c"] {
        manager.handle_command(
            TimerCommand::SetTimer { name: name.to_string(), duration: 10 },
            0,
        );
    }
    manager.handle_command(TimerCommand::CancelAllTimers, 5);
    manager.step(LoopEvent::Heartbeat, 1000, false);
    assert!(handle.try_recv_event().is_err());
}

#[test]
fn cancel_of_absent_name_is_noop() {
    let (mut manager, mut handle) = pair(10, 10, 10);
    manager.handle_command(
        TimerCommand::SetTimer { name: "keep".to_string(), duration: 10 },
        0,
    );
    let stop = manager.handle_command(
        TimerCommand::CancelTimer { name: "absent".to_string() },
        0,
    );
    assert!(!stop);
    manager.step(LoopEvent::Heartbeat, 10, false);
    expect_expired(&mut handle, "keep");
}

#[test]
fn shutdown_stops_and_only_shutdown_does() {
    let (mut manager, _handle) = pair(10, 10, 10);
    assert!(!manager.handle_command(
        TimerCommand::SetTimer { name: "t".to_string(), duration: 1 },
        0,
    ));
    assert!(!manager.handle_command(TimerCommand::CancelTimer { name: "t".to_string() }, 0));
    assert!(!manager.handle_command(TimerCommand::CancelAllTimers, 0));
    assert!(manager.handle_command(TimerCommand::Shutdown, 0));
}

#[test]
fn commands_are_processed_in_order() {
    let (mut manager, mut handle) = pair(10, 10, 10);
    handle.try_set_timer("t".to_string(), 10).unwrap();
    handle.try_cancel_timer("t".to_string()).unwrap();
    while let Ok(command) = manager.try_recv_command() {
        manager.step(LoopEvent::Command(command), 0, false);
    }
    manager.step(LoopEvent::Heartbeat, 100, false);
    assert!(handle.try_recv_event().is_err());
}

#[test]
fn full_event_channel_drops_events_not_timers() {
    // event capacity 1, two timers expiring in the same scan: one event is
    // delivered, the other is lost, and neither is ever re-sent
    let (mut manager, mut handle) = pair(10, 10, 1);
    manager.handle_command(
        TimerCommand::SetTimer { name: "a".to_string(), duration: 10 },
        0,
    );
    manager.handle_command(
        TimerCommand::SetTimer { name: "b".to_string(), duration: 10 },
        0,
    );
    manager.step(LoopEvent::Heartbeat, 10, false);

    match handle.try_recv_event() {
        Ok(TimerEvent::TimerExpired { name }) => assert!(name == "a" || name == "b"),
        other => panic!("expected one delivered event, got {other:?}"),
    }
    assert!(matches!(handle.try_recv_event(), Err(TryRecvFailure::Empty)));

    // later scans do not resurrect the lost one
    manager.step(LoopEvent::Heartbeat, 100, false);
    assert!(matches!(handle.try_recv_event(), Err(TryRecvFailure::Empty)));
}

#[test]
fn closed_event_channel_does_not_stall_the_scan() {
    let (mut manager, handle) = pair(10, 10, 10);
    manager.handle_command(
        TimerCommand::SetTimer { name: "a".to_string(), duration: 10 },
        0,
    );
    manager.handle_command(
        TimerCommand::SetTimer { name: "b".to_string(), duration: 10 },
        0,
    );
    drop(handle);
    // the scan must not panic or block; expired entries are removed even
    // though no event can be delivered
    manager.step(LoopEvent::Heartbeat, 50, false);
    assert!(manager.handle_command(TimerCommand::Shutdown, 60));
}

#[test]
fn recv_failures_distinguish_empty_from_disconnected() {
    let (manager, mut handle) = pair(10, 10, 10);
    assert!(matches!(handle.try_recv_event(), Err(TryRecvFailure::Empty)));
    drop(manager);
    assert!(matches!(handle.try_recv_event(), Err(TryRecvFailure::Disconnected)));
}

#[test]
fn send_failures_hand_each_command_back() {
    let (manager, handle) = pair(10, 1, 10);
    handle.try_set_timer("t".to_string(), 5).unwrap();

    match handle.try_cancel_timer("t".to_string()) {
        Err(TrySendFailure::Full(TimerCommand::CancelTimer { name })) => {
            assert_eq!(name, "t");
        },
        other => panic!("expected the cancel command back as full, got {other:?}"),
    }
    match handle.try_cancel_all_timers() {
        Err(TrySendFailure::Full(TimerCommand::CancelAllTimers)) => {},
        other => panic!("expected the cancel-all command back as full, got {other:?}"),
    }

    drop(manager);
    match handle.try_shutdown() {
        Err(TrySendFailure::Closed(TimerCommand::Shutdown)) => {},
        other => panic!("expected the shutdown command back as closed, got {other:?}"),
    }
}
