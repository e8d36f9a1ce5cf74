use signet_client::duration::Duration;
use signet_client::lock::{
    acquire_lock, acquire_lock_with, heartbeat_interval, validate_ttl, AcquireRestartLockResponse,
    AcquireStep, HoldAction, HoldEvent, Lock, MessageType, Received, Timestamp,
};
use signet_client::restart::RestartError;
use signet_client::wait::{wait_for_restart, RestartWait, WaitAction, WaitEvent};
use signet_client::watch::{watch_bundle, ChangeSlot, EventType, Taken, WatchAction, WatchEvent};

fn waiting(ttl: Duration, debounce: Duration) -> RestartWait {
    match wait_for_restart("ns".to_string(), "svc".to_string(), ttl, debounce) {
        Ok(wait) => wait,
        Err(error) => panic!("{}", error.to_string()),
    }
}

fn held_lock() -> Lock {
    let (_, pending) = acquire_lock_with("ns".to_string(), "svc".to_string(), 4);
    let acquired = AcquireRestartLockResponse {
        message_type: MessageType::Acquired,
        position: 0,
        token: "tok".to_string(),
        expires_at: Some(Timestamp { seconds: 30, nanos: 5 }),
    };
    match pending.on_received(Received::Message(acquired)) {
        AcquireStep::Acquired(lock) => lock,
        _ => panic!("expected the lock"),
    }
}

#[test]
fn zero_debounce_acts_on_the_first_change() {
    let mut wait = waiting(Duration::from_secs(30), Duration::zero());
    assert!(matches!(wait.on_event(WaitEvent::TimerFired), WaitAction::AwaitChange));
    match wait.on_event(WaitEvent::Changed) {
        WaitAction::Acquire(request, pending) => {
            assert_eq!(request.namespace, "ns");
            assert_eq!(request.service, "svc");
            assert_eq!(request.ttl_seconds, 30);
            assert!(!request.heartbeat);
            assert!(matches!(
                pending.on_received(Received::Closed),
                AcquireStep::Failed(RestartError::ClosedBeforeAcquired)
            ));
        }
        _ => panic!("expected to acquire"),
    }
    assert!(matches!(wait.on_event(WaitEvent::Changed), WaitAction::Nothing));
}

#[test]
fn debounce_absorbs_rapid_changes() {
    let debounce = Duration::from_secs(10);
    let mut wait = waiting(Duration::from_secs(30), debounce);
    for _ in 0..3 {
        match wait.on_event(WaitEvent::Changed) {
            WaitAction::ArmTimer(time) => assert_eq!(time, debounce),
            _ => panic!("expected the timer"),
        }
    }
    assert!(matches!(wait.on_event(WaitEvent::TimerFired), WaitAction::Acquire(_, _)));
}

#[test]
fn wait_fails_when_the_watch_stops() {
    let mut wait = waiting(Duration::from_secs(30), Duration::from_secs(10));
    match wait.on_event(WaitEvent::WatchEnded) {
        WaitAction::Fail(error) => assert_eq!(
            error.to_string(),
            "signet: watch_bundle stopped before a restart could be coordinated"
        ),
        _ => panic!("expected a failure"),
    }
    let mut wait = waiting(Duration::from_secs(30), Duration::from_secs(10));
    wait.on_event(WaitEvent::Changed);
    assert!(matches!(
        wait.on_event(WaitEvent::WatchEnded),
        WaitAction::Fail(RestartError::WatchStopped)
    ));
}

#[test]
fn wait_fails_when_cancelled_in_the_debounce_time() {
    let mut wait = waiting(Duration::from_secs(30), Duration::from_secs(10));
    wait.on_event(WaitEvent::Changed);
    match wait.on_event(WaitEvent::Cancelled) {
        WaitAction::Fail(error) => assert_eq!(error.to_string(), "signet: cancelled"),
        _ => panic!("expected a failure"),
    }
}

#[test]
fn wait_rejects_a_bad_ttl_before_the_watch() {
    for ttl in [Duration::zero(), Duration::from_secs(i32::MAX as u64 + 1)] {
        let wait =
            wait_for_restart("ns".to_string(), "svc".to_string(), ttl, Duration::from_secs(10));
        assert!(matches!(wait, Err(RestartError::InvalidTtl(refused)) if refused == ttl));
    }
}

#[test]
fn ttl_must_fit_a_request() {
    let longest = Duration::new(i32::MAX as u64, 999_999_999);
    assert_eq!(validate_ttl(longest).unwrap(), i32::MAX);
    let too_long = Duration::from_secs(i32::MAX as u64 + 1);
    let err = validate_ttl(too_long).unwrap_err();
    assert_eq!(err.to_string(), "signet: ttl must be > 0, got 2147483648s");
    assert!(acquire_lock(String::new(), String::new(), too_long).is_err());
    let err = validate_ttl(Duration::zero()).unwrap_err();
    assert_eq!(err.to_string(), "signet: ttl must be > 0, got 0ns");
    let (request, _) = match acquire_lock("a".to_string(), "b".to_string(), longest) {
        Ok(begun) => begun,
        Err(error) => panic!("{}", error.to_string()),
    };
    assert_eq!(request.ttl_seconds, i32::MAX);
}

#[test]
fn four_heartbeats_make_a_ttl() {
    for ttl in [1, 2, 7, 30, i32::MAX] {
        let interval = heartbeat_interval(ttl);
        assert_eq!(interval.saturating_mul(4), Duration::from_secs(ttl as u64));
    }
    for ttl in [0, -1, i32::MIN] {
        assert_eq!(heartbeat_interval(ttl), Duration::from_millis(250));
    }
}

#[test]
fn loss_is_reported_once_and_says_why() {
    let mut lock = held_lock();
    assert!(matches!(
        lock.on_event(HoldEvent::Received(Received::Closed)),
        HoldAction::Stop
    ));
    let text = lock.lost().map(|error| error.to_string());
    assert_eq!(text.as_deref(), Some("signet: restart lock lost: stream closed by server"));
    lock.on_event(HoldEvent::HeartbeatFailed(RestartError::Send("late".to_string())));
    assert!(matches!(lock.lost(), Some(RestartError::LockLost(_))));
    assert!(lock.release());
    assert!(matches!(lock.lost(), Some(RestartError::LockLost(_))));
}

#[test]
fn failed_heartbeat_is_a_loss() {
    let mut lock = held_lock();
    let action = lock.on_event(HoldEvent::HeartbeatFailed(RestartError::Send("x".to_string())));
    assert!(matches!(action, HoldAction::Stop));
    let text = lock.lost().map(|error| error.to_string());
    assert_eq!(
        text.as_deref(),
        Some("signet: restart lock lost: signet: send AcquireRestartLockRequest: x")
    );
    assert!(matches!(lock.lost(), Some(RestartError::LockLost(_))));
    assert!(!lock.is_held());
}

#[test]
fn stray_release_signal_keeps_the_lock() {
    let mut lock = held_lock();
    assert!(!lock.is_released());
    assert!(matches!(lock.on_event(HoldEvent::ReleaseRequested), HoldAction::Continue));
    assert!(lock.is_held());
    assert!(lock.lost().is_none());
    assert!(lock.release());
    assert!(lock.is_released());
    assert!(matches!(lock.on_event(HoldEvent::ReleaseRequested), HoldAction::CloseSend));
}

#[test]
fn release_racing_a_stream_error_is_no_loss() {
    for event in [
        HoldEvent::Received(Received::Closed),
        HoldEvent::Received(Received::Failed(RestartError::Recv("x".to_string()))),
        HoldEvent::HeartbeatFailed(RestartError::Send("x".to_string())),
    ] {
        let mut lock = held_lock();
        assert!(lock.release());
        assert!(matches!(lock.on_event(event), HoldAction::Stop));
        assert!(lock.lost().is_none());
        assert_eq!(lock.expires_at(), Some(Timestamp { seconds: 30, nanos: 5 }));
    }
}

#[test]
fn messages_of_other_kinds_are_waited_through() {
    let (_, pending) = acquire_lock_with("ns".to_string(), "svc".to_string(), 4);
    for message_type in [MessageType::QueuePosition, MessageType::TtlExtended, MessageType::Other] {
        let message = AcquireRestartLockResponse {
            message_type,
            position: 0,
            token: "early".to_string(),
            expires_at: None,
        };
        assert!(matches!(pending.on_received(Received::Message(message)), AcquireStep::Wait));
    }
}

#[test]
fn pauses_double_up_to_the_cap_and_reset() {
    let (_, mut watch) = watch_bundle("ns".to_string(), "svc".to_string());
    watch.on_event(WatchEvent::Started { cancelled: false });
    for secs in [1, 2, 4, 8, 16, 30, 30] {
        assert_eq!(
            watch.on_event(WatchEvent::OpenFailed),
            WatchAction::Sleep(Duration::from_secs(secs))
        );
        assert_eq!(watch.on_event(WatchEvent::Slept { cancelled: false }), WatchAction::Open);
    }
    watch.on_event(WatchEvent::Opened);
    assert_eq!(watch.on_event(WatchEvent::Message(EventType::Other)), WatchAction::Receive);
    assert_eq!(
        watch.on_event(WatchEvent::StreamEnded { cancelled: false }),
        WatchAction::Sleep(Duration::from_secs(1))
    );
}

#[test]
fn cancelled_watch_stops_for_good() {
    for cancel in [
        WatchEvent::Started { cancelled: true },
        WatchEvent::StreamEnded { cancelled: true },
        WatchEvent::Slept { cancelled: true },
        WatchEvent::Cancelled,
    ] {
        let (_, mut watch) = watch_bundle("ns".to_string(), "svc".to_string());
        assert_eq!(watch.on_event(cancel), WatchAction::Stop);
        assert_eq!(watch.on_event(WatchEvent::Opened), WatchAction::Stop);
        assert_eq!(
            watch.on_event(WatchEvent::Message(EventType::Changed)),
            WatchAction::Stop
        );
    }
}

#[test]
fn pending_change_outlives_the_watch() {
    let mut slot = ChangeSlot::new();
    assert_eq!(slot.take(), Taken::Nothing);
    slot.offer();
    slot.close();
    slot.offer();
    assert_eq!(slot.take(), Taken::Change);
    assert_eq!(slot.take(), Taken::Closed);
    slot.offer();
    assert_eq!(slot.take(), Taken::Closed);
}

#[test]
fn restart_errors_say_what_failed() {
    let cause = || "boom".to_string();
    let cases = [
        (RestartError::OpenStream(cause()), "signet: open AcquireRestartLock stream: boom"),
        (RestartError::Send(cause()), "signet: send AcquireRestartLockRequest: boom"),
        (RestartError::Recv(cause()), "signet: receive AcquireRestartLockResponse: boom"),
        (
            RestartError::ClosedBeforeAcquired,
            "signet: AcquireRestartLock stream closed before the lock was acquired",
        ),
        (RestartError::LockLost(cause()), "signet: restart lock lost: boom"),
        (RestartError::WatchOpen(cause()), "signet: open WatchServiceBundle stream: boom"),
    ];
    for (error, text) in cases {
        assert_eq!(error.to_string(), text);
    }
}
