use signet_client::duration::Duration;
use signet_client::lock::{
    acquire_lock, acquire_lock_with, heartbeat_interval, validate_ttl, AcquireRestartLockResponse,
    AcquireStep, HoldAction, HoldEvent, Lock, MessageType, Received, Timestamp,
};
use signet_client::restart::RestartError;
use signet_client::watch::{
    next_backoff, watch_bundle, ChangeSlot, EventType, Taken, WatchAction, WatchEvent,
};

fn acquired_resp(token: &str, expires_at: i64) -> AcquireRestartLockResponse {
    AcquireRestartLockResponse {
        message_type: MessageType::Acquired,
        position: 0,
        token: token.to_string(),
        expires_at: Some(Timestamp { seconds: expires_at, nanos: 0 }),
    }
}

fn queue_position_resp(position: i32) -> AcquireRestartLockResponse {
    AcquireRestartLockResponse {
        message_type: MessageType::QueuePosition,
        position,
        token: String::new(),
        expires_at: None,
    }
}

fn ttl_extended_resp(expires_at: i64) -> AcquireRestartLockResponse {
    AcquireRestartLockResponse {
        message_type: MessageType::TtlExtended,
        position: 0,
        token: String::new(),
        expires_at: Some(Timestamp { seconds: expires_at, nanos: 0 }),
    }
}

/// Acquires a lock from the given reads of the stream.
fn acquire_from(ttl_secs: i32, reads: Vec<Received>) -> Result<Lock, RestartError> {
    let (_, pending) = acquire_lock_with("ns".to_string(), "svc".to_string(), ttl_secs);
    for read in reads {
        match pending.on_received(read) {
            AcquireStep::Wait => {}
            AcquireStep::Acquired(lock) => return Ok(lock),
            AcquireStep::Failed(error) => return Err(error),
        }
    }
    panic!("the reads decide nothing");
}

fn held_lock() -> Lock {
    match acquire_from(4, vec![Received::Message(acquired_resp("tok-1", 30))]) {
        Ok(lock) => lock,
        Err(error) => panic!("{}", error.to_string()),
    }
}

fn error_of<T>(result: Result<T, RestartError>) -> RestartError {
    match result {
        Ok(_) => panic!("expected an error"),
        Err(error) => error,
    }
}

#[test]
fn acquire_lock_rejects_ttl_zero_before_opening_any_stream() {
    let err = error_of(acquire_lock("ns".to_string(), "svc".to_string(), Duration::zero()));
    assert!(matches!(err, RestartError::InvalidTtl(_)), "expected InvalidTtl, got {err:?}");
    assert!(err.to_string().contains("ttl must be > 0"));
}

#[test]
fn validate_ttl_rejects_zero() {
    let err = validate_ttl(Duration::zero()).unwrap_err();
    assert!(matches!(err, RestartError::InvalidTtl(_)));
}

#[test]
fn validate_ttl_floors_sub_second_ttl_to_one_second() {
    assert_eq!(validate_ttl(Duration::from_millis(500)).unwrap(), 1);
}

#[test]
fn validate_ttl_truncates_like_go_int32_division() {
    assert_eq!(validate_ttl(Duration::from_millis(4999)).unwrap(), 4);
}

#[test]
fn acquire_lock_queue_position_then_acquired() {
    let (request, pending) = acquire_lock_with("ns".to_string(), "svc".to_string(), 4);
    assert_eq!(request.namespace, "ns");
    assert_eq!(request.service, "svc");
    assert_eq!(request.ttl_seconds, 4);
    assert!(!request.heartbeat);
    // No step of waiting asks for anything to be sent: the request is all that
    // is sent before a heartbeat.
    assert!(matches!(
        pending.on_received(Received::Message(queue_position_resp(2))),
        AcquireStep::Wait
    ));
    assert!(matches!(
        pending.on_received(Received::Message(queue_position_resp(1))),
        AcquireStep::Wait
    ));
    let mut lock = match pending.on_received(Received::Message(acquired_resp("tok-1", 30))) {
        AcquireStep::Acquired(lock) => lock,
        _ => panic!("expected the lock"),
    };
    assert_eq!(lock.token(), "tok-1");
    assert!(lock.release());
}

#[test]
fn acquire_lock_stream_error_before_acquired_surfaces_as_err() {
    let err = error_of(acquire_from(
        4,
        vec![Received::Failed(RestartError::Recv("boom".to_string()))],
    ));
    assert!(err.to_string().contains("boom"));
}

#[test]
fn acquire_lock_stream_closed_before_acquired_is_a_clear_error() {
    let closed = Received::Failed(RestartError::Recv("stream closed".to_string()));
    let err = error_of(acquire_from(4, vec![closed]));
    assert!(err.to_string().contains("stream closed"));
    let err = error_of(acquire_from(4, vec![Received::Closed]));
    assert!(matches!(err, RestartError::ClosedBeforeAcquired));
    assert!(err.to_string().contains("stream closed"));
}

#[test]
fn heartbeat_interval_is_ttl_over_four() {
    assert_eq!(heartbeat_interval(1), Duration::from_millis(250));
    let mut lock = match acquire_from(1, vec![Received::Message(acquired_resp("tok-1", 4))]) {
        Ok(lock) => lock,
        Err(error) => panic!("{}", error.to_string()),
    };
    assert_eq!(lock.heartbeat_interval(), Duration::from_millis(250));
    // 650 ms hold two intervals: with the first request, three messages.
    let mut sent = 1;
    for _ in 0..650 / 250 {
        match lock.on_event(HoldEvent::HeartbeatDue) {
            HoldAction::SendHeartbeat(request) => {
                assert!(request.heartbeat);
                assert_eq!(request.namespace, "");
                assert_eq!(request.service, "");
                assert_eq!(request.ttl_seconds, 0);
                sent += 1;
            }
            other => panic!("expected a heartbeat, got {other:?}"),
        }
    }
    assert!(sent >= 3, "sent_count={sent}, want >= 3 (1 initial + >=2 heartbeats)");
    assert!(lock.release());
}

#[test]
fn ttl_extended_updates_expires_at() {
    let mut lock = held_lock();
    assert_eq!(lock.expires_at(), Some(Timestamp { seconds: 30, nanos: 0 }));
    let action = lock.on_event(HoldEvent::Received(Received::Message(ttl_extended_resp(60))));
    assert!(matches!(action, HoldAction::Continue));
    assert_eq!(lock.expires_at(), Some(Timestamp { seconds: 60, nanos: 0 }));
    // Messages of other kinds leave the expiry alone.
    lock.on_event(HoldEvent::Received(Received::Message(acquired_resp("tok-2", 90))));
    lock.on_event(HoldEvent::Received(Received::Message(queue_position_resp(1))));
    assert_eq!(lock.expires_at(), Some(Timestamp { seconds: 60, nanos: 0 }));
    assert_eq!(lock.token(), "tok-1");
}

#[test]
fn release_is_idempotent() {
    let mut lock = held_lock();
    assert!(lock.release(), "first release");
    assert!(!lock.release(), "second release should be a no-op");
    assert!(matches!(lock.on_event(HoldEvent::ReleaseRequested), HoldAction::CloseSend));
    assert!(!lock.release());
    assert!(!lock.is_held());
}

#[test]
fn lost_reported_on_unexpected_stream_error() {
    let mut lock = held_lock();
    let action = lock.on_event(HoldEvent::Received(Received::Failed(RestartError::Recv(
        "lock lost".to_string(),
    ))));
    assert!(matches!(action, HoldAction::Stop));
    let got = lock.lost();
    assert!(got.is_some(), "expected Some(err) on Lost()");
    assert!(matches!(got, Some(RestartError::LockLost(cause))
        if cause == "signet: receive AcquireRestartLockResponse: lock lost"));
}

#[test]
fn release_does_not_report_lost() {
    let mut lock = held_lock();
    assert!(lock.release());
    assert!(matches!(lock.on_event(HoldEvent::ReleaseRequested), HoldAction::CloseSend));
    assert!(lock.lost().is_none(), "Lost() recorded a value after a clean release");
}

#[test]
fn lost_is_none_immediately_after_acquire() {
    let mut lock = held_lock();
    assert!(lock.lost().is_none());
    assert!(lock.is_held());
    assert!(lock.release());
}

/// Runs a watch over reads of its stream and gives the place for signals.
fn watch_over(messages: &[EventType]) -> ChangeSlot {
    let (_, mut watch) = watch_bundle("ns".to_string(), "svc".to_string());
    let mut slot = ChangeSlot::new();
    assert_eq!(watch.on_event(WatchEvent::Started { cancelled: false }), WatchAction::Open);
    assert_eq!(watch.on_event(WatchEvent::Opened), WatchAction::Receive);
    for message in messages {
        match watch.on_event(WatchEvent::Message(*message)) {
            WatchAction::NotifyAndReceive => slot.offer(),
            WatchAction::Receive => {}
            other => panic!("unexpected {other:?}"),
        }
    }
    slot
}

#[test]
fn watch_loop_coalesces_rapid_changes() {
    let mut slot = watch_over(&[EventType::Changed, EventType::Changed, EventType::Changed]);
    assert_eq!(slot.take(), Taken::Change, "one coalesced change");
    assert_eq!(
        slot.take(),
        Taken::Nothing,
        "expected no further pending signal after draining the coalesced one"
    );
}

#[test]
fn watch_loop_reconnects_after_stream_error() {
    let (request, mut watch) = watch_bundle("ns".to_string(), "svc".to_string());
    assert_eq!(request.namespace, "ns");
    assert_eq!(request.service, "svc");
    assert_eq!(watch.on_event(WatchEvent::Started { cancelled: false }), WatchAction::Open);
    assert_eq!(watch.on_event(WatchEvent::Opened), WatchAction::Receive);
    assert_eq!(
        watch.on_event(WatchEvent::StreamEnded { cancelled: false }),
        WatchAction::Sleep(Duration::from_secs(1))
    );
    assert_eq!(watch.on_event(WatchEvent::Slept { cancelled: false }), WatchAction::Open);
    assert_eq!(watch.on_event(WatchEvent::Opened), WatchAction::Receive);
    assert_eq!(
        watch.on_event(WatchEvent::Message(EventType::Changed)),
        WatchAction::NotifyAndReceive
    );
}

#[test]
fn next_backoff_doubles_and_caps() {
    assert_eq!(next_backoff(Duration::from_secs(1)), Duration::from_secs(2));
    assert_eq!(next_backoff(Duration::from_secs(16)), Duration::from_secs(30));
    assert_eq!(next_backoff(Duration::from_secs(30)), Duration::from_secs(30));
}
