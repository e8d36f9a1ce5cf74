use signet_client::client::ClientError;
use signet_client::duration::Duration;
use signet_client::workload::{
    connect_given, dial_given, dial_workload, on_transport_event, retry_until_identity_issued,
    workload_dial_backoff, DialAction, DialEvent, ProbeOutcome, RetryStep, TransportAction,
    TransportEvent, WorkloadDial, WORKLOAD_DIAL_BACKOFF_SECS, WORKLOAD_DIAL_MAX_ATTEMPTS,
};

fn dialing(addr: &str, trust_domain: &str) -> WorkloadDial {
    match dial_workload(addr, SOCKET, trust_domain) {
        Ok(dial) => dial,
        Err(error) => panic!("{}", error.to_string()),
    }
}

fn no_identity_issued() -> ProbeOutcome {
    ProbeOutcome::NoIdentityIssued("no identity issued".to_string())
}

/// Runs the probes until they are decided. Gives the number of probes, the
/// seconds waited, and the error where there is one.
fn run_probes(mut probe: impl FnMut(usize) -> ProbeOutcome) -> (usize, u64, Option<ClientError>) {
    let mut retry = retry_until_identity_issued("unix:///test.sock");
    let (mut calls, mut waited) = (0, 0);
    loop {
        let outcome = probe(calls);
        calls += 1;
        match retry.on_probed(outcome) {
            RetryStep::Issued => return (calls, waited, None),
            RetryStep::RetryAfter(wait) => waited += wait.as_secs(),
            RetryStep::Fail(error) => return (calls, waited, Some(error)),
        }
    }
}

#[test]
fn workload_dial_backoff_matches_verified_kluster_schedule() {
    assert_eq!(
        workload_dial_backoff(),
        [
            Duration::from_secs(1),
            Duration::from_secs(2),
            Duration::from_secs(4),
            Duration::from_secs(8),
        ]
    );
    assert_eq!(WORKLOAD_DIAL_BACKOFF_SECS, [1, 2, 4, 8]);
    assert_eq!(WORKLOAD_DIAL_MAX_ATTEMPTS, 5);
}

#[test]
fn retry_until_identity_issued_succeeds_immediately() {
    let (calls, waited, error) = run_probes(|_| ProbeOutcome::Issued);
    assert!(error.is_none());
    assert_eq!(calls, 1, "a successful first probe must not retry");
    assert_eq!(waited, 0);
}

#[test]
fn retry_until_identity_issued_retries_no_identity_issued_then_succeeds() {
    let (calls, waited, error) =
        run_probes(|call| if call < 2 { no_identity_issued() } else { ProbeOutcome::Issued });
    assert!(error.is_none());
    assert_eq!(calls, 3, "expected 2 failed probes then 1 succeeding probe");
    assert_eq!(waited, 1 + 2);
}

#[test]
fn retry_until_identity_issued_returns_other_error_immediately_unretried() {
    let (calls, waited, error) =
        run_probes(|_| ProbeOutcome::Failed("selectors do not match".to_string()));
    assert_eq!(calls, 1, "a non-'no identity issued' failure must never be retried");
    assert_eq!(waited, 0);
    match error {
        Some(ClientError::WorkloadProbe { socket, source }) => {
            assert_eq!(socket, "unix:///test.sock");
            assert_eq!(source, "selectors do not match");
        }
        other => panic!("expected ClientError::WorkloadProbe, got {other:?}"),
    }
}

#[test]
fn retry_until_identity_issued_exhausts_after_five_attempts_with_full_backoff() {
    let (calls, waited, error) = run_probes(|_| no_identity_issued());
    assert_eq!(calls, WORKLOAD_DIAL_MAX_ATTEMPTS);
    assert_eq!(waited, 1 + 2 + 4 + 8);
    match error {
        Some(ClientError::WorkloadNoIdentityIssued { socket, attempts, source }) => {
            assert_eq!(socket, "unix:///test.sock");
            assert_eq!(attempts, WORKLOAD_DIAL_MAX_ATTEMPTS);
            assert_eq!(source, "no identity issued");
        }
        other => panic!("expected ClientError::WorkloadNoIdentityIssued, got {other:?}"),
    }
}

#[test]
fn other_failures_are_final_after_retries_too() {
    let (calls, waited, error) = run_probes(|call| {
        if call < 3 {
            no_identity_issued()
        } else {
            ProbeOutcome::Failed("denied".to_string())
        }
    });
    assert_eq!((calls, waited), (4, 1 + 2 + 4));
    assert!(matches!(error, Some(ClientError::WorkloadProbe { .. })));
}

const SOCKET: &str = "unix:///run/spire/sockets/agent.sock";

#[test]
fn dial_workload_goes_through_its_stages() {
    let mut dial = dialing("signet.internal:8443", "example.org");
    match dial.on_event(DialEvent::Probed(no_identity_issued())) {
        DialAction::ProbeAfter(wait) => assert_eq!(wait, Duration::from_secs(1)),
        other => panic!("unexpected {other:?}"),
    }
    // Events of later stages do nothing yet.
    assert!(matches!(dial.on_event(DialEvent::Connected), DialAction::Ignore));
    assert!(matches!(
        dial.on_event(DialEvent::Probed(ProbeOutcome::Issued)),
        DialAction::OpenSource
    ));
    assert!(matches!(
        dial.on_event(DialEvent::SourceOpened),
        DialAction::BuildTls { trust_domain } if trust_domain == "example.org"
    ));
    match dial.on_event(DialEvent::TlsBuilt) {
        DialAction::Connect { uri, server_name } => {
            assert_eq!(uri, "http://signet.internal:8443");
            assert_eq!(server_name, "signet.internal");
        }
        other => panic!("unexpected {other:?}"),
    }
    assert!(matches!(dial.on_event(DialEvent::Connected), DialAction::Done));
    assert!(matches!(dial.on_event(DialEvent::Connected), DialAction::Ignore));
}

/// The error that a connection fails with on the last of these events.
fn failure(addr: &str, trust_domain: &str, events: Vec<DialEvent>) -> ClientError {
    let mut dial = dialing(addr, trust_domain);
    for event in events {
        if let DialAction::Fail(error) = dial.on_event(event) {
            return error;
        }
    }
    panic!("expected a failure");
}

#[test]
fn dial_workload_failures_name_their_stage() {
    let issued = || DialEvent::Probed(ProbeOutcome::Issued);
    let boom = || "boom".to_string();
    let err = failure("h:1", "example.org", vec![issued(), DialEvent::SourceFailed(boom())]);
    assert!(matches!(err, ClientError::WorkloadApi { socket, source }
        if socket == SOCKET && source == "boom"));
    let opened = || vec![issued(), DialEvent::SourceOpened];
    let err = failure("h:1", "example.org", [opened(), vec![DialEvent::TlsFailed(boom())]].concat());
    assert!(matches!(err, ClientError::SpiffeTls(cause) if cause == "boom"));
    let built = || [opened(), vec![DialEvent::TlsBuilt]].concat();
    let err = failure("not a host", "example.org", built());
    assert!(matches!(err, ClientError::InvalidWorkloadAddress(addr) if addr == "not a host"));
    let err = failure("h:80:80", "example.org", built());
    assert!(matches!(err, ClientError::InvalidWorkloadAddress(_)));
    let err = failure(
        "h:1",
        "example.org",
        [built(), vec![DialEvent::ConnectFailed(boom())]].concat(),
    );
    assert!(matches!(err, ClientError::Connect { addr, source } if addr == "h:1" && source == "boom"));
}

#[test]
fn malformed_trust_domain_is_refused_before_any_probe() {
    assert!(matches!(
        dial_workload("h:1", SOCKET, "not a domain"),
        Err(ClientError::InvalidTrustDomain(domain, cause))
            if domain == "not a domain" && !cause.is_empty()
    ));
}

#[test]
fn given_outcomes_decide_the_action() {
    assert!(dial_given("h:1", SOCKET, "d", Ok(())).is_ok());
    assert!(matches!(
        dial_given("h:1", SOCKET, "d", Err("bad".to_string())),
        Err(ClientError::InvalidTrustDomain(domain, cause)) if domain == "d" && cause == "bad"
    ));
    assert!(matches!(
        connect_given("h:1", "h".to_string(), true, Err("bad".to_string())),
        DialAction::Fail(ClientError::InvalidEndpoint { addr, source })
            if addr == "h:1" && source == "bad"
    ));
    // A host that is no server name is found before the endpoint.
    assert!(matches!(
        connect_given("h:1", "h".to_string(), false, Err("bad".to_string())),
        DialAction::Fail(ClientError::InvalidWorkloadAddress(_))
    ));
}

#[test]
fn transport_events_decide_the_action() {
    let step = |event| on_transport_event("h:1", event);
    assert!(matches!(
        step(TransportEvent::Resolved { addresses: 2 }),
        TransportAction::ConnectTcp
    ));
    assert!(matches!(
        step(TransportEvent::Resolved { addresses: 0 }),
        TransportAction::Fail(ClientError::InvalidWorkloadAddress(addr)) if addr == "h:1"
    ));
    assert!(matches!(step(TransportEvent::TcpConnected), TransportAction::Handshake));
    assert!(matches!(step(TransportEvent::TlsEstablished), TransportAction::Done));
    for event in [
        TransportEvent::ResolveFailed("boom".to_string()),
        TransportEvent::TcpFailed("boom".to_string()),
        TransportEvent::TlsFailed("boom".to_string()),
    ] {
        assert!(matches!(
            step(event),
            TransportAction::Fail(ClientError::WorkloadConnect { addr, source })
                if addr == "h:1" && source == "boom"
        ));
    }
}
