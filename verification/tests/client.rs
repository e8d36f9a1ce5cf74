use signet_client::address::{
    host_given, host_of, is_local_address, is_local_given, is_loopback_host,
};
use signet_client::client::{
    admin_transport_decision, dial_admin, judge_certificates, transport_given, uri_of,
    validate_ca_pem, AdminEvent, ClientError, TokenInterceptor, TransportDecision, TrustRoots,
};

const TEST_CA: &[u8] = b"-----BEGIN CERTIFICATE-----\n\
MIICoDCCAYgCCQDLsJN6ayvwqTANBgkqhkiG9w0BAQsFADASMRAwDgYDVQQDDAd0\n\
ZXN0LWNhMB4XDTI2MDcxMjIxMzM1MFoXDTI2MDcxMzIxMzM1MFowEjEQMA4GA1UE\n\
AwwHdGVzdC1jYTCCASIwDQYJKoZIhvcNAQEBBQADggEPADCCAQoCggEBALKQT/9e\n\
HkJlnufQ8dCzc0JdZRO1gHDMY6stgfZljK1dEj2SaANpP3MDVIyDcmKq/6Gwbj4K\n\
fexqB+1VGLn7CKmopYBvAIwiMDHsQ/R8xDOLwVJRCwnxzAbUUsBF9LvRkDqV4U0/\n\
i7jizdwtxDHLoB9qEkDKWo3flgIGQtgJ6Vsj7YM9CPq369fby5ZBsPCR3itvEsiZ\n\
BoM13D3A2RFywYWFpvAvzlzR6LoFd4OnH/8QMh9KTTtxNYw2K8C/a2Cv3GZRROhN\n\
g5vcQbXLSyYVBUSwdEBT50/pl97KLStN54XEE2YQvoBZCU/kUBrOP888wn+ljafk\n\
XEMVrZiAKRDnZokCAwEAATANBgkqhkiG9w0BAQsFAAOCAQEAQpRqAdDsxNm+1qFf\n\
3IW8jJnfMrwdIUukE4c/ms7v3+n6QkdQYidfnZSXCrd0TAzXkRGonrFUDWAfRoGX\n\
ty0EN/hiU/wmDEvmsNgg9PS5KW3qqoIFRGYdwxn97hjJ0GdgUrbBLg0BweeaP+WW\n\
0Q7Jive55TT4W+Hwl5KETWOGi2FnvrlrDQGHWY1XKQKQn9J/tEQDMd+COyM9BHez\n\
oWg4npa5Q/5SdfJs3i4GyGRU4NWYxGfgFi7JiHOZx8t2Nv0RJkYqQu1SMNq97IDo\n\
ezQtmgLYbjPG41WWrdNT76h1mJgtlCzH0DfI7lQTBIi9AuE5poxPQiBoaC7flMsV\n\
w8cAzA==\n\
-----END CERTIFICATE-----\n";

#[test]
fn is_loopback_host_matches_go_client_table() {
    let cases: &[(&str, bool)] = &[
        ("localhost", true),
        ("127.0.0.1", true),
        ("::1", true),
        ("10.0.0.5", false),
        ("signet.internal", false),
    ];
    for (host, want) in cases {
        assert_eq!(is_loopback_host(host), *want, "is_loopback_host({host:?})");
    }
}

#[test]
fn admin_transport_decision_loopback_defaults_to_plaintext() {
    let decision = admin_transport_decision("localhost:8444", None, false, false).unwrap();
    assert!(!decision.requires_tls());
}

#[test]
fn admin_transport_decision_non_loopback_requires_tls() {
    let decision = admin_transport_decision("signet.internal:8444", None, false, false).unwrap();
    assert!(decision.requires_tls());
}

#[test]
fn admin_transport_decision_force_tls_on_loopback() {
    let decision = admin_transport_decision("localhost:8444", None, true, false).unwrap();
    assert!(decision.requires_tls());
}

#[test]
fn admin_transport_decision_plaintext_overrides_non_loopback() {
    let decision = admin_transport_decision("signet.internal:8444", None, false, true).unwrap();
    assert!(!decision.requires_tls());
}

#[test]
fn admin_transport_decision_plaintext_leaves_loopback_unaffected() {
    let decision = admin_transport_decision("localhost:8444", None, false, true).unwrap();
    assert!(!decision.requires_tls());
}

#[test]
fn admin_transport_decision_rejects_force_tls_and_plaintext_together() {
    let err = admin_transport_decision("localhost:8444", None, true, true).unwrap_err();
    assert!(
        matches!(err, ClientError::ForceTlsPlaintextConflict),
        "expected ClientError::ForceTlsPlaintextConflict, got {err:?}"
    );
    assert_eq!(err.to_string(), "force_tls and plaintext are mutually exclusive");
}

#[test]
fn admin_transport_decision_rejects_plaintext_with_ca_pem() {
    let pem = b"-----BEGIN CERTIFICATE-----\nnot validated at this layer\n-----END CERTIFICATE-----\n";
    let err = admin_transport_decision("localhost:8444", Some(pem), false, true).unwrap_err();
    assert!(
        matches!(err, ClientError::PlaintextCaPemConflict),
        "expected ClientError::PlaintextCaPemConflict, got {err:?}"
    );
    assert_eq!(err.to_string(), "plaintext and ca_pem are mutually exclusive");
}

#[test]
fn admin_transport_decision_plaintext_with_empty_ca_pem_is_not_a_conflict() {
    let decision = admin_transport_decision("localhost:8444", Some(&[]), false, true).unwrap();
    assert!(!decision.requires_tls());
}

#[test]
fn admin_transport_decision_ca_pem_forces_tls_even_on_loopback() {
    let decision = admin_transport_decision("localhost:8444", Some(TEST_CA), false, false);
    assert!(decision.is_ok());
    assert!(decision.unwrap().requires_tls());
}

#[test]
fn admin_transport_decision_rejects_invalid_ca_pem() {
    let err = admin_transport_decision("signet.internal:8444", Some(b"not a cert"), false, false)
        .unwrap_err();
    assert!(
        matches!(err, ClientError::InvalidCaPem),
        "expected ClientError::InvalidCaPem, got {err:?}"
    );
    assert_eq!(err.to_string(), "invalid CA PEM bundle: no certificates found");
}

#[test]
fn dial_admin_rejects_empty_token() {
    let err = dial_admin("localhost:8444", "   ", None, false, false).unwrap_err();
    assert!(matches!(err, ClientError::EmptyToken));
    assert_eq!(err.to_string(), "token must not be empty");
}

#[test]
fn host_of_handles_bracketed_ipv6_and_bare_hosts() {
    assert_eq!(host_of("localhost:8444"), "localhost");
    assert_eq!(host_of("127.0.0.1:8444"), "127.0.0.1");
    assert_eq!(host_of("[::1]:8444"), "::1");
    assert_eq!(host_of("signet.internal"), "signet.internal");
}

#[test]
fn host_of_edge_cases() {
    for (addr, host) in [
        ("", ""),
        (":8444", ":8444"),
        ("host:", "host:"),
        ("host:http", "host:http"),
        ("host:80a", "host:80a"),
        ("::1", "::1"),
        ("2001:db8::1", "2001:db8::1"),
        ("a:b:80", "a:b:80"),
        ("[host]:80", "host"),
        ("[a:b]:80", "a:b"),
        ("[]:80", ""),
        ("[[host]]:80", "[[host]]:80"),
        ("[host:80", "[host:80"),
        ("host]:80", "host]:80"),
        ("[a]b:80", "[a]b:80"),
        ("[0:0:0:0:0:0:0:1]:80", "::1"),
        ("[2001:DB8::1]:443", "2001:db8::1"),
        ("256.0.0.1:80", "256.0.0.1"),
        ("127.0.0.1:70000", "127.0.0.1"),
        ("127.0.0.1", "127.0.0.1"),
        ("h\u{e9}:1", "h\u{e9}"),
    ] {
        assert_eq!(host_of(addr), host, "host_of({addr:?})");
    }
    assert_eq!(host_given("x:1", Some("10.0.0.1".to_string())), "10.0.0.1");
    assert_eq!(host_given("x:1", None), "x");
    assert_eq!(host_given("::1", None), "::1");
}

#[test]
fn loopback_edge_cases() {
    for (host, want) in [
        ("LocalHost", true),
        ("127.255.255.254", true),
        ("128.0.0.1", false),
        ("0:0:0:0:0:0:0:1", true),
        ("::2", false),
        ("localhost.", false),
        ("", false),
        ("[::1]", false),
        ("127.0.0.01", false),
    ] {
        assert_eq!(is_loopback_host(host), want, "is_loopback_host({host:?})");
    }
    assert!(is_local_given("localhost", None));
    assert!(is_local_given("x", Some(true)));
    assert!(!is_local_given("x", Some(false)));
    assert!(!is_local_given("x", None));
}

#[test]
fn loopback_addresses_are_local_and_other_names_are_not() {
    for addr in ["LOCALHOST:0", "127.1.2.3:65535", "[::1]:1", "localhost", "127.0.0.1", "::1"] {
        assert!(is_local_address(addr), "{addr}");
        assert!(matches!(
            admin_transport_decision(addr, None, false, false),
            Ok(TransportDecision::Plaintext)
        ));
    }
    for addr in
        [
            "signet.internal:8444",
            "localhostx:1",
            "10.0.0.5:8444",
            "10.0.0.5",
            "signet.internal",
            "x:y:1",
            "::2",
            "2001:db8::1",
            "[2001:db8::1]:443",
            "[::ffff:127.0.0.1]:443",
            "[::0.0.0.17]:443",
        ]
    {
        assert!(!is_local_address(addr), "{addr}");
        assert!(matches!(
            admin_transport_decision(addr, None, false, false),
            Ok(TransportDecision::Tls(TrustRoots::System))
        ));
    }
}

#[test]
fn ca_bundle_is_kept_for_verification() {
    for addr in ["localhost:8444", "signet.internal:8444"] {
        match admin_transport_decision(addr, Some(TEST_CA), false, false) {
            Ok(TransportDecision::Tls(TrustRoots::Pem(pem))) => assert_eq!(pem, TEST_CA),
            other => panic!("unexpected {other:?}"),
        }
    }
}

#[test]
fn transport_given_covers_every_override() {
    for local in [false, true] {
        for force_tls in [false, true] {
            for plaintext in [false, true] {
                for ca in [None, Some(&[][..]), Some(TEST_CA)] {
                    let ca_given = ca.map(|pem| !pem.is_empty()).unwrap_or(false);
                    let decision = transport_given(local, ca, force_tls, plaintext);
                    if plaintext && force_tls {
                        assert!(matches!(decision, Err(ClientError::ForceTlsPlaintextConflict)));
                    } else if plaintext && ca_given {
                        assert!(matches!(decision, Err(ClientError::PlaintextCaPemConflict)));
                    } else {
                        let tls = !plaintext && (force_tls || ca_given || !local);
                        assert_eq!(decision.unwrap().requires_tls(), tls);
                    }
                }
            }
        }
    }
}

#[test]
fn validate_ca_pem_names_the_fault() {
    assert!(validate_ca_pem(TEST_CA).is_ok());
    let twice = [TEST_CA, TEST_CA].concat();
    assert!(validate_ca_pem(&twice).is_ok());
    assert!(matches!(validate_ca_pem(b""), Err(ClientError::InvalidCaPem)));
    let err = validate_ca_pem(b"-----BEGIN CERTIFICATE-----\nMIIC\n").unwrap_err();
    assert!(matches!(err, ClientError::CaPemParse(_)), "got {err:?}");
    assert_eq!(
        err.to_string(),
        "invalid CA PEM bundle: section end \"CERTIFICATE\" missing"
    );
    // A certificate in front does not hide an error behind it.
    let mut broken = TEST_CA.to_vec();
    broken.extend_from_slice(b"-----BEGIN CERTIFICATE-----\nMIIC\n");
    assert!(matches!(validate_ca_pem(&broken), Err(ClientError::CaPemParse(_))));
}

#[test]
fn judge_certificates_takes_the_first_error() {
    assert!(judge_certificates(&vec![Ok(()), Ok(())]).is_ok());
    assert!(matches!(judge_certificates(&vec![]), Err(ClientError::InvalidCaPem)));
    let items = vec![Ok(()), Err("first".to_string()), Err("second".to_string())];
    let err = judge_certificates(&items).unwrap_err();
    assert_eq!(err.to_string(), "invalid CA PEM bundle: first");
}

#[test]
fn dial_admin_prepares_the_connection() {
    let dial = dial_admin("localhost:8444", " \tt0ken\u{a0}\n", None, false, false).unwrap();
    assert_eq!(dial.uri, "http://localhost:8444");
    assert!(!dial.transport.requires_tls());
    assert_eq!(dial.token, "t0ken");
    let dial = dial_admin("signet.internal:8444", "t", None, false, false).unwrap();
    assert_eq!(dial.uri, "https://signet.internal:8444");
    assert!(dial.transport.requires_tls());
}

#[test]
fn dial_admin_reports_faults_in_order() {
    // The token comes before the transport, the transport before the address.
    let err = dial_admin("not an address", "", None, true, true).unwrap_err();
    assert!(matches!(err, ClientError::EmptyToken));
    let err = dial_admin("not an address", "t", None, true, true).unwrap_err();
    assert!(matches!(err, ClientError::ForceTlsPlaintextConflict));
    let err = dial_admin("not an address", "t", None, false, false).unwrap_err();
    assert_eq!(err.to_string(), "invalid address \"not an address\": invalid URI");
    assert!(matches!(err, ClientError::InvalidEndpoint { addr, .. } if addr == "not an address"));
}

#[test]
fn token_interceptor_carries_the_bearer_credential() {
    let interceptor = TokenInterceptor::new("test-token").unwrap();
    assert_eq!(interceptor.header_value(), "Bearer test-token");
    assert_eq!(interceptor.clone().header_value(), "Bearer test-token");
    assert!(TokenInterceptor::new("two\nlines").is_none());
    assert!(TokenInterceptor::new("del\u{7f}").is_none());
    assert!(TokenInterceptor::new("tab\tand \u{e9}").is_some());
}

#[test]
fn opening_the_admin_connection_maps_outcomes() {
    let dial = dial_admin("localhost:8444", " t ", None, false, false).unwrap();
    assert_eq!(dial.addr, "localhost:8444");
    let credential = dial.on_event(AdminEvent::Connected).unwrap().unwrap();
    assert_eq!(credential.header_value(), "Bearer t");
    assert!(matches!(
        dial.on_event(AdminEvent::EndpointRefused("bad".to_string())),
        Err(ClientError::InvalidEndpoint { addr, source })
            if addr == "localhost:8444" && source == "bad"
    ));
    assert!(matches!(
        dial.on_event(AdminEvent::ConnectFailed("refused".to_string())),
        Err(ClientError::Connect { addr, source })
            if addr == "localhost:8444" && source == "refused"
    ));
    let dial = dial_admin("localhost:8444", "two\nlines", None, false, false).unwrap();
    assert!(matches!(dial.on_event(AdminEvent::Connected), Ok(None)));
}

#[test]
fn uri_of_picks_the_scheme() {
    assert_eq!(uri_of("h:1", true), "https://h:1");
    assert_eq!(uri_of("h:1", false), "http://h:1");
}

#[test]
fn client_errors_say_what_failed() {
    let s = |text: &str| text.to_string();
    let cases = [
        (
            ClientError::InvalidEndpoint { addr: s("a\"b"), source: s("bad") },
            "invalid address \"a\\\"b\": bad",
        ),
        (
            ClientError::Connect { addr: s("h:1"), source: s("refused") },
            "connect to \"h:1\": refused",
        ),
        (
            ClientError::ReadCaFile { path: s("/ca.pem"), source: s("gone") },
            "read CA file \"/ca.pem\": gone",
        ),
        (
            ClientError::WorkloadApi { socket: s("unix:///s"), source: s("no") },
            "connect to SPIFFE Workload API at \"unix:///s\": no",
        ),
        (
            ClientError::WorkloadNoIdentityIssued {
                socket: s("unix:///s"),
                attempts: 5,
                source: s("none"),
            },
            "connect to SPIFFE workload API at \"unix:///s\": no identity issued after 5 attempts: none",
        ),
        (
            ClientError::WorkloadProbe { socket: s("unix:///s"), source: s("denied") },
            "connect to SPIFFE workload API at \"unix:///s\": denied",
        ),
        (
            ClientError::InvalidTrustDomain(s("x y"), s("bad")),
            "invalid trust domain \"x y\": bad",
        ),
        (ClientError::SpiffeTls(s("bad")), "build SPIFFE mTLS client config: bad"),
        (
            ClientError::InvalidWorkloadAddress(s("h")),
            "invalid workload address \"h\": expected host:port",
        ),
        (
            ClientError::WorkloadConnect { addr: s("h:1"), source: s("refused") },
            "connect to \"h:1\": refused",
        ),
    ];
    for (error, text) in cases {
        assert_eq!(error.to_string(), text);
    }
}
