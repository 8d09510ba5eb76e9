use echo_client::auth::{AuthInterceptor, Metadata};
use echo_client::config::resolve;
use echo_client::decimal::u64_to_dec;
use echo_client::endpoint::{interpret_connect, parse_endpoint};
use echo_client::error::ClientError;
use echo_client::messages::{EchoRequest, EchoResponse};
use echo_client::probe::{interpret_probe, probe_request};
use echo_client::queue::OutboundQueue;
use echo_client::stream::{Orchestrator, ProduceStep};

fn upper(s: &str) -> String {
    s.chars().map(|c| c.to_ascii_uppercase()).collect()
}

#[test]
fn decimal_formatting() {
    assert_eq!(u64_to_dec(0), "0");
    assert_eq!(u64_to_dec(7), "7");
    assert_eq!(u64_to_dec(10), "10");
    assert_eq!(u64_to_dec(42), "42");
    assert_eq!(u64_to_dec(1234567890), "1234567890");
}

#[test]
fn tls_requested_for_absent_or_secure_scheme() {
    let e = parse_endpoint("localhost:8000").unwrap();
    assert!(e.use_tls());
    let e = parse_endpoint("https://example.com").unwrap();
    assert!(e.use_tls());
}

#[test]
fn tls_not_requested_for_other_schemes() {
    let e = parse_endpoint("http://example.com:8000").unwrap();
    assert!(!e.use_tls());
    let e = parse_endpoint("grpc://example.com").unwrap();
    assert!(!e.use_tls());
}

#[test]
fn parse_endpoint_reads_authority() {
    let e = parse_endpoint("http://localhost:8000").unwrap();
    assert_eq!(e.scheme.as_deref(), Some("http"));
    assert_eq!(e.host, "localhost");
    assert_eq!(e.port, Some(8000));
}

#[test]
fn parse_endpoint_rejects_invalid_url() {
    let r = parse_endpoint("http://exa mple.com");
    assert!(matches!(r, Err(ClientError::ParseError)));
}

#[test]
fn parse_endpoint_rejects_missing_host() {
    let r = parse_endpoint("/just/a/path");
    assert!(matches!(r, Err(ClientError::ParseError)));
}

#[test]
fn missing_credential_is_config_error() {
    let r = resolve(None, None);
    assert!(matches!(r, Err(ClientError::ConfigError)));
}

#[test]
fn resolve_uses_default_endpoint() {
    let cfg = match resolve(Some("tok123".to_string()), None) {
        Ok(c) => c,
        Err(_) => panic!("resolution failed"),
    };
    assert_eq!(cfg.credential, "tok123");
    assert_eq!(cfg.endpoint.scheme.as_deref(), Some("http"));
    assert_eq!(cfg.endpoint.host, "localhost");
    assert_eq!(cfg.endpoint.port, Some(8000));
    assert!(!cfg.endpoint.use_tls());
}

#[test]
fn resolve_honors_configured_endpoint() {
    let cfg = match resolve(
        Some("tok123".to_string()),
        Some("https://echo.example.com:4443".to_string()),
    ) {
        Ok(c) => c,
        Err(_) => panic!("resolution failed"),
    };
    assert_eq!(cfg.endpoint.host, "echo.example.com");
    assert_eq!(cfg.endpoint.port, Some(4443));
    assert!(cfg.endpoint.use_tls());
}

#[test]
fn resolve_rejects_bad_endpoint() {
    let r = resolve(Some("tok123".to_string()), Some("not a url".to_string()));
    assert!(matches!(r, Err(ClientError::ParseError)));
}

#[test]
fn wrapped_call_carries_credential() {
    let a = AuthInterceptor::new("tok123".to_string());
    let mut m = Metadata::new();
    m.push_entry("content-type".to_string(), "application/grpc".to_string());
    let out = match a.intercept(m) {
        Ok(out) => out,
        Err(_) => panic!("interception failed"),
    };
    assert_eq!(out.entries.len(), 2);
    assert_eq!(out.entries[0].0, "content-type");
    assert_eq!(out.entries[0].1, "application/grpc");
    assert_eq!(out.entries[1].0, "authorization");
    assert_eq!(out.entries[1].1, "Bearer tok123");
}

#[test]
fn empty_metadata_gains_only_the_credential() {
    let a = AuthInterceptor::new("tok123".to_string());
    let out = match a.intercept(Metadata::new()) {
        Ok(out) => out,
        Err(_) => panic!("interception failed"),
    };
    assert_eq!(out.entries.len(), 1);
    assert_eq!(out.entries[0].0, "authorization");
    assert_eq!(out.entries[0].1, "Bearer tok123");
}

#[test]
fn unencodable_credential_is_auth_encoding_error() {
    let a = AuthInterceptor::new("bad\ntoken".to_string());
    let r = a.intercept(Metadata::new());
    assert!(matches!(r, Err(ClientError::AuthEncodingError)));
}

#[test]
fn non_ascii_credential_is_auth_encoding_error() {
    let a = AuthInterceptor::new("t\u{00f6}k".to_string());
    let r = a.intercept(Metadata::new());
    assert!(matches!(r, Err(ClientError::AuthEncodingError)));
}

#[test]
fn tab_and_printable_ascii_are_encodable() {
    let a = AuthInterceptor::new("tok\t123 ~".to_string());
    let out = match a.intercept(Metadata::new()) {
        Ok(out) => out,
        Err(_) => panic!("interception failed"),
    };
    assert_eq!(out.entries[0].1, "Bearer tok\t123 ~");
}

#[test]
fn probe_carries_fixed_message() {
    assert_eq!(probe_request().message, "hello world");
}

#[test]
fn probe_rejection_is_call_error() {
    let r = interpret_probe(Err((16, "unauthenticated".to_string())));
    match r {
        Err(ClientError::CallError(code, msg)) => {
            assert_eq!(code, 16);
            assert_eq!(msg, "unauthenticated");
        }
        _ => panic!("expected CallError"),
    }
}

#[test]
fn dial_failure_is_connection_error() {
    let r = interpret_connect(Err("connection refused".to_string()));
    match r {
        Err(ClientError::ConnectionError(cause)) => assert_eq!(cause, "connection refused"),
        _ => panic!("expected ConnectionError"),
    }
    assert!(interpret_connect(Ok(())).is_ok());
}

#[test]
fn queue_is_fifo_and_bounded() {
    let mut q = OutboundQueue::new(2);
    assert!(q.try_push(EchoRequest { message: "a".to_string() }).is_ok());
    assert!(q.try_push(EchoRequest { message: "b".to_string() }).is_ok());
    let back = match q.try_push(EchoRequest { message: "c".to_string() }) {
        Err(r) => r,
        Ok(()) => panic!("queue accepted above capacity"),
    };
    assert_eq!(back.message, "c");
    assert_eq!(q.pop().unwrap().message, "a");
    assert!(q.try_push(back).is_ok());
    assert_eq!(q.pop().unwrap().message, "b");
    assert_eq!(q.pop().unwrap().message, "c");
    assert!(q.pop().is_none());
}

#[test]
fn backpressure_with_capacity_one() {
    let mut o = Orchestrator::new(1, 5);
    assert_eq!(o.poll_producer(), ProduceStep::Enqueued);
    assert_eq!(o.producer.next, 1);
    // the consumer has not drained yet: the second enqueue suspends
    assert_eq!(o.poll_producer(), ProduceStep::Blocked);
    assert_eq!(o.producer.next, 1);
    // once drained, the producer resumes where it was
    let m = o.transport_drain().unwrap();
    assert_eq!(m.message, "echo request 0");
    assert_eq!(o.poll_producer(), ProduceStep::Enqueued);
    assert_eq!(o.producer.next, 2);
}

#[test]
fn outbound_order_and_end_to_end_session() {
    let cfg = match resolve(Some("tok123".to_string()), None) {
        Ok(c) => c,
        Err(_) => panic!("resolution failed"),
    };
    assert!(!cfg.endpoint.use_tls());

    // the unary probe against an uppercasing echo double
    let a = AuthInterceptor::new(cfg.credential);
    let meta = match a.intercept(Metadata::new()) {
        Ok(m) => m,
        Err(_) => panic!("interception failed"),
    };
    assert_eq!(meta.entries[0].1, "Bearer tok123");
    let req = probe_request();
    let reply: Result<EchoResponse, (u32, String)> =
        Ok(EchoResponse { message: upper(&req.message) });
    let resp = match interpret_probe(reply) {
        Ok(r) => r,
        Err(_) => panic!("probe failed"),
    };
    assert_eq!(resp.message, "HELLO WORLD");

    // the streaming session against the same double
    let mut o = Orchestrator::new(10, 5);
    let mut wire: Vec<String> = Vec::new();
    loop {
        let step = o.poll_producer();
        while let Some(r) = o.transport_drain() {
            wire.push(r.message.clone());
            o.on_response(EchoResponse { message: upper(&r.message) });
        }
        if step == ProduceStep::Closed {
            break;
        }
    }
    o.on_inbound_closed();

    let expected_wire = vec![
        "echo request 0",
        "echo request 1",
        "echo request 2",
        "echo request 3",
        "echo request 4",
    ];
    assert_eq!(wire, expected_wire);
    let received: Vec<String> = o.received.iter().map(|r| r.message.clone()).collect();
    let expected_received = vec![
        "ECHO REQUEST 0",
        "ECHO REQUEST 1",
        "ECHO REQUEST 2",
        "ECHO REQUEST 3",
        "ECHO REQUEST 4",
    ];
    assert_eq!(received, expected_received);
    assert!(matches!(o.outcome(), Some(Ok(()))));
}

#[test]
fn inbound_failure_decides_outcome_without_waiting() {
    let mut o = Orchestrator::new(2, 5);
    assert_eq!(o.poll_producer(), ProduceStep::Enqueued);
    assert_eq!(o.poll_producer(), ProduceStep::Enqueued);
    // the inbound half fails while the outbound half still has three to send
    o.on_inbound_error("remote cancelled".to_string());
    assert!(o.producer.next < o.producer.total);
    // later producer turns do nothing; the outcome is the inbound error at once
    assert_eq!(o.poll_producer(), ProduceStep::Idle);
    match o.outcome() {
        Some(Err(ClientError::RecvError(s))) => assert_eq!(s, "remote cancelled"),
        _ => panic!("expected the inbound error"),
    }
}

#[test]
fn send_failure_is_send_error() {
    let mut o = Orchestrator::new(2, 5);
    o.on_send_failed("transport torn down".to_string());
    match o.outcome() {
        Some(Err(ClientError::SendError(s))) => assert_eq!(s, "transport torn down"),
        _ => panic!("expected SendError"),
    }
}

#[test]
fn first_error_wins() {
    let mut o = Orchestrator::new(2, 5);
    o.on_inbound_error("first".to_string());
    o.on_send_failed("second".to_string());
    match o.outcome() {
        Some(Err(ClientError::RecvError(s))) => assert_eq!(s, "first"),
        _ => panic!("expected the first error"),
    }
}

#[test]
fn undecided_until_both_halves_complete() {
    let mut o = Orchestrator::new(10, 1);
    assert_eq!(o.poll_producer(), ProduceStep::Enqueued);
    assert_eq!(o.poll_producer(), ProduceStep::Closed);
    // the queue is not drained and the inbound half is still open
    assert!(matches!(o.outcome(), None));

    let mut o = Orchestrator::new(10, 1);
    assert_eq!(o.poll_producer(), ProduceStep::Enqueued);
    assert_eq!(o.poll_producer(), ProduceStep::Closed);
    assert!(o.transport_drain().is_some());
    // drained, but the inbound half has not seen end-of-stream
    assert!(matches!(o.outcome(), None));
}
