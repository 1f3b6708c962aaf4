use blooio::config::ClientConfig;
use blooio::diagnostics::{
    SensitiveRequestSnapshot, SensitiveResponseSnapshot, SensitiveTransportErrorSnapshot,
    SensitiveTransportErrorStage,
};
use blooio::operation::Method;
use blooio::options::RequestOptions;
use blooio::request::RequestSpec;
use blooio::resources::chats::SendMessage;

fn request_snapshot() -> SensitiveRequestSnapshot {
    SensitiveRequestSnapshot {
        method: Method::Post,
        url: "https://secret.example/chats/chat-secret/messages?token=sk-secret".to_owned(),
        operation: "blooio::test::SecretOperation",
        attempt: 1,
        max_retries: 2,
        trace_label: Some("trace-secret".to_owned()),
        headers: vec![
            ("authorization".to_owned(), "Bearer sk-secret".to_owned()),
            ("idempotency-key".to_owned(), "idem-secret".to_owned()),
        ],
        body: Some(b"secret-body".to_vec()),
    }
}

fn response_snapshot(request: &SensitiveRequestSnapshot) -> SensitiveResponseSnapshot {
    SensitiveResponseSnapshot::from_raw(
        request,
        200,
        vec![("x-secret".to_owned(), b"secret-response-header".to_vec())],
        b"secret-response-body".to_vec(),
    )
}

#[test]
fn debug_output_redacts_sensitive_material() {
    let request = request_snapshot();
    let response = response_snapshot(&request);
    let error = SensitiveTransportErrorSnapshot::new(
        request.clone(),
        SensitiveTransportErrorStage::Send,
        "raw error https://secret.example/path?token=sk-secret".to_owned(),
    );
    for debug in [request.debug_string(), response.debug_string(), error.debug_string()] {
        for forbidden in [
            "https://secret.example",
            "Bearer sk-secret",
            "secret-body",
            "secret-response-header",
            "secret-response-body",
            "token=sk-secret",
            "trace-secret",
        ] {
            assert!(!debug.contains(forbidden), "leaked {forbidden:?}: {debug}");
        }
        assert!(debug.contains("REDACTED"));
    }
    assert_eq!(
        request.debug_string(),
        "SensitiveRequestSnapshot { method: POST, url: [REDACTED; 65 chars], operation: \"blooio::test::SecretOperation\", attempt: 1, max_retries: 2, trace_label: Some([REDACTED]), headers: [REDACTED; 2], body: Some([REDACTED; 11 bytes]) }"
    );
    assert!(error.debug_string().contains("stage: Send, error: [REDACTED; 53 chars]"));
    assert!(response.debug_string().contains("status: 200, headers: [REDACTED; 1], body: [REDACTED; 20 bytes] }"));
}

#[test]
fn request_snapshot_holds_wire_headers_and_body() {
    let op = SendMessage::new("c1").text("hi").idempotency_key("k");
    let spec = RequestSpec::build(&op).ok().unwrap();
    let snap = SensitiveRequestSnapshot::from_spec(&spec, "https://x/chats/c1/messages", "Bearer key", "Send", 2, 3, Some("lbl"));
    assert_eq!(snap.method, Method::Post);
    assert_eq!(snap.attempt, 2);
    assert_eq!(snap.max_retries, 3);
    assert_eq!(snap.trace_label.as_deref(), Some("lbl"));
    assert_eq!(
        snap.headers,
        vec![
            ("authorization".to_owned(), "Bearer key".to_owned()),
            ("Idempotency-Key".to_owned(), "k".to_owned()),
            ("content-type".to_owned(), "application/json".to_owned()),
        ]
    );
    assert_eq!(snap.body, Some(br#"{"text":"hi"}"#.to_vec()));
    let response = SensitiveResponseSnapshot::from_raw(&snap, 201, vec![], b"{}".to_vec());
    assert_eq!(response.url, "https://x/chats/c1/messages");
    assert_eq!(response.status, 201);
}

#[test]
fn sensitive_tracing_can_be_set_and_cleared() {
    let cfg = ClientConfig::new().with_sensitive_tracing();
    assert!(cfg.sensitive_tracing);
    assert!(RequestOptions::new().sensitive_tracing_enabled(&cfg));
    assert!(!RequestOptions::new().without_sensitive_tracing().sensitive_tracing_enabled(&cfg));
    let cfg = cfg.without_sensitive_tracing();
    assert!(!cfg.sensitive_tracing);
    assert!(!RequestOptions::new().sensitive_tracing_enabled(&cfg));
    assert!(RequestOptions::new().sensitive_tracing().sensitive_tracing_enabled(&cfg));
    let dbg = cfg.debug_string();
    assert!(dbg.contains("sensitive_tracing: false"));
    let dbg = cfg.with_sensitive_tracing().debug_string();
    assert!(dbg.contains("sensitive_tracing: [REDACTED]"));
}
