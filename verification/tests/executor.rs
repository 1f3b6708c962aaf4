use std::time::Duration;

use blooio::config::ClientConfig;
use blooio::error::{ApiError, ApiErrorDetails, Error};
use blooio::executor::{chunk_fits, effective_retry, error_kind, prepare, read_step, Attempts};
use blooio::options::RequestOptions;
use blooio::resources::chats::{GetChat, SendMessage};
use blooio::resources::contacts::{CreateContact, ListContacts};
use blooio::retry::RetryPolicy;
use blooio::time::duration_ms;

fn api_err(status: u16) -> Error {
    Error::Api(ApiError::from_schema(status, None, None, None, ApiErrorDetails::default(), None))
}

#[test]
fn safe_operations_use_request_or_client_policy() {
    let cfg = ClientConfig::new();
    let p = effective_retry::<GetChat>(&RequestOptions::new(), &cfg);
    assert_eq!(p.max_retries, 2);
    let p = effective_retry::<GetChat>(&RequestOptions::new().retry(RetryPolicy::default().with_max_retries(7)), &cfg);
    assert_eq!(p.max_retries, 7);
}

#[test]
fn mutating_operations_are_not_retried_by_default() {
    let cfg = ClientConfig::new();
    let p = effective_retry::<CreateContact>(&RequestOptions::new().retry(RetryPolicy::default().with_max_retries(7)), &cfg);
    assert_eq!(p.max_retries, 0);
}

#[test]
fn prepare_builds_url_and_request() {
    let cfg = ClientConfig::new().with_base_url("https://example.com/api");
    let op = ListContacts { limit: Some(2), offset: None, q: Some("a b".into()), sort: None };
    let options = RequestOptions::new().query("trace", "1").header("x-id", "r");
    let p = prepare(&op, &options, &cfg).ok().unwrap();
    assert_eq!(p.url, "https://example.com/api/contacts?limit=2&q=a%20b&trace=1");
    assert_eq!(p.spec.headers, vec![("x-id".to_owned(), "r".to_owned())]);
    assert_eq!(p.retry.max_retries, 2);
}

#[test]
fn prepare_uses_request_base_url_and_rejects_bad_one() {
    let cfg = ClientConfig::new();
    let op = GetChat { chat_id: "c1".into() };
    let ok = prepare(&op, &RequestOptions::new().base_url("https://other.test/v2/"), &cfg).ok().unwrap();
    assert_eq!(ok.url, "https://other.test/v2/chats/c1");
    let err = prepare(&op, &RequestOptions::new().base_url("nope"), &cfg).err().unwrap();
    assert_eq!(err.message(), "configuration error: request base URL must start with http:// or https://");
}

#[test]
fn prepare_keeps_message_idempotency_key() {
    let cfg = ClientConfig::new();
    let op = SendMessage::new("c1").text("hi").idempotency_key("k");
    let p = prepare(&op, &RequestOptions::new(), &cfg).ok().unwrap();
    assert_eq!(p.retry.max_retries, 0);
    assert_eq!(p.spec.headers, vec![("Idempotency-Key".to_owned(), "k".to_owned())]);
    assert_eq!(p.spec.body.unwrap(), br#"{"text":"hi"}"#.to_vec());
}

#[test]
fn attempts_stop_at_the_budget() {
    let mut a = Attempts::new(RetryPolicy::default().with_jitter(false).with_base_delay(Duration::from_millis(10)));
    assert_eq!(a.attempt(), 1);
    assert_eq!(a.on_failure(&api_err(503)), Some(Duration::from_millis(10)));
    assert_eq!(a.attempt(), 2);
    assert_eq!(a.on_failure(&api_err(503)), Some(Duration::from_millis(20)));
    assert_eq!(a.attempt(), 3);
    assert_eq!(a.on_failure(&api_err(503)), None);
    assert_eq!(a.retries_done(), 2);
}

#[test]
fn attempts_give_up_at_once_on_permanent_errors() {
    let mut a = Attempts::new(RetryPolicy::default());
    assert_eq!(a.on_failure(&api_err(404)), None);
    assert_eq!(a.retries_done(), 0);
    let mut none = Attempts::new(RetryPolicy::none());
    assert_eq!(none.on_failure(&Error::transport("t".into())), None);
}

#[test]
fn body_limit_checks() {
    assert!(chunk_fits(0, 10, 10));
    assert!(!chunk_fits(5, 6, 10));
    assert!(chunk_fits(usize::MAX, 1, usize::MAX));
    assert!(!chunk_fits(usize::MAX, 1, usize::MAX - 1));
}

#[test]
fn error_kinds_and_durations() {
    assert_eq!(error_kind(&api_err(500)), "api");
    assert_eq!(error_kind(&Error::RequestBuild), "request_build");
    assert_eq!(error_kind(&Error::ResponseBodyTooLarge { limit: 1 }), "response_body_too_large");
    assert_eq!(duration_ms(&Duration::from_millis(1500)), 1500);
    assert_eq!(duration_ms(&Duration::from_micros(999)), 0);
    assert_eq!(duration_ms(&Duration::MAX), u64::MAX);
}

#[test]
fn create_contact_is_never_retried_by_default() {
    let cfg = ClientConfig::new();
    let op = CreateContact { identifier: "+15550001111".into(), name: None };
    let p = prepare(&op, &RequestOptions::new(), &cfg).ok().unwrap();
    assert_eq!(p.retry.max_retries, 0);
    let mut attempts = Attempts::new(p.retry);
    assert!(attempts.on_failure(&api_err(503)).is_none());
}

#[test]
fn accepted_chunks_never_pass_the_limit() {
    let limit = 10usize;
    let mut read = 0usize;
    let mut accepted = Vec::new();
    for chunk in [4usize, 3, 3, 1] {
        if !chunk_fits(read, chunk, limit) {
            break;
        }
        read += chunk;
        accepted.push(chunk);
    }
    assert_eq!(accepted, vec![4, 3, 3]);
    assert_eq!(read, 10);
    assert!(read <= limit);
}

#[test]
fn read_step_keeps_the_body_within_the_limit() {
    let mut body = Vec::new();
    assert!(read_step(&mut body, b"abcd", 6));
    assert!(read_step(&mut body, b"ef", 6));
    assert_eq!(body, b"abcdef".to_vec());
    assert!(!read_step(&mut body, b"g", 6));
    assert_eq!(body, b"abcdef".to_vec());
    let mut empty = Vec::new();
    assert!(read_step(&mut empty, b"", 0));
    assert!(!read_step(&mut empty, b"x", 0));
    assert!(empty.is_empty());
}

#[test]
fn a_send_stops_after_the_retry_budget() {
    let mut attempts = Attempts::new(RetryPolicy::default().with_jitter(false));
    let mut made = 1;
    while attempts.on_failure(&api_err(503)).is_some() {
        made += 1;
    }
    assert_eq!(made, 3);
    let mut attempts = Attempts::new(RetryPolicy::default());
    assert!(attempts.on_failure(&api_err(400)).is_none());
    assert_eq!(attempts.attempt(), 1);
}
