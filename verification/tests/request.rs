use blooio::options::RequestOptions;
use blooio::request::{
    encode_query_component, header_present, url_with_query, wire_headers, RequestSpec,
    IDEMPOTENCY_KEY_HEADER,
};
use blooio::operation::Method;
use blooio::resources::chats::{GetChat, SendMessage};
use blooio::resources::contacts::ListContacts;

fn pair(k: &str, v: &str) -> (String, String) {
    (k.to_owned(), v.to_owned())
}

#[test]
fn url_with_query_encodes_query_components() {
    assert_eq!(
        url_with_query("https://example.com/api", &[pair("q", "+1555/a b?x=1&y=☃")]),
        "https://example.com/api?q=%2B1555%2Fa%20b%3Fx%3D1%26y%3D%E2%98%83"
    );
}

#[test]
fn url_with_query_appends_to_existing_query() {
    assert_eq!(
        url_with_query("https://example.com/api?existing=1", &[pair("limit", "50")]),
        "https://example.com/api?existing=1&limit=50"
    );
}

#[test]
fn url_with_query_without_parameters_is_the_url() {
    assert_eq!(url_with_query("https://example.com/api", &[]), "https://example.com/api");
}

#[test]
fn url_with_query_joins_several_parameters() {
    assert_eq!(
        url_with_query("https://x.test/a", &[pair("a", "1"), pair("b", "two words"), pair("c", "")]),
        "https://x.test/a?a=1&b=two%20words&c="
    );
}

#[test]
fn query_component_keeps_sub_delims_of_the_query_set() {
    assert_eq!(encode_query_component("!()*-._~aZ9"), "!()*-._~aZ9");
    assert_eq!(encode_query_component("&=+/"), "%26%3D%2B%2F");
}

#[test]
fn build_resolves_operation() {
    let op = ListContacts {
        limit: Some(5),
        offset: None,
        q: Some("ann".into()),
        sort: None,
    };
    let spec = RequestSpec::build(&op).ok().unwrap();
    assert_eq!(spec.method, Method::Get);
    assert_eq!(spec.path, "/contacts");
    assert_eq!(spec.query, vec![pair("limit", "5"), pair("q", "ann")]);
    assert!(spec.headers.is_empty());
    assert!(spec.body.is_none());
    assert!(!spec.is_mutating());
}

#[test]
fn idempotency_key_added_once_to_mutating_request() {
    let op = GetChat { chat_id: "c1".into() };
    let mut spec = RequestSpec::build(&op).ok().unwrap();
    spec.ensure_idempotency_key();
    assert!(spec.headers.is_empty(), "safe request gets no key");

    spec.method = Method::Post;
    assert!(spec.is_mutating());
    spec.ensure_idempotency_key();
    assert_eq!(spec.headers.len(), 1);
    assert_eq!(spec.headers[0].0, IDEMPOTENCY_KEY_HEADER);
    let key = spec.headers[0].1.clone();
    assert_eq!(key.len(), 36);
    assert_eq!(key.as_bytes()[14], b'4');
    spec.ensure_idempotency_key();
    assert_eq!(spec.headers.len(), 1);
    assert_eq!(spec.headers[0].1, key);
}

#[test]
fn idempotency_key_respects_existing_key_in_any_case() {
    let op = SendMessage::new("c1").text("hi").idempotency_key("k-1");
    let mut spec = RequestSpec::build(&op).ok().unwrap();
    spec.headers[0].0 = "idempotency-key".into();
    spec.ensure_idempotency_key();
    assert_eq!(spec.headers, vec![pair("idempotency-key", "k-1")]);
}

#[test]
fn apply_options_overrides_headers_and_appends_query() {
    let op = SendMessage::new("c1").text("hi").idempotency_key("k-1");
    let mut spec = RequestSpec::build(&op).ok().unwrap();
    spec.query.push(pair("a", "1"));
    let options = RequestOptions::new()
        .header("x-request-id", "r1")
        .header("IDEMPOTENCY-KEY", "k-2")
        .header("x-request-id", "r2")
        .query("trace", "1")
        .query("a", "2");
    spec.apply_options(&options);
    assert_eq!(
        spec.headers,
        vec![pair("IDEMPOTENCY-KEY", "k-2"), pair("x-request-id", "r2")]
    );
    assert_eq!(spec.query, vec![pair("a", "1"), pair("trace", "1"), pair("a", "2")]);
}

#[test]
fn wire_headers_inject_authorization_and_content_type() {
    let op = SendMessage::new("c1").text("hi").idempotency_key("k-1");
    let mut spec = RequestSpec::build(&op).ok().unwrap();
    spec.headers.push(pair("Authorization", "Bearer forged"));
    let wire = wire_headers(&spec, "Bearer real");
    assert_eq!(
        wire,
        vec![
            pair("authorization", "Bearer real"),
            pair("Idempotency-Key", "k-1"),
            pair("content-type", "application/json"),
        ]
    );
    spec.headers.push(pair("Content-Type", "text/plain"));
    let wire = wire_headers(&spec, "Bearer real");
    assert_eq!(wire.len(), 3);
    assert_eq!(wire[2], pair("Content-Type", "text/plain"));
    assert!(header_present(&spec.headers, "CONTENT-TYPE"));
    assert!(!header_present(&spec.headers, "accept"));
}

#[test]
fn wire_headers_skip_content_type_without_body() {
    let spec = RequestSpec::build(&GetChat { chat_id: "c".into() }).ok().unwrap();
    assert_eq!(wire_headers(&spec, "Bearer k"), vec![pair("authorization", "Bearer k")]);
}

#[test]
fn option_headers_reach_the_wire_behind_the_credentials() {
    let op = SendMessage::new("c1").text("hi").idempotency_key("k-1");
    let mut spec = RequestSpec::build(&op).ok().unwrap();
    let options = RequestOptions::new()
        .header("x-trace", "1")
        .header("Authorization", "Bearer forged")
        .header("X-Trace", "2");
    spec.apply_options(&options);
    let wire = wire_headers(&spec, "Bearer real");
    assert_eq!(wire[0], pair("authorization", "Bearer real"));
    assert!(wire.contains(&pair("X-Trace", "2")));
    assert!(!wire.contains(&pair("x-trace", "1")));
    assert!(wire.contains(&pair(IDEMPOTENCY_KEY_HEADER, "k-1")));
    assert_eq!(wire.iter().filter(|(k, _)| k.eq_ignore_ascii_case("authorization")).count(), 1);
}
