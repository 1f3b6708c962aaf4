//! Per-request executor options.

use std::time::Duration;

use vstd::prelude::*;

use crate::config::{
    base_url_error, header_value_ok, normalize_base_url, valid_base_url, valid_header_value,
    validate_base_url, ClientConfig,
};
use crate::error::{Error, Result};
use crate::retry::{retry_debug_text, RetryPolicy};
use crate::time::{option_duration_debug, option_duration_debug_text};
use crate::text::{concat2, push_str, push_decimal, is_ascii_alnum, strip_trailing_slashes, dec, StringArg};

verus! {

/// Bytes allowed in an HTTP header name (RFC 7230 `tchar`).
pub open spec fn token_byte(b: u8) -> bool {
    ||| is_ascii_alnum(b)
    ||| b == 33 || b == 35 || b == 36 || b == 37 || b == 38 || b == 39
    ||| b == 42 || b == 43 || b == 45 || b == 46
    ||| b == 94 || b == 95 || b == 96 || b == 124 || b == 126
}

/// A text that `http::HeaderName::from_bytes` accepts: 1 to 65535 bytes, each
/// a token character.
pub open spec fn valid_header_name(s: Seq<char>) -> bool {
    let b = vstd::utf8::encode_utf8(s);
    &&& 1 <= b.len() <= 65535
    &&& forall|i: int| 0 <= i < b.len() ==> token_byte(#[trigger] b[i])
}

/// `http::HeaderName::from_bytes(name.as_bytes()).is_ok()`: the name has 1 to
/// 65535 bytes and each is a token character (ASCII letters and digits, and
/// ``!#$%&'*+-.^_`|~``).
#[verifier::external_body]
fn header_name_ok(name: &str) -> (r: bool)
    ensures
        r == valid_header_name(name@),
{
    http::HeaderName::from_bytes(name.as_bytes()).is_ok()
}

/// The plain content of [`RequestOptions`].
pub struct RequestOptionsView {
    pub base_url: Option<Seq<char>>,
    pub timeout: Option<Duration>,
    pub retry: Option<RetryPolicy>,
    pub headers: Seq<(Seq<char>, Seq<char>)>,
    pub query: Seq<(Seq<char>, Seq<char>)>,
    pub max_response_body_bytes: Option<usize>,
    pub trace_label: Option<Seq<char>>,
    pub sensitive_tracing: Option<bool>,
}

/// Owned text pairs as plain text.
pub open spec fn string_pairs(s: Seq<(String, String)>) -> Seq<(Seq<char>, Seq<char>)> {
    s.map_values(|p: (String, String)| (p.0@, p.1@))
}

/// Request-scoped overrides applied by the executors after an operation is
/// resolved into a concrete request.
///
/// These are transport-level concerns; operations stay focused on the API's
/// method, path, query, headers and body.
#[derive(Clone)]
pub struct RequestOptions {
    base_url: Option<String>,
    timeout: Option<Duration>,
    retry: Option<RetryPolicy>,
    headers: Vec<(String, String)>,
    query: Vec<(String, String)>,
    max_response_body_bytes: Option<usize>,
    trace_label: Option<String>,
    sensitive_tracing: Option<bool>,
}

impl View for RequestOptions {
    type V = RequestOptionsView;

    closed spec fn view(&self) -> RequestOptionsView {
        RequestOptionsView {
            base_url: match self.base_url {
                Some(b) => Some(b@),
                None => None,
            },
            timeout: self.timeout,
            retry: self.retry,
            headers: string_pairs(self.headers@),
            query: string_pairs(self.query@),
            max_response_body_bytes: self.max_response_body_bytes,
            trace_label: match self.trace_label {
                Some(l) => Some(l@),
                None => None,
            },
            sensitive_tracing: self.sensitive_tracing,
        }
    }
}

impl Default for RequestOptions {
    fn default() -> (r: Self)
        ensures
            r@.base_url is None,
            r@.timeout is None,
            r@.retry is None,
            r@.headers.len() == 0,
            r@.query.len() == 0,
            r@.max_response_body_bytes is None,
            r@.trace_label is None,
            r@.sensitive_tracing is None,
    {
        let r = RequestOptions {
            base_url: None,
            timeout: None,
            retry: None,
            headers: Vec::new(),
            query: Vec::new(),
            max_response_body_bytes: None,
            trace_label: None,
            sensitive_tracing: None,
        };
        assert(r@.headers =~= Seq::empty());
        r
    }
}

/// The `Debug` text of an optional retry policy.
pub open spec fn retry_option_debug_text(p: Option<RetryPolicy>) -> Seq<char> {
    match p {
        Some(p) => "Some("@ + retry_debug_text(p) + ")"@,
        None => "None"@,
    }
}

/// The redacted `Debug` text of request options: the base URL only as
/// present or not, the timeout and retry overrides in full, and the number
/// of extra headers and query parameters.
pub open spec fn options_debug_text(o: RequestOptionsView) -> Seq<char> {
    let base = if o.base_url is Some {
        "Some([REDACTED])"@
    } else {
        "None"@
    };
    let head = "RequestOptions { base_url: "@ + base + ", timeout: "@ + option_duration_debug_text(
        o.timeout,
    );
    let tail = ", headers: [REDACTED; "@ + dec(o.headers.len()) + "], query: [REDACTED; "@
        + dec(o.query.len()) + "] }"@;
    head + ", retry: "@ + retry_option_debug_text(o.retry) + tail
}

fn retry_text(p: &Option<RetryPolicy>) -> (r: String)
    ensures
        r@ == retry_option_debug_text(*p),
{
    match p {
        Some(p) => {
            let mut s = "Some(".to_owned();
            let d = p.debug_string();
            push_str(&mut s, d.as_str());
            push_str(&mut s, ")");
            s
        },
        None => "None".to_owned(),
    }
}

/// The text of a list length, for the redacted debug form.
fn count_text(n: usize) -> (r: String)
    ensures
        r@ == dec(n as nat),
{
    let mut s = String::new();
    push_decimal(&mut s, n as u64);
    s
}

impl RequestOptions {
    /// Empty request options.
    pub fn new() -> (r: Self)
        ensures
            r@.base_url is None,
            r@.timeout is None,
            r@.retry is None,
            r@.headers.len() == 0,
            r@.query.len() == 0,
            r@.max_response_body_bytes is None,
            r@.trace_label is None,
            r@.sensitive_tracing is None,
    {
        Self::default()
    }

    /// Override the API base URL for this request only (trailing slashes are
    /// trimmed). The value is concatenated with the operation path.
    pub fn base_url<S: StringArg>(self, base_url: S) -> (r: Self)
        ensures
            r@ == (RequestOptionsView {
                base_url: Some(strip_trailing_slashes(base_url.arg_view())),
                ..self@
            }),
    {
        let b = normalize_base_url(base_url.into_string());
        RequestOptions { base_url: Some(b), ..self }
    }

    /// Override the API base URL for this request only, validating that the
    /// value is an absolute `http` or `https` URL without a query string.
    pub fn try_base_url(self, base_url: &str) -> (r: Result<Self>)
        ensures
            match r {
                Ok(o) => valid_base_url(base_url@) && o@ == (RequestOptionsView {
                    base_url: Some(strip_trailing_slashes(base_url@)),
                    ..self@
                }),
                Err(e) => !valid_base_url(base_url@) && (e matches Error::Config(m) && m@
                    == base_url_error(base_url@, "request base URL"@)),
            },
    {
        validate_base_url(base_url, "request base URL")?;
        let b = normalize_base_url(base_url.to_owned());
        Ok(RequestOptions { base_url: Some(b), ..self })
    }

    /// Override the per-attempt timeout for this request (it applies to each
    /// HTTP attempt, retries included).
    pub fn timeout(self, timeout: Duration) -> (r: Self)
        ensures
            r@ == (RequestOptionsView { timeout: Some(timeout), ..self@ }),
    {
        RequestOptions { timeout: Some(timeout), ..self }
    }

    /// Override the retry policy for this request.
    pub fn retry(self, retry: RetryPolicy) -> (r: Self)
        ensures
            r@ == (RequestOptionsView { retry: Some(retry), ..self@ }),
    {
        RequestOptions { retry: Some(retry), ..self }
    }

    /// Disable retries for this request.
    pub fn no_retry(self) -> (r: Self)
        ensures
            r@.retry matches Some(p) && p.max_retries == 0,
            r@ == (RequestOptionsView { retry: r@.retry, ..self@ }),
    {
        self.retry(RetryPolicy::none())
    }

    /// Add or override a trusted static header.
    pub fn header<N: StringArg, V: StringArg>(self, name: N, value: V) -> (r: Self)
        ensures
            r@ == (RequestOptionsView {
                headers: self@.headers.push((name.arg_view(), value.arg_view())),
                ..self@
            }),
    {
        let mut o = self;
        let n = name.into_string();
        let v = value.into_string();
        let ghost before = o.headers@;
        o.headers.push((n, v));
        assert(string_pairs(o.headers@) =~= string_pairs(before).push((n@, v@)));
        o
    }

    /// Add or override a header, validating that the name and value are valid
    /// HTTP header components.
    pub fn try_header(self, name: &str, value: &str) -> (r: Result<Self>)
        ensures
            match r {
                Ok(o) => valid_header_name(name@) && valid_header_value(value@) && o@
                    == (RequestOptionsView {
                    headers: self@.headers.push((name@, value@)),
                    ..self@
                }),
                Err(e) => e matches Error::Config(m) && if !valid_header_name(name@) {
                    m@ == "invalid HTTP header name"@
                } else {
                    !valid_header_value(value@) && m@ == "failed to parse header value"@
                },
            },
    {
        if !header_name_ok(name) {
            return Err(Error::config("invalid HTTP header name".to_owned()));
        }
        if !header_value_ok(value) {
            return Err(Error::config("failed to parse header value".to_owned()));
        }
        Ok(self.header(name, value))
    }

    /// Append an extra query parameter. Extra parameters come after the
    /// operation's own; a key given several times sends every value.
    pub fn query<K: StringArg, V: StringArg>(self, key: K, value: V) -> (r: Self)
        ensures
            r@ == (RequestOptionsView {
                query: self@.query.push((key.arg_view(), value.arg_view())),
                ..self@
            }),
    {
        let mut o = self;
        let k = key.into_string();
        let v = value.into_string();
        let ghost before = o.query@;
        o.query.push((k, v));
        assert(string_pairs(o.query@) =~= string_pairs(before).push((k@, v@)));
        o
    }

    /// Override the in-memory response body limit for this request.
    pub fn max_response_body_bytes(self, limit: usize) -> (r: Self)
        ensures
            r@ == (RequestOptionsView { max_response_body_bytes: Some(limit), ..self@ }),
    {
        RequestOptions { max_response_body_bytes: Some(limit), ..self }
    }

    /// Attach a caller-chosen label that the executors' tracing carries for
    /// correlation.
    pub fn trace_label<S: StringArg>(self, label: S) -> (r: Self)
        ensures
            r@ == (RequestOptionsView { trace_label: Some(label.arg_view()), ..self@ }),
    {
        RequestOptions { trace_label: Some(label.into_string()), ..self }
    }

    /// Emit complete, unredacted snapshots of this request to the
    /// `blooio::sensitive` tracing target, whatever the client's setting.
    pub fn sensitive_tracing(self) -> (r: Self)
        ensures
            r@ == (RequestOptionsView { sensitive_tracing: Some(true), ..self@ }),
    {
        RequestOptions { sensitive_tracing: Some(true), ..self }
    }

    /// Suppress unredacted tracing for this request, whatever the client's
    /// setting.
    pub fn without_sensitive_tracing(self) -> (r: Self)
        ensures
            r@ == (RequestOptionsView { sensitive_tracing: Some(false), ..self@ }),
    {
        RequestOptions { sensitive_tracing: Some(false), ..self }
    }

    /// Whether this request is traced unredacted: the request's setting when
    /// it has one, the client's otherwise.
    pub fn sensitive_tracing_enabled(&self, config: &ClientConfig) -> (r: bool)
        ensures
            r == match self@.sensitive_tracing {
                Some(b) => b,
                None => config.sensitive_tracing,
            },
    {
        match self.sensitive_tracing {
            Some(b) => b,
            None => config.sensitive_tracing,
        }
    }

    /// The retry policy for this request, or `fallback` when none was set.
    pub fn retry_or(&self, fallback: RetryPolicy) -> (r: RetryPolicy)
        ensures
            r == match self@.retry {
                Some(p) => p,
                None => fallback,
            },
    {
        match self.retry {
            Some(p) => p,
            None => fallback,
        }
    }

    /// The absolute URL for an operation path: this request's base URL when
    /// one was set, the client's otherwise.
    pub fn url_for(&self, fallback: &ClientConfig, path: &str) -> (r: String)
        ensures
            r@ == match self@.base_url {
                Some(b) => b,
                None => fallback.base_url@,
            } + path@,
    {
        match &self.base_url {
            Some(b) => concat2(b.as_str(), path),
            None => fallback.url_for(path),
        }
    }

    /// Check a request base URL set without validation.
    pub fn validate_base_url(&self) -> (r: Result<()>)
        ensures
            match self@.base_url {
                Some(b) => match r {
                    Ok(()) => valid_base_url(b),
                    Err(e) => !valid_base_url(b) && (e matches Error::Config(m) && m@
                        == base_url_error(b, "request base URL"@)),
                },
                None => r is Ok,
            },
    {
        match &self.base_url {
            Some(b) => validate_base_url(b.as_str(), "request base URL"),
            None => Ok(()),
        }
    }

    /// The per-attempt timeout, if one was set.
    pub fn timeout_value(&self) -> (r: Option<Duration>)
        ensures
            r == self@.timeout,
    {
        self.timeout
    }

    /// The response body limit for this request, or `fallback` when none was
    /// set.
    pub fn body_limit_or(&self, fallback: usize) -> (r: usize)
        ensures
            r == match self@.max_response_body_bytes {
                Some(n) => n,
                None => fallback,
            },
    {
        match self.max_response_body_bytes {
            Some(n) => n,
            None => fallback,
        }
    }

    /// The trace label, if one was set.
    pub fn trace_label_value(&self) -> (r: Option<&str>)
        ensures
            match r {
                Some(l) => self@.trace_label == Some(l@),
                None => self@.trace_label is None,
            },
    {
        match &self.trace_label {
            Some(l) => Some(l.as_str()),
            None => None,
        }
    }

    /// The extra headers, in the order they were added.
    pub fn extra_headers(&self) -> (r: &Vec<(String, String)>)
        ensures
            string_pairs(r@) == self@.headers,
    {
        &self.headers
    }

    /// The extra query parameters, in the order they were added.
    pub fn extra_query(&self) -> (r: &Vec<(String, String)>)
        ensures
            string_pairs(r@) == self@.query,
    {
        &self.query
    }

    /// A redacted description: whether a base URL is set, the timeout and
    /// retry overrides, and how many extra headers and query parameters there
    /// are; never the base URL or the header and query values.
    pub fn debug_string(&self) -> (r: String)
        ensures
            r@ == options_debug_text(self@),
    {
        let mut s = "RequestOptions { base_url: ".to_owned();
        if self.base_url.is_some() {
            push_str(&mut s, "Some([REDACTED])");
        } else {
            push_str(&mut s, "None");
        }
        push_str(&mut s, ", timeout: ");
        let t = option_duration_debug(&self.timeout);
        push_str(&mut s, t.as_str());
        let mut tail = ", headers: [REDACTED; ".to_owned();
        let h = count_text(self.headers.len());
        push_str(&mut tail, h.as_str());
        push_str(&mut tail, "], query: [REDACTED; ");
        let q = count_text(self.query.len());
        push_str(&mut tail, q.as_str());
        push_str(&mut tail, "] }");
        push_str(&mut s, ", retry: ");
        let p = retry_text(&self.retry);
        push_str(&mut s, p.as_str());
        push_str(&mut s, tail.as_str());
        s
    }
}

} // verus!
