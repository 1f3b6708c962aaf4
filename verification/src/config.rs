//! Client configuration.

use std::time::Duration;
use vstd::prelude::*;

use crate::error::{Error, Result};
use crate::retry::{retry_debug_text, RetryPolicy};
use crate::text::{StringArg, check_blank, check_trimmed, chars_of, concat2, is_blank, is_trimmed,
    push_str, str_debug, str_debug_text, str_eq, string_of_prefix, strip_trailing_slashes};
use crate::time::{duration_debug, duration_debug_text, duration_nanos, from_secs};

verus! {

/// The production base URL for the Blooio API.
pub const DEFAULT_BASE_URL: &'static str = "https://backend.blooio.com/v2/api";

/// Default maximum response body retained in memory by either executor (64 MiB).
pub const DEFAULT_MAX_RESPONSE_BODY_BYTES: usize = 67108864;

/// The `User-Agent` sent by default.
pub const DEFAULT_USER_AGENT: &'static str = "blooio-rs/0.1.0";

/// What `http::Uri::from_str` makes of a text: `None` when it does not parse,
/// otherwise the scheme (as `Uri::scheme_str` gives it), whether an authority
/// is present, and whether a query is present.
pub uninterp spec fn uri_summary(s: Seq<char>) -> Option<(Option<Seq<char>>, bool, bool)>;

/// Parses `s` with `http::Uri::from_str` and reports the scheme, whether the
/// URI has an authority, and whether it has a query.
#[verifier::external_body]
fn parse_uri(s: &str) -> (r: Option<(Option<String>, bool, bool)>)
    ensures
        match r {
            Some((scheme, authority, query)) => uri_summary(s@) == Some(
                (crate::error::opt_view(scheme), authority, query),
            ),
            None => uri_summary(s@) is None,
        },
{
    match s.parse::<http::Uri>() {
        Ok(uri) => Some((
            uri.scheme_str().map(|x| x.to_owned()),
            uri.authority().is_some(),
            uri.path_and_query().is_some_and(|p| p.query().is_some()),
        )),
        Err(_) => None,
    }
}

/// Bytes that `http::HeaderValue::from_str` accepts: tab, and everything from
/// space upward except DEL.
pub open spec fn header_value_byte(b: u8) -> bool {
    (b >= 32 && b != 127) || b == 9
}

/// A text that `http::HeaderValue::from_str` accepts.
pub open spec fn valid_header_value(s: Seq<char>) -> bool {
    forall|i: int|
        0 <= i < vstd::utf8::encode_utf8(s).len() ==> header_value_byte(
            #[trigger] vstd::utf8::encode_utf8(s)[i],
        )
}

/// `http::HeaderValue::from_str(s).is_ok()`: every byte is tab, or at least a
/// space and not DEL.
#[verifier::external_body]
pub(crate) fn header_value_ok(s: &str) -> (r: bool)
    ensures
        r == valid_header_value(s@),
{
    http::HeaderValue::from_str(s).is_ok()
}

/// Whether a base URL is acceptable: no surrounding white space, parses as a
/// URI with scheme `http` or `https`, has an authority, and has no query.
pub open spec fn valid_base_url(s: Seq<char>) -> bool {
    &&& is_trimmed(s)
    &&& uri_summary(s) matches Some((scheme, authority, query))
    &&& (scheme == Some("http"@) || scheme == Some("https"@))
    &&& authority
    &&& !query
}

/// The error text for an unusable base URL named `name`.
pub open spec fn base_url_error(s: Seq<char>, name: Seq<char>) -> Seq<char> {
    match uri_summary(s) {
        Some((scheme, _, _)) if is_trimmed(s) && !(scheme == Some("http"@) || scheme == Some(
            "https"@,
        )) => name + " must start with http:// or https://"@,
        _ => name + " is not a valid base URL"@,
    }
}

/// Check that `base_url` is an absolute `http`/`https` URL without a query.
/// The URL itself never appears in the error.
pub fn validate_base_url(base_url: &str, name: &str) -> (r: Result<()>)
    ensures
        match r {
            Ok(()) => valid_base_url(base_url@),
            Err(e) => !valid_base_url(base_url@) && (e matches Error::Config(m) && m@
                == base_url_error(base_url@, name@)),
        },
{
    if !check_trimmed(base_url) {
        return Err(Error::config(concat2(name, " is not a valid base URL")));
    }
    match parse_uri(base_url) {
        None => Err(Error::config(concat2(name, " is not a valid base URL"))),
        Some((scheme, authority, query)) => {
            let scheme_ok = match &scheme {
                Some(sch) => str_eq(sch.as_str(), "http") || str_eq(sch.as_str(), "https"),
                None => false,
            };
            if !scheme_ok {
                return Err(Error::config(concat2(name, " must start with http:// or https://")));
            }
            if !authority || query {
                return Err(Error::config(concat2(name, " is not a valid base URL")));
            }
            Ok(())
        },
    }
}

/// Trim every trailing `/` from a base URL.
pub fn normalize_base_url(base_url: String) -> (r: String)
    ensures
        r@ == strip_trailing_slashes(base_url@),
{
    let v = chars_of(base_url.as_str());
    let mut n = v.len();
    assert(v@.take(n as int) =~= v@);
    while n > 0 && v[n - 1] == '/'
        invariant
            v@ == base_url@,
            n <= v@.len(),
            strip_trailing_slashes(base_url@) == strip_trailing_slashes(v@.take(n as int)),
        decreases n,
    {
        assert(v@.take(n as int).drop_last() =~= v@.take(n - 1));
        n -= 1;
    }
    string_of_prefix(&v, n)
}

/// Trimming trailing slashes leaves none, and trimming again changes nothing.
pub proof fn law_normalize_base_url(s: Seq<char>)
    ensures
        strip_trailing_slashes(s).len() == 0 || strip_trailing_slashes(s).last() != '/',
        strip_trailing_slashes(strip_trailing_slashes(s)) == strip_trailing_slashes(s),
    decreases s.len(),
{
    if s.len() > 0 && s.last() == '/' {
        law_normalize_base_url(s.drop_last());
    }
}

/// Shared transport configuration consumed by both executors.
#[derive(Clone)]
pub struct ClientConfig {
    /// API base URL, without a trailing slash.
    pub base_url: String,
    /// Per-request timeout. Defaults to 30 seconds.
    pub timeout: Duration,
    /// `User-Agent` header value.
    pub user_agent: String,
    /// How transient failures are retried.
    pub retry: RetryPolicy,
    /// Emit complete, unredacted request and response snapshots to the
    /// `blooio::sensitive` tracing target for every request (for local
    /// protocol debugging only). Off by default.
    pub sensitive_tracing: bool,
}

/// The `Debug` text of a configuration: every field in full, except that an
/// enabled `sensitive_tracing` shows as `[REDACTED]`.
pub open spec fn config_debug_text(c: ClientConfig) -> Seq<char> {
    let head = "ClientConfig { base_url: "@ + str_debug_text(c.base_url@) + ", timeout: "@
        + duration_debug_text(c.timeout);
    let mid = ", user_agent: "@ + str_debug_text(c.user_agent@) + ", retry: "@
        + retry_debug_text(c.retry);
    let tracing = if c.sensitive_tracing {
        "[REDACTED]"@
    } else {
        "false"@
    };
    head + mid + ", sensitive_tracing: "@ + tracing + " }"@
}

impl Default for ClientConfig {
    fn default() -> (r: Self)
        ensures
            r.base_url@ == DEFAULT_BASE_URL@,
            duration_nanos(r.timeout) == 30000000000,
            r.user_agent@ == DEFAULT_USER_AGENT@,
            r.retry.max_retries == 2,
            duration_nanos(r.retry.base_delay) == 500000000,
            duration_nanos(r.retry.max_delay) == 20000000000,
            r.retry.jitter,
            !r.sensitive_tracing,
    {
        ClientConfig {
            base_url: DEFAULT_BASE_URL.to_owned(),
            timeout: from_secs(30),
            user_agent: DEFAULT_USER_AGENT.to_owned(),
            retry: RetryPolicy::default(),
            sensitive_tracing: false,
        }
    }
}

impl ClientConfig {
    /// A configuration using production defaults.
    pub fn new() -> (r: Self)
        ensures
            r.base_url@ == DEFAULT_BASE_URL@,
            duration_nanos(r.timeout) == 30000000000,
            r.user_agent@ == DEFAULT_USER_AGENT@,
            r.retry.max_retries == 2,
            duration_nanos(r.retry.base_delay) == 500000000,
            duration_nanos(r.retry.max_delay) == 20000000000,
            r.retry.jitter,
            !r.sensitive_tracing,
    {
        Self::default()
    }

    /// Override the base URL (trailing slashes are trimmed).
    pub fn with_base_url<S: StringArg>(self, base_url: S) -> (r: Self)
        ensures
            r.base_url@ == strip_trailing_slashes(base_url.arg_view()),
            r.timeout == self.timeout,
            r.user_agent == self.user_agent,
            r.retry == self.retry,
            r.sensitive_tracing == self.sensitive_tracing,
    {
        ClientConfig { base_url: normalize_base_url(base_url.into_string()), ..self }
    }

    /// Override the per-request timeout.
    pub fn with_timeout(self, timeout: Duration) -> (r: Self)
        ensures
            r == (ClientConfig { timeout, ..self }),
    {
        ClientConfig { timeout, ..self }
    }

    /// Override the `User-Agent` header.
    pub fn with_user_agent<S: StringArg>(self, user_agent: S) -> (r: Self)
        ensures
            r.user_agent@ == user_agent.arg_view(),
            r.base_url == self.base_url,
            r.timeout == self.timeout,
            r.retry == self.retry,
            r.sensitive_tracing == self.sensitive_tracing,
    {
        ClientConfig { user_agent: user_agent.into_string(), ..self }
    }

    /// Override the retry policy. Pass [`RetryPolicy::none`] to disable retries.
    pub fn with_retry(self, retry: RetryPolicy) -> (r: Self)
        ensures
            r == (ClientConfig { retry, ..self }),
    {
        ClientConfig { retry, ..self }
    }

    /// Enable complete, unredacted request and response tracing to the
    /// `blooio::sensitive` target for every request of clients built from
    /// this configuration. The snapshots hold credentials, URLs, headers and
    /// bodies: for local protocol debugging only.
    pub fn with_sensitive_tracing(self) -> (r: Self)
        ensures
            r == (ClientConfig { sensitive_tracing: true, ..self }),
    {
        ClientConfig { sensitive_tracing: true, ..self }
    }

    /// Disable unredacted tracing for clients built from this configuration.
    pub fn without_sensitive_tracing(self) -> (r: Self)
        ensures
            r == (ClientConfig { sensitive_tracing: false, ..self }),
    {
        ClientConfig { sensitive_tracing: false, ..self }
    }

    /// The `Debug` text of this configuration (see [`config_debug_text`]).
    pub fn debug_string(&self) -> (r: String)
        ensures
            r@ == config_debug_text(*self),
    {
        let mut s = "ClientConfig { base_url: ".to_owned();
        let b = str_debug(self.base_url.as_str());
        push_str(&mut s, b.as_str());
        push_str(&mut s, ", timeout: ");
        let t = duration_debug(&self.timeout);
        push_str(&mut s, t.as_str());
        let mut mid = ", user_agent: ".to_owned();
        let u = str_debug(self.user_agent.as_str());
        push_str(&mut mid, u.as_str());
        push_str(&mut mid, ", retry: ");
        let p = self.retry.debug_string();
        push_str(&mut mid, p.as_str());
        push_str(&mut s, mid.as_str());
        push_str(&mut s, ", sensitive_tracing: ");
        if self.sensitive_tracing {
            push_str(&mut s, "[REDACTED]");
        } else {
            push_str(&mut s, "false");
        }
        push_str(&mut s, " }");
        s
    }

    /// Validate values interpreted as URL or HTTP header components.
    pub fn validate(&self) -> (r: Result<()>)
        ensures
            match r {
                Ok(()) => valid_base_url(self.base_url@) && valid_header_value(self.user_agent@),
                Err(e) => e matches Error::Config(m) && if !valid_base_url(self.base_url@) {
                    m@ == base_url_error(self.base_url@, "client base URL"@)
                } else {
                    !valid_header_value(self.user_agent@) && m@
                        == "user agent is not a valid HTTP header value"@
                },
            },
    {
        validate_base_url(self.base_url.as_str(), "client base URL")?;
        if !header_value_ok(self.user_agent.as_str()) {
            return Err(Error::config("user agent is not a valid HTTP header value".to_owned()));
        }
        Ok(())
    }

    /// The configuration for a `BLOOIO_BASE_URL` value: the default base URL
    /// when the value is absent or blank, otherwise the validated value.
    pub fn from_env_values(base_url: Option<String>) -> (r: Result<Self>)
        ensures
            match base_url {
                Some(v) if !is_blank(v@) => match r {
                    Ok(c) => valid_base_url(v@) && c.base_url@ == strip_trailing_slashes(v@),
                    Err(e) => !valid_base_url(v@) && (e matches Error::Config(m) && m@
                        == base_url_error(v@, "BLOOIO_BASE_URL"@)),
                },
                _ => r matches Ok(c) && c.base_url@ == strip_trailing_slashes(DEFAULT_BASE_URL@),
            },
    {
        Self::from_env_values_with_default(base_url, DEFAULT_BASE_URL)
    }

    fn from_env_values_with_default(base_url: Option<String>, default_base_url: &str) -> (r: Result<
        Self,
    >)
        ensures
            match base_url {
                Some(v) if !is_blank(v@) => match r {
                    Ok(c) => valid_base_url(v@) && c.base_url@ == strip_trailing_slashes(v@),
                    Err(e) => !valid_base_url(v@) && (e matches Error::Config(m) && m@
                        == base_url_error(v@, "BLOOIO_BASE_URL"@)),
                },
                _ => r matches Ok(c) && c.base_url@ == strip_trailing_slashes(default_base_url@),
            },
    {
        let config = Self::new().with_base_url(default_base_url);
        match base_url {
            Some(v) => {
                if check_blank(v.as_str()) {
                    Ok(config)
                } else {
                    validate_base_url(v.as_str(), "BLOOIO_BASE_URL")?;
                    Ok(config.with_base_url(v))
                }
            },
            None => Ok(config),
        }
    }

    /// The absolute URL for an operation path (which begins with `/`).
    pub fn url_for(&self, path: &str) -> (r: String)
        ensures
            r@ == self.base_url@ + path@,
    {
        concat2(self.base_url.as_str(), path)
    }
}

} // verus!
