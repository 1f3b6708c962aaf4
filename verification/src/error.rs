//! Error types for the crate.

pub mod codes;

use std::time::Duration;
use vstd::prelude::*;

use crate::text::{bool_text, dec, push_decimal, push_str, str_debug, str_debug_text};
use crate::time::{duration_nanos, option_duration_debug, option_duration_debug_text};

verus! {

#[verifier::external_type_specification]
#[verifier::external_body]
pub struct ExJsonValue(serde_json::Value);

#[verifier::external_type_specification]
#[verifier::external_body]
#[verifier::reject_recursive_types(K)]
#[verifier::reject_recursive_types(V)]
pub struct ExJsonMap<K, V>(serde_json::Map<K, V>);

/// The keys that a JSON object map holds.
pub uninterp spec fn json_map_keys(m: serde_json::Map<String, serde_json::Value>) -> Set<Seq<char>>;

/// The keys of a JSON object map in the order its `keys` iterator visits
/// them.
pub uninterp spec fn json_map_key_seq(m: serde_json::Map<String, serde_json::Value>) -> Seq<
    Seq<char>,
>;

/// The text of each owned string.
pub open spec fn string_views(v: Seq<String>) -> Seq<Seq<char>> {
    v.map_values(|s: String| s@)
}

/// `serde_json::Map::keys`, collected into owned strings in iteration order:
/// each key of the map once.
#[verifier::external_body]
fn json_map_key_list(m: &serde_json::Map<String, serde_json::Value>) -> (r: Vec<String>)
    ensures
        string_views(r@) == json_map_key_seq(*m),
        string_views(r@).to_set() == json_map_keys(*m),
        string_views(r@).no_duplicates(),
{
    m.keys().cloned().collect()
}

/// `serde_json::Map::new`: an empty object.
#[verifier::external_body]
fn json_map_new() -> (m: serde_json::Map<String, serde_json::Value>)
    ensures
        json_map_keys(m) == Set::<Seq<char>>::empty(),
        json_map_key_seq(m) == Seq::<Seq<char>>::empty(),
{
    serde_json::Map::new()
}

/// The value a JSON object map holds under a key, if any.
pub uninterp spec fn json_map_value(
    m: serde_json::Map<String, serde_json::Value>,
    key: Seq<char>,
) -> Option<serde_json::Value>;

/// The value behind an optional reference.
pub open spec fn deref_opt<'a>(r: Option<&'a serde_json::Value>) -> Option<serde_json::Value> {
    match r {
        Some(v) => Some(*v),
        None => None,
    }
}

/// `serde_json::Map::get`: the value under `key`, present exactly when the map
/// holds that key.
#[verifier::external_body]
fn json_map_get<'a>(m: &'a serde_json::Map<String, serde_json::Value>, key: &str) -> (r: Option<
    &'a serde_json::Value,
>)
    ensures
        r.is_some() == json_map_keys(*m).contains(key@),
        deref_opt(r) == json_map_value(*m, key@),
{
    m.get(key)
}

/// `serde_json::Map::is_empty`: true exactly when the map holds no key.
#[verifier::external_body]
fn json_map_is_empty(m: &serde_json::Map<String, serde_json::Value>) -> (r: bool)
    ensures
        r == (json_map_keys(*m) == Set::<Seq<char>>::empty()),
{
    m.is_empty()
}

/// Convenience alias used throughout the crate.
pub type Result<T> = core::result::Result<T, Error>;

/// The error type returned by all fallible operations.
#[non_exhaustive]
pub enum Error {
    /// The API returned a non-2xx response.
    Api(ApiError),
    /// A transport-level failure: connection, DNS, TLS, timeout, etc.
    Transport(String),
    /// The transport could not build the HTTP request.
    RequestBuild,
    /// The response body exceeded the configured in-memory limit.
    ResponseBodyTooLarge {
        /// The limit in bytes.
        limit: usize,
    },
    /// The request body could not be serialized to JSON.
    Encode(String),
    /// A 2xx response body could not be deserialized into the expected type.
    Decode(String),
    /// Client configuration was missing or invalid.
    Config(String),
}

/// A non-2xx response returned by the Blooio API.
///
/// Server-provided prose and structured detail values are stored for explicit
/// inspection through accessors, and never included in the displayed text.
pub struct ApiError {
    status: u16,
    code: Option<String>,
    error: Option<String>,
    server_message: Option<String>,
    details: ApiErrorDetails,
    retry_after: Option<Duration>,
    schema_body: bool,
}

/// The abstract contents of an [`ApiError`].
pub struct ApiErrorView {
    pub status: u16,
    pub code: Option<Seq<char>>,
    pub error: Option<Seq<char>>,
    pub server_message: Option<Seq<char>>,
    pub detail_keys: Set<Seq<char>>,
    pub detail_key_order: Seq<Seq<char>>,
    pub detail_object: serde_json::Map<String, serde_json::Value>,
    pub retry_after: Option<Duration>,
    pub schema_body: bool,
}

/// The view of an optional string.
pub open spec fn opt_view(o: Option<String>) -> Option<Seq<char>> {
    match o {
        Some(s) => Some(s@),
        None => None,
    }
}

/// The view of an optional string slice.
pub open spec fn opt_str_view(o: Option<&str>) -> Option<Seq<char>> {
    match o {
        Some(s) => Some(s@),
        None => None,
    }
}

impl View for ApiError {
    type V = ApiErrorView;

    closed spec fn view(&self) -> ApiErrorView {
        ApiErrorView {
            status: self.status,
            code: opt_view(self.code),
            error: opt_view(self.error),
            server_message: opt_view(self.server_message),
            detail_keys: self.details@,
            detail_key_order: self.details.key_order(),
            detail_object: self.details.object(),
            retry_after: self.retry_after,
            schema_body: self.schema_body,
        }
    }
}

/// Whether an optional code is present and satisfies `p`.
pub open spec fn code_is(code: Option<Seq<char>>, p: spec_fn(Seq<char>) -> bool) -> bool {
    match code {
        Some(c) => p(c),
        None => false,
    }
}

impl ApiErrorView {
    /// One of the documented quota/cap errors.
    pub open spec fn quota(self) -> bool {
        code_is(self.code, |c: Seq<char>| codes::quota_code(c))
    }

    /// One of the documented reply-target errors.
    pub open spec fn reply_target(self) -> bool {
        code_is(self.code, |c: Seq<char>| codes::reply_target_code(c))
    }

    /// The documented inbound-only error.
    pub open spec fn inbound_only(self) -> bool {
        code_is(self.code, |c: Seq<char>| codes::inbound_only_code(c))
    }

    /// Transient statuses: 408, 425, 429 other than a quota code, and 5xx.
    pub open spec fn retryable(self) -> bool {
        if self.status == 408 || self.status == 425 {
            true
        } else if self.status == 429 {
            !self.quota()
        } else {
            500 <= self.status < 600
        }
    }

    /// The status-and-label summary used in displayed text.
    pub open spec fn summary(self) -> Seq<char> {
        let head = "HTTP "@ + dec(self.status as nat);
        match self.code {
            Some(c) => head + " ("@ + c + ")"@,
            None => match self.error {
                Some(e) => head + " ("@ + e + ")"@,
                None => if self.schema_body {
                    head
                } else {
                    head + " (non-schema error body omitted)"@
                },
            },
        }
    }

    /// The displayed text: status, code when present, and the summary.
    pub open spec fn display(self) -> Seq<char> {
        match self.code {
            Some(c) => "blooio api error (status "@ + dec(self.status as nat) + ", code "@ + c
                + "): "@ + self.summary(),
            None => "blooio api error (status "@ + dec(self.status as nat) + "): "@
                + self.summary(),
        }
    }
}

/// The `Debug` text of an optional string.
pub open spec fn opt_str_debug_text(o: Option<Seq<char>>) -> Seq<char> {
    match o {
        Some(t) => "Some("@ + str_debug_text(t) + ")"@,
        None => "None"@,
    }
}

fn opt_string_debug(o: &Option<String>) -> (r: String)
    ensures
        r@ == opt_str_debug_text(opt_view(*o)),
{
    match o {
        Some(t) => {
            let mut s = "Some(".to_owned();
            let q = str_debug(t.as_str());
            push_str(&mut s, q.as_str());
            push_str(&mut s, ")");
            s
        },
        None => "None".to_owned(),
    }
}

impl ApiErrorView {
    /// The redacted `Debug` text: every field but the server message, which
    /// shows only as present or not, and the detail values, which never
    /// show; then the safe summary.
    pub open spec fn debug_text(self) -> Seq<char> {
        let head = "ApiError { status: "@ + dec(self.status as nat) + ", code: "@
            + opt_str_debug_text(self.code) + ", error: "@ + opt_str_debug_text(self.error);
        let message = if self.server_message is Some {
            "Some(\"[REDACTED]\")"@
        } else {
            "None"@
        };
        let mid = ", server_message: "@ + message + ", details: "@ + details_debug_text(
            self.detail_key_order,
        );
        let tail = ", retry_after: "@ + option_duration_debug_text(self.retry_after)
            + ", schema_body: "@ + bool_text(self.schema_body) + ", summary: "@ + str_debug_text(
            self.summary(),
        ) + " }"@;
        head + mid + tail
    }
}

impl ApiError {
    /// An error decoded from the Blooio `Error` schema.
    pub fn from_schema(
        status: u16,
        code: Option<String>,
        error: Option<String>,
        server_message: Option<String>,
        details: ApiErrorDetails,
        retry_after: Option<Duration>,
    ) -> (r: Self)
        ensures
            r@ == (ApiErrorView {
                status,
                code: opt_view(code),
                error: opt_view(error),
                server_message: opt_view(server_message),
                detail_keys: details@,
                detail_key_order: details.key_order(),
                detail_object: details.object(),
                retry_after,
                schema_body: true,
            }),
    {
        ApiError { status, code, error, server_message, details, retry_after, schema_body: true }
    }

    /// An error whose body did not follow the schema; the body is not kept.
    pub fn from_non_schema(status: u16, retry_after: Option<Duration>) -> (r: Self)
        ensures
            r@.status == status,
            r@.code is None,
            r@.error is None,
            r@.server_message is None,
            r@.detail_keys == Set::<Seq<char>>::empty(),
            r@.detail_key_order == Seq::<Seq<char>>::empty(),
            json_map_keys(r@.detail_object) == Set::<Seq<char>>::empty(),
            r@.retry_after == retry_after,
            !r@.schema_body,
    {
        ApiError {
            status,
            code: None,
            error: None,
            server_message: None,
            details: ApiErrorDetails::default(),
            retry_after,
            schema_body: false,
        }
    }

    /// The HTTP response status code.
    pub fn status(&self) -> (r: u16)
        ensures
            r == self@.status,
    {
        self.status
    }

    /// The machine-readable API error code, if the body carried one.
    pub fn code(&self) -> (r: Option<&str>)
        ensures
            opt_str_view(r) == self@.code,
    {
        match &self.code {
            Some(c) => Some(c.as_str()),
            None => None,
        }
    }

    /// The short API error label from the `error` field, if present.
    pub fn error(&self) -> (r: Option<&str>)
        ensures
            opt_str_view(r) == self@.error,
    {
        match &self.error {
            Some(c) => Some(c.as_str()),
            None => None,
        }
    }

    /// The raw server `message` field, if present. It is exposed only through
    /// this accessor and never appears in displayed text.
    pub fn server_message(&self) -> (r: Option<&str>)
        ensures
            opt_str_view(r) == self@.server_message,
    {
        match &self.server_message {
            Some(c) => Some(c.as_str()),
            None => None,
        }
    }

    /// The server-advised delay before retrying.
    pub fn retry_after(&self) -> (r: Option<Duration>)
        ensures
            r == self@.retry_after,
    {
        self.retry_after
    }

    /// Additional structured fields returned by the API error body.
    pub fn details(&self) -> (r: &ApiErrorDetails)
        ensures
            r@ == self@.detail_keys,
            r.object() == self@.detail_object,
    {
        &self.details
    }

    /// Whether this error is one of the documented quota/cap API errors.
    pub fn is_quota_error(&self) -> (r: bool)
        ensures
            r == self@.quota(),
    {
        match &self.code {
            Some(c) => codes::is_quota_error(c.as_str()),
            None => false,
        }
    }

    /// Whether this error is one of the documented threaded-reply target API
    /// errors.
    pub fn is_reply_target_error(&self) -> (r: bool)
        ensures
            r == self@.reply_target(),
    {
        match &self.code {
            Some(c) => codes::is_reply_target_error(c.as_str()),
            None => false,
        }
    }

    /// Whether this error is the documented inbound-only prior-inbound API
    /// error.
    pub fn is_inbound_only_error(&self) -> (r: bool)
        ensures
            r == self@.inbound_only(),
    {
        match &self.code {
            Some(c) => codes::is_inbound_only_error(c.as_str()),
            None => false,
        }
    }

    /// Whether retrying may succeed: 408, 425, non-quota 429, and 5xx.
    pub fn is_retryable(&self) -> (r: bool)
        ensures
            r == self@.retryable(),
    {
        if self.status == 408 || self.status == 425 {
            true
        } else if self.status == 429 {
            !self.is_quota_error()
        } else {
            500 <= self.status && self.status < 600
        }
    }

    fn push_head(&self, s: &mut String)
        ensures
            final(s)@ == old(s)@ + "HTTP "@ + dec(self.status as nat),
    {
        push_str(s, "HTTP ");
        push_decimal(s, self.status as u64);
        assert(s@ =~= old(s)@ + "HTTP "@ + dec(self.status as nat));
    }

    /// The status-and-label summary, free of server-provided prose.
    pub fn safe_summary(&self) -> (r: String)
        ensures
            r@ == self@.summary(),
    {
        let mut s = String::new();
        self.push_head(&mut s);
        let ghost head = s@;
        assert(head =~= "HTTP "@ + dec(self.status as nat));
        match &self.code {
            Some(c) => {
                push_str(&mut s, " (");
                push_str(&mut s, c.as_str());
                push_str(&mut s, ")");
                assert(s@ =~= head + " ("@ + c@ + ")"@);
            },
            None => match &self.error {
                Some(e) => {
                    push_str(&mut s, " (");
                    push_str(&mut s, e.as_str());
                    push_str(&mut s, ")");
                    assert(s@ =~= head + " ("@ + e@ + ")"@);
                },
                None => {
                    if !self.schema_body {
                        push_str(&mut s, " (non-schema error body omitted)");
                        assert(s@ =~= head + " (non-schema error body omitted)"@);
                    }
                },
            },
        }
        s
    }

    /// The displayed text of this error (what `Display` writes).
    pub fn message(&self) -> (r: String)
        ensures
            r@ == self@.display(),
    {
        let summary = self.safe_summary();
        let mut s = String::new();
        push_str(&mut s, "blooio api error (status ");
        push_decimal(&mut s, self.status as u64);
        match &self.code {
            Some(c) => {
                push_str(&mut s, ", code ");
                push_str(&mut s, c.as_str());
                push_str(&mut s, "): ");
                push_str(&mut s, summary.as_str());
                assert(s@ =~= "blooio api error (status "@ + dec(self.status as nat) + ", code "@
                    + c@ + "): "@ + self@.summary());
            },
            None => {
                push_str(&mut s, "): ");
                push_str(&mut s, summary.as_str());
                assert(s@ =~= "blooio api error (status "@ + dec(self.status as nat) + "): "@
                    + self@.summary());
            },
        }
        s
    }

    /// The redacted `Debug` text of this error (see
    /// [`ApiErrorView::debug_text`]).
    pub fn debug_string(&self) -> (r: String)
        ensures
            r@ == self@.debug_text(),
    {
        let mut s = "ApiError { status: ".to_owned();
        push_decimal(&mut s, self.status as u64);
        push_str(&mut s, ", code: ");
        let c = opt_string_debug(&self.code);
        push_str(&mut s, c.as_str());
        push_str(&mut s, ", error: ");
        let e = opt_string_debug(&self.error);
        push_str(&mut s, e.as_str());
        let mut mid = ", server_message: ".to_owned();
        if self.server_message.is_some() {
            push_str(&mut mid, "Some(\"[REDACTED]\")");
        } else {
            push_str(&mut mid, "None");
        }
        push_str(&mut mid, ", details: ");
        let d = self.details.debug_string();
        push_str(&mut mid, d.as_str());
        let mut tail = ", retry_after: ".to_owned();
        let ra = option_duration_debug(&self.retry_after);
        push_str(&mut tail, ra.as_str());
        push_str(&mut tail, ", schema_body: ");
        if self.schema_body {
            push_str(&mut tail, "true");
        } else {
            push_str(&mut tail, "false");
        }
        push_str(&mut tail, ", summary: ");
        let summary = self.safe_summary();
        let q = str_debug(summary.as_str());
        push_str(&mut tail, q.as_str());
        push_str(&mut tail, " }");
        push_str(&mut s, mid.as_str());
        push_str(&mut s, tail.as_str());
        s
    }
}

/// The `Debug` text of a list of strings without its brackets: each string
/// quoted, separated by `, `.
pub open spec fn str_list_debug_items(s: Seq<Seq<char>>) -> Seq<char>
    decreases s.len(),
{
    if s.len() == 0 {
        Seq::empty()
    } else if s.len() == 1 {
        str_debug_text(s[0])
    } else {
        str_list_debug_items(s.drop_last()) + ", "@ + str_debug_text(s.last())
    }
}

/// The redacted `Debug` text of error details with the given field names:
/// their number and names, and `"[REDACTED]"` in place of the values.
pub open spec fn details_debug_text(keys: Seq<Seq<char>>) -> Seq<char> {
    "ApiErrorDetails { len: "@ + dec(keys.len()) + ", keys: ["@ + str_list_debug_items(keys)
        + "], values: \"[REDACTED]\" }"@
}

/// Additional structured JSON fields returned by an API error response.
///
/// The standard fields (`error`, `status`, `code`, `message`) are exposed on
/// [`ApiError`]; the remaining endpoint-specific fields are kept here.
pub struct ApiErrorDetails {
    fields: serde_json::Map<String, serde_json::Value>,
}

impl View for ApiErrorDetails {
    type V = Set<Seq<char>>;

    closed spec fn view(&self) -> Set<Seq<char>> {
        json_map_keys(self.fields)
    }
}

impl Default for ApiErrorDetails {
    fn default() -> (r: Self)
        ensures
            r@ == Set::<Seq<char>>::empty(),
            r.key_order() == Seq::<Seq<char>>::empty(),
    {
        ApiErrorDetails { fields: json_map_new() }
    }
}

impl ApiErrorDetails {
    /// The fields as a JSON object map.
    pub closed spec fn object(&self) -> serde_json::Map<String, serde_json::Value> {
        self.fields
    }

    /// The field names in the order the map visits them.
    pub closed spec fn key_order(&self) -> Seq<Seq<char>> {
        json_map_key_seq(self.fields)
    }

    /// The redacted `Debug` text (see [`details_debug_text`]): the number of
    /// fields and their names, never their values.
    pub fn debug_string(&self) -> (r: String)
        ensures
            r@ == details_debug_text(self.key_order()),
    {
        let keys = json_map_key_list(&self.fields);
        let ghost names = string_views(keys@);
        let mut items = String::new();
        let mut i: usize = 0;
        while i < keys.len()
            invariant
                i <= keys.len(),
                names == string_views(keys@),
                items@ == str_list_debug_items(names.take(i as int)),
            decreases keys.len() - i,
        {
            if i > 0 {
                push_str(&mut items, ", ");
            }
            let q = str_debug(keys[i].as_str());
            push_str(&mut items, q.as_str());
            proof {
                let t = names.take(i + 1);
                assert(t.drop_last() =~= names.take(i as int));
                assert(t.last() == keys@[i as int]@);
                if i == 0 {
                    assert(items@ =~= str_debug_text(t[0]));
                }
            }
            i = i + 1;
        }
        proof {
            assert(names.take(keys.len() as int) =~= names);
        }
        let mut s = "ApiErrorDetails { len: ".to_owned();
        push_decimal(&mut s, keys.len() as u64);
        push_str(&mut s, ", keys: [");
        push_str(&mut s, items.as_str());
        push_str(&mut s, "], values: \"[REDACTED]\" }");
        s
    }

    /// Wrap the endpoint-specific fields of an error body.
    pub fn new(fields: serde_json::Map<String, serde_json::Value>) -> (r: Self)
        ensures
            r@ == json_map_keys(fields),
            r.key_order() == json_map_key_seq(fields),
            r.object() == fields,
    {
        ApiErrorDetails { fields }
    }

    /// Return a detail value by field name.
    pub fn get(&self, key: &str) -> (r: Option<&serde_json::Value>)
        ensures
            r.is_some() == self@.contains(key@),
            deref_opt(r) == json_map_value(self.object(), key@),
    {
        json_map_get(&self.fields, key)
    }

    /// Whether the API error body included any endpoint-specific fields.
    pub fn is_empty(&self) -> (r: bool)
        ensures
            r == (self@ == Set::<Seq<char>>::empty()),
    {
        json_map_is_empty(&self.fields)
    }

    /// Borrow all endpoint-specific detail fields as a JSON object map.
    pub fn as_object(&self) -> (r: &serde_json::Map<String, serde_json::Value>)
        ensures
            *r == self.object(),
            json_map_keys(*r) == self@,
    {
        &self.fields
    }
}

/// The view of an [`Error`]: its kind, and the API error view for `Api`.
pub open spec fn api_view(e: Error) -> Option<ApiErrorView> {
    match e {
        Error::Api(a) => Some(a@),
        _ => None,
    }
}

impl Error {
    /// A transport failure with the transport's message.
    pub fn transport(message: String) -> (r: Self)
        ensures
            r == Error::Transport(message),
    {
        Error::Transport(message)
    }

    /// A request-encoding failure.
    pub fn encode(message: String) -> (r: Self)
        ensures
            r == Error::Encode(message),
    {
        Error::Encode(message)
    }

    /// A response-decoding failure. The source message is not kept, so
    /// response content cannot leak through the error text.
    pub fn decode(_source: &str) -> (r: Self)
        ensures
            r matches Error::Decode(m) && m@ == "failed to decode JSON body"@,
    {
        Error::Decode("failed to decode JSON body".to_owned())
    }

    /// A configuration failure.
    pub fn config(message: String) -> (r: Self)
        ensures
            r == Error::Config(message),
    {
        Error::Config(message)
    }

    /// The machine-readable API error code, if this is an [`Error::Api`].
    pub fn code(&self) -> (r: Option<&str>)
        ensures
            opt_str_view(r) == match api_view(*self) {
                Some(a) => a.code,
                None => None,
            },
    {
        match self {
            Error::Api(err) => err.code(),
            _ => None,
        }
    }

    /// The HTTP status code, if this is an [`Error::Api`].
    pub fn status(&self) -> (r: Option<u16>)
        ensures
            r == match api_view(*self) {
                Some(a) => Some(a.status),
                None => None,
            },
    {
        match self {
            Error::Api(err) => Some(err.status()),
            _ => None,
        }
    }

    /// The server-advised delay before retrying, if any.
    pub fn retry_after(&self) -> (r: Option<Duration>)
        ensures
            r == match api_view(*self) {
                Some(a) => a.retry_after,
                None => None,
            },
    {
        match self {
            Error::Api(err) => err.retry_after(),
            _ => None,
        }
    }

    /// Whether this is a documented quota/cap API error.
    pub fn is_quota_error(&self) -> (r: bool)
        ensures
            r == (api_view(*self) matches Some(a) && a.quota()),
    {
        match self {
            Error::Api(err) => err.is_quota_error(),
            _ => false,
        }
    }

    /// Whether this is a documented threaded-reply target API error.
    pub fn is_reply_target_error(&self) -> (r: bool)
        ensures
            r == (api_view(*self) matches Some(a) && a.reply_target()),
    {
        match self {
            Error::Api(err) => err.is_reply_target_error(),
            _ => false,
        }
    }

    /// Whether this is the documented inbound-only prior-inbound API error.
    pub fn is_inbound_only_error(&self) -> (r: bool)
        ensures
            r == (api_view(*self) matches Some(a) && a.inbound_only()),
    {
        match self {
            Error::Api(err) => err.is_inbound_only_error(),
            _ => false,
        }
    }

    /// Whether retrying this request may succeed: transport failures and the
    /// transient API statuses.
    pub fn is_retryable(&self) -> (r: bool)
        ensures
            r == self.retryable(),
    {
        match self {
            Error::Transport(_) => true,
            Error::Api(err) => err.is_retryable(),
            _ => false,
        }
    }

    /// Transport failures and transient API errors.
    pub open spec fn retryable(self) -> bool {
        match self {
            Error::Transport(_) => true,
            Error::Api(a) => a@.retryable(),
            _ => false,
        }
    }

    /// The displayed text of this error (what `Display` writes).
    pub fn message(&self) -> (r: String)
        ensures
            r@ == self.display(),
    {
        match self {
            Error::Api(err) => err.message(),
            Error::Transport(m) => prefixed("transport error: ", m),
            Error::RequestBuild => "failed to build HTTP request".to_owned(),
            Error::ResponseBodyTooLarge { limit } => {
                let mut s = "response body exceeded the limit of ".to_owned();
                push_decimal(&mut s, *limit as u64);
                push_str(&mut s, " bytes");
                s
            },
            Error::Encode(m) => prefixed("failed to encode request body: ", m),
            Error::Decode(m) => prefixed("failed to decode response body: ", m),
            Error::Config(m) => prefixed("configuration error: ", m),
        }
    }

    /// The `Debug` text of an error, variant by variant as
    /// `#[derive(Debug)]` prints it, with an API error in its redacted form.
    pub open spec fn debug_text(self) -> Seq<char> {
        match self {
            Error::Api(a) => "Api("@ + a@.debug_text() + ")"@,
            Error::Transport(m) => "Transport("@ + str_debug_text(m@) + ")"@,
            Error::RequestBuild => "RequestBuild"@,
            Error::ResponseBodyTooLarge { limit } => "ResponseBodyTooLarge { limit: "@ + dec(
                limit as nat,
            ) + " }"@,
            Error::Encode(m) => "Encode("@ + str_debug_text(m@) + ")"@,
            Error::Decode(m) => "Decode("@ + str_debug_text(m@) + ")"@,
            Error::Config(m) => "Config("@ + str_debug_text(m@) + ")"@,
        }
    }

    /// The `Debug` text of this error (see [`Error::debug_text`]).
    pub fn debug_string(&self) -> (r: String)
        ensures
            r@ == self.debug_text(),
    {
        match self {
            Error::Api(a) => wrapped("Api(", a.debug_string()),
            Error::Transport(m) => wrapped("Transport(", str_debug(m.as_str())),
            Error::RequestBuild => "RequestBuild".to_owned(),
            Error::ResponseBodyTooLarge { limit } => {
                let mut s = "ResponseBodyTooLarge { limit: ".to_owned();
                push_decimal(&mut s, *limit as u64);
                push_str(&mut s, " }");
                s
            },
            Error::Encode(m) => wrapped("Encode(", str_debug(m.as_str())),
            Error::Decode(m) => wrapped("Decode(", str_debug(m.as_str())),
            Error::Config(m) => wrapped("Config(", str_debug(m.as_str())),
        }
    }

    /// The displayed text of an error.
    pub open spec fn display(self) -> Seq<char> {
        match self {
            Error::Api(a) => a@.display(),
            Error::Transport(m) => "transport error: "@ + m@,
            Error::RequestBuild => "failed to build HTTP request"@,
            Error::ResponseBodyTooLarge { limit } => "response body exceeded the limit of "@ + dec(
                limit as nat,
            ) + " bytes"@,
            Error::Encode(m) => "failed to encode request body: "@ + m@,
            Error::Decode(m) => "failed to decode response body: "@ + m@,
            Error::Config(m) => "configuration error: "@ + m@,
        }
    }
}

fn wrapped(open: &str, inner: String) -> (r: String)
    ensures
        r@ == open@ + inner@ + ")"@,
{
    let mut s = open.to_owned();
    push_str(&mut s, inner.as_str());
    push_str(&mut s, ")");
    s
}

fn prefixed(prefix: &str, m: &String) -> (r: String)
    ensures
        r@ == prefix@ + m@,
{
    let mut s = prefix.to_owned();
    push_str(&mut s, m.as_str());
    s
}

} // verus!

verus! {

/// The displayed text of an API error never reflects the server's prose or
/// detail values: two errors that agree on status, code, label and whether
/// the body followed the schema display the same text, whatever their
/// messages, details and retry hints.
pub proof fn law_display_ignores_server_prose(a: ApiErrorView, b: ApiErrorView)
    requires
        a.status == b.status,
        a.code == b.code,
        a.error == b.error,
        a.schema_body == b.schema_body,
    ensures
        a.display() == b.display(),
        a.summary() == b.summary(),
{
}

/// The `Debug` text of an API error never reflects the server's prose or
/// detail values: two errors that agree on status, code, label, detail field
/// names, retry hint and schema flag, and on whether a message is present,
/// print the same text, whatever the message says.
pub proof fn law_debug_ignores_server_prose(a: ApiErrorView, b: ApiErrorView)
    requires
        a.status == b.status,
        a.code == b.code,
        a.error == b.error,
        a.server_message is Some <==> b.server_message is Some,
        a.detail_key_order == b.detail_key_order,
        a.retry_after == b.retry_after,
        a.schema_body == b.schema_body,
    ensures
        a.debug_text() == b.debug_text(),
{
}

/// Which API errors are transient: every `5xx` status, `408` and `425`,
/// and a `429` unless its code is a documented quota/cap code (a `429`
/// without a code is transient); no other status is.
pub proof fn law_retryable_statuses(a: ApiErrorView)
    ensures
        500 <= a.status < 600 ==> a.retryable(),
        a.status == 408 ==> a.retryable(),
        a.status == 425 ==> a.retryable(),
        a.status == 429 && a.code is None ==> a.retryable(),
        a.status == 429 ==> (a.retryable() <==> !a.quota()),
        !(500 <= a.status < 600 || a.status == 408 || a.status == 425 || a.status == 429)
            ==> !a.retryable(),
{
}

/// Which errors are retried: transport failures always, an API error when
/// its status is transient (see [`law_retryable_statuses`]), and nothing
/// else (encoding, decoding, configuration, request-building and body-size
/// errors are final).
pub proof fn law_retryable_errors(e: Error)
    ensures
        e is Transport ==> e.retryable(),
        e matches Error::Api(a) ==> (e.retryable() <==> a@.retryable()),
        e matches Error::Api(a) && 500 <= a@.status < 600 ==> e.retryable(),
        !(e is Transport || e is Api) ==> !e.retryable(),
{
}

/// Documented quota/cap errors are never retried, whatever their status.
pub proof fn law_quota_errors_not_retried(a: ApiErrorView)
    requires
        a.quota(),
    ensures
        !a.retryable() || a.status == 408 || a.status == 425 || 500 <= a.status < 600,
        a.status == 429 ==> !a.retryable(),
{
}

} // verus!
