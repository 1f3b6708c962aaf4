//! Snapshots of what an attempt sends and receives, for explicitly opted-in
//! protocol debugging.
//!
//! A snapshot holds the material itself (credentials, URL, headers, bodies),
//! unredacted: it exists to be handed to a caller's diagnostics sink or to a
//! dedicated tracing target. Its `debug_string` is redacted.

use vstd::prelude::*;

use crate::operation::{opt_bytes, Method};
use crate::options::string_pairs;
use crate::request::{wire_headers, wire_headers_spec, RequestSpec};
use crate::text::{dec, push_decimal, push_str, str_debug, str_debug_text};

verus! {

/// Stage of an HTTP attempt where a transport failure occurred.
#[derive(Clone, Copy, Debug, PartialEq, Eq)]
pub enum SensitiveTransportErrorStage {
    /// The executor could not build the transport request.
    BuildRequest,
    /// Sending the request failed before a response could be read.
    Send,
    /// A response existed, but reading the body failed.
    ReadBody,
}

/// Request data known to the executor for one HTTP attempt.
#[derive(Clone)]
pub struct SensitiveRequestSnapshot {
    /// HTTP method.
    pub method: Method,
    /// Full URL after the base URL and query parameters are resolved.
    pub url: String,
    /// Rust operation type name.
    pub operation: &'static str,
    /// 1-based request attempt number.
    pub attempt: u64,
    /// Maximum configured retries for this operation.
    pub max_retries: u32,
    /// Caller-provided trace label, when present.
    pub trace_label: Option<String>,
    /// Request headers as sent, including the injected authorization.
    pub headers: Vec<(String, String)>,
    /// Request body bytes, when the operation has a body.
    pub body: Option<Vec<u8>>,
}

/// The text of a count.
fn count_text(n: u64) -> (r: String)
    ensures
        r@ == dec(n as nat),
{
    let mut s = String::new();
    push_decimal(&mut s, n);
    s
}

/// The length of a text's UTF-8 encoding (`str::len`).
pub open spec fn byte_len(s: Seq<char>) -> nat {
    vstd::utf8::encode_utf8(s).len()
}

/// `Some([REDACTED])` for a present value, `None` otherwise.
pub open spec fn presence(present: bool) -> Seq<char> {
    if present {
        "Some([REDACTED])"@
    } else {
        "None"@
    }
}

/// The redacted description of an optional body.
pub open spec fn body_debug(b: Option<Vec<u8>>) -> Seq<char> {
    match b {
        Some(v) => "Some([REDACTED; "@ + dec(v@.len()) + " bytes])"@,
        None => "None"@,
    }
}

/// The fields every snapshot describes alike: method, URL length,
/// operation (quoted, as `Debug` prints a string), attempt, retry budget and whether a label is set.
pub open spec fn attempt_debug(
    method: Method,
    url: Seq<char>,
    operation: Seq<char>,
    attempt: u64,
    max_retries: u32,
    labelled: bool,
) -> Seq<char> {
    let head = "method: "@ + method.name() + ", url: [REDACTED; "@ + dec(byte_len(url));
    let mid = " chars], operation: "@ + str_debug_text(operation) + ", attempt: "@ + dec(attempt as nat);
    head + mid + ", max_retries: "@ + dec(max_retries as nat) + ", trace_label: "@ + presence(
        labelled,
    )
}

/// The redacted description of a request snapshot.
pub open spec fn request_debug(s: SensitiveRequestSnapshot) -> Seq<char> {
    let fields = attempt_debug(
        s.method,
        s.url@,
        s.operation@,
        s.attempt,
        s.max_retries,
        s.trace_label is Some,
    );
    "SensitiveRequestSnapshot { "@ + fields + ", headers: [REDACTED; "@ + dec(s.headers@.len())
        + "], body: "@ + body_debug(s.body) + " }"@
}

/// The redacted description of a response snapshot.
pub open spec fn response_debug(s: SensitiveResponseSnapshot) -> Seq<char> {
    let fields = attempt_debug(
        s.method,
        s.url@,
        s.operation@,
        s.attempt,
        s.max_retries,
        s.trace_label is Some,
    );
    let tail = ", headers: [REDACTED; "@ + dec(s.headers@.len()) + "], body: [REDACTED; "@ + dec(
        s.body@.len(),
    ) + " bytes] }"@;
    "SensitiveResponseSnapshot { "@ + fields + ", status: "@ + dec(s.status as nat) + tail
}

/// The name of a transport stage.
pub open spec fn stage_text(stage: SensitiveTransportErrorStage) -> Seq<char> {
    match stage {
        SensitiveTransportErrorStage::BuildRequest => "BuildRequest"@,
        SensitiveTransportErrorStage::Send => "Send"@,
        SensitiveTransportErrorStage::ReadBody => "ReadBody"@,
    }
}

/// Append the fields every snapshot describes alike.
fn push_attempt_fields(
    s: &mut String,
    method: Method,
    url: &String,
    operation: &'static str,
    attempt: u64,
    max_retries: u32,
    labelled: bool,
)
    ensures
        final(s)@ == old(s)@ + attempt_debug(method, url@, operation@, attempt, max_retries, labelled),
{
    push_str(s, "method: ");
    push_str(s, method.as_str());
    push_str(s, ", url: [REDACTED; ");
    let n = count_text(url.as_str().as_bytes().len() as u64);
    push_str(s, n.as_str());
    push_str(s, " chars], operation: ");
    let op = str_debug(operation);
    push_str(s, op.as_str());
    push_str(s, ", attempt: ");
    let a = count_text(attempt);
    push_str(s, a.as_str());
    push_str(s, ", max_retries: ");
    let m = count_text(max_retries as u64);
    push_str(s, m.as_str());
    push_str(s, ", trace_label: ");
    if labelled {
        push_str(s, "Some([REDACTED])");
    } else {
        push_str(s, "None");
    }
    proof {
        assert(final(s)@ =~= old(s)@ + attempt_debug(method, url@, operation@, attempt, max_retries, labelled));
    }
}

impl SensitiveRequestSnapshot {
    /// The snapshot of one attempt of `spec` at `url`: the headers are the
    /// ones that go on the wire, authorization included.
    pub fn from_spec(
        spec: &RequestSpec,
        url: &str,
        auth_header: &str,
        operation: &'static str,
        attempt: u64,
        max_retries: u32,
        trace_label: Option<&str>,
    ) -> (r: Self)
        ensures
            r.method == spec.method,
            r.url@ == url@,
            r.operation == operation,
            r.attempt == attempt,
            r.max_retries == max_retries,
            match trace_label {
                Some(l) => r.trace_label matches Some(x) && x@ == l@,
                None => r.trace_label is None,
            },
            string_pairs(r.headers@) == wire_headers_spec(spec@, auth_header@),
            opt_bytes(r.body) == spec@.body,
    {
        let label = match trace_label {
            Some(l) => Some(l.to_owned()),
            None => None,
        };
        let body = match &spec.body {
            Some(b) => Some(b.clone()),
            None => None,
        };
        SensitiveRequestSnapshot {
            method: spec.method,
            url: url.to_owned(),
            operation,
            attempt,
            max_retries,
            trace_label: label,
            headers: wire_headers(spec, auth_header),
            body,
        }
    }

    /// A description that shows no URL, label, header or body content.
    pub fn debug_string(&self) -> (r: String)
        ensures
            r@ == request_debug(*self),
    {
        let mut s = "SensitiveRequestSnapshot { ".to_owned();
        push_attempt_fields(
            &mut s,
            self.method,
            &self.url,
            self.operation,
            self.attempt,
            self.max_retries,
            self.trace_label.is_some(),
        );
        push_str(&mut s, ", headers: [REDACTED; ");
        let h = count_text(self.headers.len() as u64);
        push_str(&mut s, h.as_str());
        push_str(&mut s, "], body: ");
        match &self.body {
            Some(b) => {
                push_str(&mut s, "Some([REDACTED; ");
                let l = count_text(b.len() as u64);
                push_str(&mut s, l.as_str());
                push_str(&mut s, " bytes])");
            },
            None => push_str(&mut s, "None"),
        }
        push_str(&mut s, " }");
        proof {
            assert(s@ =~= request_debug(*self));
        }
        s
    }
}

/// Response data known to the executor after the body is fully read.
#[derive(Clone)]
pub struct SensitiveResponseSnapshot {
    /// HTTP method of the originating request.
    pub method: Method,
    /// Full URL of the originating request.
    pub url: String,
    /// Rust operation type name.
    pub operation: &'static str,
    /// 1-based request attempt number.
    pub attempt: u64,
    /// Maximum configured retries for this operation.
    pub max_retries: u32,
    /// Caller-provided trace label, when present.
    pub trace_label: Option<String>,
    /// HTTP response status code.
    pub status: u16,
    /// Raw response headers: names and value bytes, as received.
    pub headers: Vec<(String, Vec<u8>)>,
    /// Raw response body bytes.
    pub body: Vec<u8>,
}

impl SensitiveResponseSnapshot {
    /// The snapshot of the response to the attempt `request` describes.
    pub fn from_raw(
        request: &SensitiveRequestSnapshot,
        status: u16,
        headers: Vec<(String, Vec<u8>)>,
        body: Vec<u8>,
    ) -> (r: Self)
        ensures
            r.method == request.method,
            r.url@ == request.url@,
            r.operation == request.operation,
            r.attempt == request.attempt,
            r.max_retries == request.max_retries,
            match request.trace_label {
                Some(l) => r.trace_label matches Some(x) && x@ == l@,
                None => r.trace_label is None,
            },
            r.status == status,
            r.headers == headers,
            r.body == body,
    {
        let label = match &request.trace_label {
            Some(l) => Some(l.clone()),
            None => None,
        };
        SensitiveResponseSnapshot {
            method: request.method,
            url: request.url.clone(),
            operation: request.operation,
            attempt: request.attempt,
            max_retries: request.max_retries,
            trace_label: label,
            status,
            headers,
            body,
        }
    }

    /// A description that shows no URL, label, header or body content.
    pub fn debug_string(&self) -> (r: String)
        ensures
            r@ == response_debug(*self),
    {
        let mut s = "SensitiveResponseSnapshot { ".to_owned();
        push_attempt_fields(
            &mut s,
            self.method,
            &self.url,
            self.operation,
            self.attempt,
            self.max_retries,
            self.trace_label.is_some(),
        );
        push_str(&mut s, ", status: ");
        let st = count_text(self.status as u64);
        push_str(&mut s, st.as_str());
        push_str(&mut s, ", headers: [REDACTED; ");
        let h = count_text(self.headers.len() as u64);
        push_str(&mut s, h.as_str());
        push_str(&mut s, "], body: [REDACTED; ");
        let b = count_text(self.body.len() as u64);
        push_str(&mut s, b.as_str());
        push_str(&mut s, " bytes] }");
        proof {
            assert(s@ =~= response_debug(*self));
        }
        s
    }
}

/// A transport error plus the request attempt that produced it.
#[derive(Clone)]
pub struct SensitiveTransportErrorSnapshot {
    /// Request attempt associated with the transport failure.
    pub request: SensitiveRequestSnapshot,
    /// Where the failure happened.
    pub stage: SensitiveTransportErrorStage,
    /// Raw, unsanitized text of the transport error.
    pub error: String,
}

impl SensitiveTransportErrorSnapshot {
    /// A transport failure at `stage` of the attempt `request` describes.
    pub fn new(request: SensitiveRequestSnapshot, stage: SensitiveTransportErrorStage, error: String) -> (r:
        Self)
        ensures
            r == (SensitiveTransportErrorSnapshot { request, stage, error }),
    {
        SensitiveTransportErrorSnapshot { request, stage, error }
    }

    /// The name of the stage.
    pub fn stage_name(&self) -> (r: &'static str)
        ensures
            r@ == stage_text(self.stage),
    {
        match self.stage {
            SensitiveTransportErrorStage::BuildRequest => "BuildRequest",
            SensitiveTransportErrorStage::Send => "Send",
            SensitiveTransportErrorStage::ReadBody => "ReadBody",
        }
    }

    /// A description that shows neither the request's content nor the
    /// error text.
    pub fn debug_string(&self) -> (r: String)
        ensures
            r@ == "SensitiveTransportErrorSnapshot { request: "@ + request_debug(self.request)
                + ", stage: "@ + stage_text(self.stage) + ", error: [REDACTED; "@ + dec(
                byte_len(self.error@),
            ) + " chars] }"@,
    {
        let mut s = "SensitiveTransportErrorSnapshot { request: ".to_owned();
        let r = self.request.debug_string();
        push_str(&mut s, r.as_str());
        push_str(&mut s, ", stage: ");
        push_str(&mut s, self.stage_name());
        push_str(&mut s, ", error: [REDACTED; ");
        let n = count_text(self.error.as_str().as_bytes().len() as u64);
        push_str(&mut s, n.as_str());
        push_str(&mut s, " chars] }");
        s
    }
}

/// A sensitive event of an executor.
#[derive(Clone)]
pub enum SensitiveDiagnosticEvent {
    /// A request attempt is about to be handed to the transport.
    Request(SensitiveRequestSnapshot),
    /// A response was received and fully read.
    Response(SensitiveResponseSnapshot),
    /// A transport error prevented a usable response.
    TransportError(SensitiveTransportErrorSnapshot),
}

} // verus!
