//! The [`Operation`] trait: a sans-IO description of a single API call.

use vstd::prelude::*;

use crate::encode::{percent_encode, push_percent_encoded, lemma_encoded_chars, lemma_decode_encode,
    percent_decode, encoded_char};
use crate::error::Result;
use crate::text::{dec, dec_int, u64_to_string, i64_to_string};

verus! {

/// An HTTP method.
#[derive(Debug, Clone, Copy, PartialEq, Eq)]
pub enum Method {
    Get,
    Head,
    Options,
    Post,
    Put,
    Patch,
    Delete,
}

impl Method {
    /// Safe methods: `GET`, `HEAD` and `OPTIONS`.
    pub open spec fn safe(self) -> bool {
        self is Get || self is Head || self is Options
    }

    /// The method's name on the wire.
    pub open spec fn name(self) -> Seq<char> {
        match self {
            Method::Get => "GET"@,
            Method::Head => "HEAD"@,
            Method::Options => "OPTIONS"@,
            Method::Post => "POST"@,
            Method::Put => "PUT"@,
            Method::Patch => "PATCH"@,
            Method::Delete => "DELETE"@,
        }
    }

    /// Whether the method is safe (`GET`, `HEAD` or `OPTIONS`).
    pub fn is_safe(&self) -> (r: bool)
        ensures
            r == self.safe(),
    {
        match self {
            Method::Get | Method::Head | Method::Options => true,
            _ => false,
        }
    }

    /// The method's name on the wire.
    pub fn as_str(&self) -> (r: &'static str)
        ensures
            r@ == self.name(),
    {
        match self {
            Method::Get => "GET",
            Method::Head => "HEAD",
            Method::Options => "OPTIONS",
            Method::Post => "POST",
            Method::Put => "PUT",
            Method::Patch => "PATCH",
            Method::Delete => "DELETE",
        }
    }
}

/// Query or header pairs as plain text.
pub open spec fn pairs_view(s: Seq<(&'static str, String)>) -> Seq<(Seq<char>, Seq<char>)> {
    s.map_values(|p: (&'static str, String)| (p.0@, p.1@))
}

/// An optional byte buffer as plain bytes.
pub open spec fn opt_bytes(b: Option<Vec<u8>>) -> Option<Seq<u8>> {
    match b {
        Some(v) => Some(v@),
        None => None,
    }
}

/// Describes one endpoint's HTTP shape.
///
/// Each endpoint implements this exactly once; the executors consume
/// operations and perform the IO.
pub trait Operation {
    /// The type the response body decodes into.
    type Output;

    /// The HTTP method.
    const METHOD: Method;

    /// Whether a mutating operation may be retried automatically.
    const RETRY_SAFE: bool;

    /// The HTTP method the operation is sent with (the value of `METHOD`).
    spec fn spec_method() -> Method;

    /// Whether a mutating operation opted into automatic retries (the value
    /// of `RETRY_SAFE`).
    spec fn spec_retry_safe() -> bool;

    /// The path, relative to the configured base URL.
    spec fn spec_path(&self) -> Seq<char>;

    /// The query-string parameters, in order.
    spec fn spec_query(&self) -> Seq<(Seq<char>, Seq<char>)>;

    /// Which header lists the operation may produce.
    spec fn headers_ok(&self, h: Seq<(Seq<char>, Seq<char>)>) -> bool;

    /// The JSON request body, if any.
    spec fn spec_body(&self) -> Option<Seq<u8>>;

    /// The HTTP method (`METHOD`).
    fn method() -> (m: Method)
        ensures
            m == Self::spec_method(),
    ;

    /// Whether a mutating operation may be retried automatically
    /// (`RETRY_SAFE`).
    fn retry_safe() -> (b: bool)
        ensures
            b == Self::spec_retry_safe(),
    ;

    /// The path, relative to the configured base URL (begins with `/`).
    fn path(&self) -> (r: String)
        ensures
            r@ == self.spec_path(),
    ;

    /// Query-string parameters.
    fn query(&self) -> (r: Vec<(&'static str, String)>)
        ensures
            pairs_view(r@) == self.spec_query(),
    ;

    /// Extra request headers (e.g. `Idempotency-Key`).
    fn headers(&self) -> (r: Vec<(&'static str, String)>)
        ensures
            self.headers_ok(pairs_view(r@)),
    ;

    /// The JSON request body, if any.
    fn body(&self) -> (r: Result<Option<Vec<u8>>>)
        ensures
            r matches Ok(b) && opt_bytes(b) == self.spec_body(),
    ;
}

/// A value that can stand in a query string.
pub trait QueryValue {
    /// The value's text.
    spec fn text(&self) -> Seq<char>;

    /// The value's text (`ToString::to_string`).
    fn to_query_string(&self) -> (r: String)
        ensures
            r@ == self.text(),
    ;
}

impl QueryValue for u32 {
    open spec fn text(&self) -> Seq<char> {
        dec(*self as nat)
    }

    fn to_query_string(&self) -> (r: String) {
        u64_to_string(*self as u64)
    }
}

impl QueryValue for i64 {
    open spec fn text(&self) -> Seq<char> {
        dec_int(*self as int)
    }

    fn to_query_string(&self) -> (r: String) {
        i64_to_string(*self)
    }
}

impl<'a> QueryValue for &'a String {
    open spec fn text(&self) -> Seq<char> {
        (**self)@
    }

    fn to_query_string(&self) -> (r: String) {
        (*self).clone()
    }
}

/// The pair `(key, value)` when the value is present, nothing otherwise.
pub open spec fn opt_pair<T: QueryValue>(key: Seq<char>, value: Option<T>) -> Seq<(Seq<char>, Seq<char>)> {
    match value {
        Some(v) => seq![(key, v.text())],
        None => Seq::empty(),
    }
}

/// Push a `(key, value)` pair only when the value is present.
pub fn push_opt<T: QueryValue>(q: &mut Vec<(&'static str, String)>, key: &'static str, value: Option<T>)
    ensures
        pairs_view(final(q)@) == pairs_view(old(q)@) + opt_pair(key@, value),
{
    match value {
        Some(v) => {
            let text = v.to_query_string();
            let ghost before = q@;
            q.push((key, text));
            assert(pairs_view(q@) =~= pairs_view(before) + opt_pair(key@, Some(v)));
        },
        None => {
            assert(pairs_view(q@) =~= pairs_view(old(q)@) + opt_pair(key@, value));
        },
    }
}

/// The pair `(key, value)` when the text is present, nothing otherwise.
pub open spec fn opt_str_pair(key: Seq<char>, value: Option<String>) -> Seq<(Seq<char>, Seq<char>)> {
    match value {
        Some(v) => seq![(key, v@)],
        None => Seq::empty(),
    }
}

/// Push a `(key, value)` pair only when the text is present.
pub fn push_opt_str(q: &mut Vec<(&'static str, String)>, key: &'static str, value: &Option<String>)
    ensures
        pairs_view(final(q)@) == pairs_view(old(q)@) + opt_str_pair(key@, *value),
{
    match value {
        Some(v) => {
            let ghost before = q@;
            q.push((key, v.clone()));
            assert(pairs_view(q@) =~= pairs_view(before) + opt_str_pair(key@, *value));
        },
        None => {
            assert(pairs_view(q@) =~= pairs_view(old(q)@) + opt_str_pair(key@, *value));
        },
    }
}

/// The percent-encoding of a path segment's UTF-8 bytes.
pub open spec fn path_segment(s: Seq<char>) -> Seq<char> {
    percent_encode(vstd::utf8::encode_utf8(s), false)
}

/// Percent-encode one URL path segment.
///
/// Unreserved RFC 3986 characters are left untouched; every other byte is
/// encoded, so an identifier cannot alter the path structure: the result
/// holds no `/`, `?`, `#`, `&` or `=`, and decoding it gives the bytes back.
pub fn encode_path_segment(segment: &str) -> (r: String)
    ensures
        r@ == path_segment(segment@),
        percent_decode(r@) == vstd::utf8::encode_utf8(segment@),
        forall|i: int| 0 <= i < r@.len() ==> encoded_char(#[trigger] r@[i], false),
{
    let mut out = String::new();
    push_percent_encoded(&mut out, segment, false);
    proof {
        assert(out@ =~= path_segment(segment@));
        lemma_decode_encode(vstd::utf8::encode_utf8(segment@), false);
        lemma_encoded_chars(vstd::utf8::encode_utf8(segment@), false);
    }
    out
}

/// No header.
pub open spec fn no_headers(h: Seq<(Seq<char>, Seq<char>)>) -> bool {
    h.len() == 0
}

/// Builds a path by appending literal text and identifiers.
pub fn path_of(parts: &[&str]) -> (r: String)
    ensures
        r@ == concat_all(parts@.map_values(|s: &str| s@)),
{
    let mut out = String::new();
    let ghost ps = parts@.map_values(|s: &str| s@);
    let mut i: usize = 0;
    while i < parts.len()
        invariant
            ps == parts@.map_values(|s: &str| s@),
            0 <= i <= parts@.len(),
            out@ == concat_all(ps.take(i as int)),
        decreases parts.len() - i,
    {
        crate::text::push_str(&mut out, parts[i]);
        assert(ps.take(i + 1).drop_last() =~= ps.take(i as int));
        i += 1;
    }
    assert(ps.take(parts@.len() as int) =~= ps);
    out
}

/// The concatenation of a list of texts.
pub open spec fn concat_all(parts: Seq<Seq<char>>) -> Seq<char>
    decreases parts.len(),
{
    if parts.len() == 0 {
        Seq::empty()
    } else {
        concat_all(parts.drop_last()) + parts.last()
    }
}

/// The safe methods are exactly `GET`, `HEAD` and `OPTIONS`: every other
/// method (`POST`, `PUT`, `PATCH`, `DELETE`) mutates server state.
pub proof fn law_safe_methods(m: Method)
    ensures
        m.safe() <==> (m == Method::Get || m == Method::Head || m == Method::Options),
        m == Method::Post ==> !m.safe(),
        m == Method::Put ==> !m.safe(),
        m == Method::Patch ==> !m.safe(),
        m == Method::Delete ==> !m.safe(),
{
}

} // verus!
