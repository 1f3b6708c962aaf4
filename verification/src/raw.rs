//! Raw HTTP response data returned by the executors' escape hatches.

use bytes::Bytes;
use http::HeaderMap;
use vstd::prelude::*;
use vstd::multiset::Multiset;

use crate::text::{dec, push_decimal, push_str};

verus! {

#[verifier::external_type_specification]
#[verifier::external_body]
#[verifier::reject_recursive_types(T)]
pub struct ExHeaderMap<T>(http::HeaderMap<T>);

#[verifier::external_type_specification]
#[verifier::external_body]
pub struct ExHeaderValue(http::HeaderValue);

#[verifier::external_type_specification]
#[verifier::external_body]
pub struct ExBytes(bytes::Bytes);

/// The header values a `HeaderMap` holds, each with its (lower-case) name:
/// one entry per stored value, so a name with several values appears
/// several times.
pub uninterp spec fn header_entries(h: HeaderMap) -> Multiset<(Seq<char>, Seq<u8>)>;

/// The bytes a `Bytes` buffer holds.
pub uninterp spec fn bytes_content(b: Bytes) -> Seq<u8>;

/// `Bytes::clone`: a handle to the same bytes.
pub assume_specification[ <bytes::Bytes as std::clone::Clone>::clone ](b: &bytes::Bytes) -> (r:
    bytes::Bytes)
    ensures
        bytes_content(r) == bytes_content(*b),
;

/// `HeaderMap::clone` (derived): nothing is stated of the copy.
pub assume_specification<T>[ <http::HeaderMap<T> as std::clone::Clone>::clone ](
    h: &http::HeaderMap<T>,
) -> (r: http::HeaderMap<T>) where T: std::clone::Clone
;

/// `HeaderMap::len`: the number of stored values, counting each value of a
/// repeated name.
#[verifier::external_body]
fn header_count(h: &HeaderMap) -> (n: usize)
    ensures
        n == header_entries(*h).len(),
{
    h.len()
}

/// `Bytes::len`: the number of bytes held.
#[verifier::external_body]
fn byte_count(b: &Bytes) -> (n: usize)
    ensures
        n == bytes_content(*b).len(),
{
    b.len()
}

/// Raw HTTP response data captured after the body has been read.
#[derive(Clone)]
pub struct RawResponse {
    /// HTTP status code.
    pub status: u16,
    /// Response headers.
    pub headers: HeaderMap,
    /// Raw response body bytes.
    pub body: Bytes,
}

/// The redacted `Debug` text of a raw response: the status, and only the
/// number of headers and of body bytes.
pub open spec fn raw_debug_text(r: RawResponse) -> Seq<char> {
    let head = "RawResponse { status: "@ + dec(r.status as nat) + ", headers: [REDACTED; "@;
    let counts = dec(header_entries(r.headers).len()) + "], body: [REDACTED; "@ + dec(
        bytes_content(r.body).len(),
    );
    head + counts + " bytes] }"@
}

impl RawResponse {
    /// A raw response from its parts.
    pub fn new(status: u16, headers: HeaderMap, body: Bytes) -> (r: Self)
        ensures
            r == (RawResponse { status, headers, body }),
    {
        RawResponse { status, headers, body }
    }

    /// The redacted `Debug` text (see [`raw_debug_text`]): header values and
    /// body bytes never appear in it.
    pub fn debug_string(&self) -> (r: String)
        ensures
            r@ == raw_debug_text(*self),
    {
        let mut s = "RawResponse { status: ".to_owned();
        push_decimal(&mut s, self.status as u64);
        push_str(&mut s, ", headers: [REDACTED; ");
        let mut counts = String::new();
        push_decimal(&mut counts, header_count(&self.headers) as u64);
        push_str(&mut counts, "], body: [REDACTED; ");
        push_decimal(&mut counts, byte_count(&self.body) as u64);
        push_str(&mut s, counts.as_str());
        push_str(&mut s, " bytes] }");
        proof {
            assert(counts@ =~= dec(header_entries(self.headers).len()) + "], body: [REDACTED; "@
                + dec(bytes_content(self.body).len()));
        }
        s
    }
}

} // verus!
