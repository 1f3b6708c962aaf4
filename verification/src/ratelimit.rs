//! Rate-limit metadata extracted from response headers.
//!
//! The API reports throttling state through response headers. This module
//! parses them into a [`RateLimit`] and bundles them with the `Retry-After`
//! hint into [`ResponseMeta`].

use std::time::Duration;
use vstd::prelude::*;

use crate::text::{eq_ignore_ascii_case, eq_ignore_case};
use crate::time::{duration_nanos, from_secs};

verus! {

/// Response headers in the order the transport reported them: a name and the
/// raw value bytes per entry. A name may occur more than once.
pub struct Headers {
    entries: Vec<(String, Vec<u8>)>,
}

/// One header as plain values: its name and its value bytes.
pub open spec fn entry_view(e: (String, Vec<u8>)) -> (Seq<char>, Seq<u8>) {
    (e.0@, e.1@)
}

impl View for Headers {
    type V = Seq<(Seq<char>, Seq<u8>)>;

    closed spec fn view(&self) -> Seq<(Seq<char>, Seq<u8>)> {
        self.entries@.map_values(|e: (String, Vec<u8>)| entry_view(e))
    }
}

/// The first value under `name` (compared ignoring ASCII case), as
/// `HeaderMap::get` gives it.
pub open spec fn first_value(h: Seq<(Seq<char>, Seq<u8>)>, name: Seq<char>) -> Option<Seq<u8>>
    decreases h.len(),
{
    if h.len() == 0 {
        None
    } else if eq_ignore_case(vstd::utf8::encode_utf8(h[0].0), vstd::utf8::encode_utf8(name)) {
        Some(h[0].1)
    } else {
        first_value(h.drop_first(), name)
    }
}

/// Bytes that `HeaderValue::to_str` accepts: visible ASCII and tab.
pub open spec fn visible_ascii(b: u8) -> bool {
    (32 <= b < 127) || b == 9
}

/// Space or tab, the white space a visible-ASCII value can hold.
pub open spec fn is_blank_byte(b: u8) -> bool {
    b == 32 || b == 9
}

/// A value with leading and trailing spaces and tabs removed.
pub open spec fn trim_bytes(s: Seq<u8>) -> Seq<u8>
    decreases s.len(),
{
    if s.len() > 0 && is_blank_byte(s[0]) {
        trim_bytes(s.drop_first())
    } else if s.len() > 0 && is_blank_byte(s.last()) {
        trim_bytes(s.drop_last())
    } else {
        s
    }
}

/// ASCII decimal digit.
pub open spec fn is_digit(b: u8) -> bool {
    48 <= b <= 57
}

/// The number that a string of decimal digits denotes.
pub open spec fn digits_value(d: Seq<u8>) -> nat
    decreases d.len(),
{
    if d.len() == 0 {
        0
    } else {
        digits_value(d.drop_last()) * 10 + (d.last() - 48) as nat
    }
}

/// A string with one leading `+` removed, if it has one.
pub open spec fn strip_plus(s: Seq<u8>) -> Seq<u8> {
    if s.len() > 0 && s[0] == 43 {
        s.drop_first()
    } else {
        s
    }
}

/// Every byte is a decimal digit.
pub open spec fn all_digits(d: Seq<u8>) -> bool {
    forall|i: int| 0 <= i < d.len() ==> is_digit(#[trigger] d[i])
}

/// `str::parse::<u64>`: an optional `+`, then one or more digits, denoting a
/// value that fits in a `u64`.
pub open spec fn parse_u64(s: Seq<u8>) -> Option<u64> {
    let d = strip_plus(s);
    if d.len() > 0 && all_digits(d) && digits_value(d) <= u64::MAX {
        Some(digits_value(d) as u64)
    } else {
        None
    }
}

/// A header value read as a number: visible ASCII only, trimmed, parsed.
pub open spec fn value_u64(v: Seq<u8>) -> Option<u64> {
    if forall|i: int| 0 <= i < v.len() ==> visible_ascii(#[trigger] v[i]) {
        parse_u64(trim_bytes(v))
    } else {
        None
    }
}

/// The number under the first of `names` that is present.
pub open spec fn header_u64_spec(h: Seq<(Seq<char>, Seq<u8>)>, names: Seq<Seq<char>>) -> Option<
    u64,
>
    decreases names.len(),
{
    if names.len() == 0 {
        None
    } else {
        match first_value(h, names[0]) {
            Some(v) => value_u64(v),
            None => header_u64_spec(h, names.drop_first()),
        }
    }
}

impl Headers {
    /// No headers.
    pub fn new() -> (r: Self)
        ensures
            r@ == Seq::<(Seq<char>, Seq<u8>)>::empty(),
    {
        let r = Headers { entries: Vec::new() };
        assert(r@ =~= Seq::<(Seq<char>, Seq<u8>)>::empty());
        r
    }

    /// Add a header after the present ones.
    pub fn append(&mut self, name: &str, value: &[u8])
        ensures
            final(self)@ == old(self)@.push((name@, value@)),
    {
        let ghost before = self.entries@;
        let owned = vstd::slice::slice_to_vec(value);
        let key = name.to_owned();
        let ghost e = (key, owned);
        self.entries.push((key, owned));
        assert(self.entries@ =~= before.push(e));
        assert(self@ =~= old(self)@.push((name@, value@)));
    }

    /// The number of entries.
    pub fn len(&self) -> (r: usize)
        ensures
            r == self@.len(),
    {
        self.entries.len()
    }

    /// The first value under `name`, ignoring ASCII case.
    pub fn get(&self, name: &str) -> (r: Option<&[u8]>)
        ensures
            match r {
                Some(v) => first_value(self@, name@) == Some(v@),
                None => first_value(self@, name@) is None,
            },
    {
        let n = self.entries.len();
        let mut i: usize = 0;
        assert(self@.len() == n);
        assert(self@.subrange(0, n as int) =~= self@);
        while i < n
            invariant
                n == self.entries@.len(),
                n == self@.len(),
                0 <= i <= n,
                first_value(self@, name@) == first_value(self@.subrange(i as int, n as int), name@),
            decreases n - i,
        {
            let ghost rest = self@.subrange(i as int, n as int);
            assert(rest[0] == entry_view(self.entries@[i as int]));
            if eq_ignore_ascii_case(self.entries[i].0.as_str(), name) {
                return Some(self.entries[i].1.as_slice());
            }
            assert(rest.drop_first() =~= self@.subrange(i + 1, n as int));
            i += 1;
        }
        None
    }
}

fn visible(b: u8) -> (r: bool)
    ensures
        r == visible_ascii(b),
{
    (32 <= b && b < 127) || b == 9
}

fn blank(b: u8) -> (r: bool)
    ensures
        r == is_blank_byte(b),
{
    b == 32 || b == 9
}

proof fn lemma_digits_grow(d: Seq<u8>, i: int, j: int)
    requires
        0 <= i <= j <= d.len(),
        forall|k: int| 0 <= k < d.len() ==> is_digit(#[trigger] d[k]),
    ensures
        digits_value(d.take(i)) <= digits_value(d.take(j)),
    decreases j - i,
{
    if i < j {
        lemma_digits_grow(d, i, j - 1);
        assert(d.take(j).drop_last() =~= d.take(j - 1));
    }
}

/// `str::trim` of a visible-ASCII value, then `str::parse::<u64>`.
pub fn parse_header_u64(v: &[u8]) -> (r: Option<u64>)
    ensures
        r == value_u64(v@),
{
    let n = v.len();
    let mut k: usize = 0;
    while k < n
        invariant
            n == v@.len(),
            0 <= k <= n,
            forall|j: int| 0 <= j < k ==> visible_ascii(#[trigger] v@[j]),
        decreases n - k,
    {
        if !visible(v[k]) {
            return None;
        }
        k += 1;
    }
    // Trim: find the first and last non-blank positions.
    let mut lo: usize = 0;
    let mut hi: usize = n;
    assert(v@.subrange(0, n as int) =~= v@);
    while lo < hi && blank(v[lo])
        invariant
            n == v@.len(),
            forall|j: int| 0 <= j < n ==> visible_ascii(#[trigger] v@[j]),
            0 <= lo <= hi == n,
            trim_bytes(v@) == trim_bytes(v@.subrange(lo as int, hi as int)),
        decreases hi - lo,
    {
        assert(v@.subrange(lo as int, hi as int).drop_first() =~= v@.subrange(lo + 1, hi as int));
        lo += 1;
    }
    while lo < hi && blank(v[hi - 1])
        invariant
            n == v@.len(),
            forall|j: int| 0 <= j < n ==> visible_ascii(#[trigger] v@[j]),
            0 <= lo <= hi <= n,
            lo < hi ==> !is_blank_byte(v@[lo as int]),
            trim_bytes(v@) == trim_bytes(v@.subrange(lo as int, hi as int)),
        decreases hi - lo,
    {
        let ghost s = v@.subrange(lo as int, hi as int);
        assert(s.drop_last() =~= v@.subrange(lo as int, hi - 1));
        hi -= 1;
    }
    let ghost t = v@.subrange(lo as int, hi as int);
    assert(trim_bytes(t) == t);
    // Optional sign.
    let mut start = lo;
    if start < hi && v[start] == 43 {
        start += 1;
    }
    let ghost d = v@.subrange(start as int, hi as int);
    assert(d =~= strip_plus(t));
    if start >= hi {
        return None;
    }
    let mut acc: u64 = 0;
    let mut i: usize = start;
    while i < hi
        invariant
            n == v@.len(),
            forall|j: int| 0 <= j < n ==> visible_ascii(#[trigger] v@[j]),
            trim_bytes(v@) == v@.subrange(lo as int, hi as int),
            v@.subrange(start as int, hi as int) == strip_plus(v@.subrange(lo as int, hi as int)),
            0 <= lo <= start <= i <= hi <= n,
            d == v@.subrange(start as int, hi as int),
            forall|j: int| 0 <= j < i - start ==> is_digit(#[trigger] d[j]),
            acc == digits_value(d.take(i - start)),
        decreases hi - i,
    {
        let b = v[i];
        if b < 48 || b > 57 {
            proof {
                let t2 = trim_bytes(v@);
                assert(strip_plus(t2) == d);
                assert(d[i - start] == b);
                assert(!is_digit(d[i - start]));
                assert(!all_digits(d));
            }
            return None;
        }
        assert(d.take(i - start + 1).drop_last() =~= d.take(i - start));
        assert(d.take(i - start + 1).last() == b);
        if acc > (u64::MAX - (b - 48) as u64) / 10 {
            // The value already exceeds `u64::MAX`: either a later byte is
            // not a digit, or the whole value is larger still.
            proof {
                let t2 = trim_bytes(v@);
                assert(strip_plus(t2) == d);
                if all_digits(d) {
                    lemma_digits_grow(d, i - start + 1, d.len() as int);
                    assert(d.take(d.len() as int) =~= d);
                    let dg = (b - 48) as int;
                    assert(acc * 10 + dg > u64::MAX) by (nonlinear_arith)
                        requires
                            acc > (u64::MAX - dg) / 10,
                            0 <= dg <= 9,
                    ;
                    assert(digits_value(d.take(i - start + 1)) > u64::MAX);
                }
            }
            return None;
        }
        acc = acc * 10 + (b - 48) as u64;
        i += 1;
    }
    assert(d.take(d.len() as int) =~= d);
    Some(acc)
}

/// Look up the first present header among `names` and parse it as a `u64`.
pub fn header_u64(headers: &Headers, names: &[&str]) -> (r: Option<u64>)
    ensures
        r == header_u64_spec(headers@, names@.map_values(|s: &str| s@)),
{
    let ghost ns = names@.map_values(|s: &str| s@);
    let mut i: usize = 0;
    assert(ns.subrange(0, ns.len() as int) =~= ns);
    while i < names.len()
        invariant
            ns == names@.map_values(|s: &str| s@),
            0 <= i <= names@.len(),
            header_u64_spec(headers@, ns) == header_u64_spec(
                headers@,
                ns.subrange(i as int, ns.len() as int),
            ),
        decreases names.len() - i,
    {
        let ghost rest = ns.subrange(i as int, ns.len() as int);
        assert(rest[0] == names@[i as int]@);
        match headers.get(names[i]) {
            Some(v) => {
                return parse_header_u64(v);
            },
            None => {},
        }
        assert(rest.drop_first() =~= ns.subrange(i + 1, ns.len() as int));
        i += 1;
    }
    None
}

/// Per-request rate-limit state reported by the API.
///
/// Names are matched case-insensitively against both the `X-RateLimit-*` and
/// the IETF `RateLimit-*` conventions.
#[derive(Debug, Clone, Copy, Default, PartialEq, Eq)]
pub struct RateLimit {
    /// The ceiling of requests permitted in the current window.
    pub limit: Option<u64>,
    /// Requests remaining in the current window.
    pub remaining: Option<u64>,
    /// The window-reset value exactly as the API reported it.
    pub reset: Option<u64>,
}

/// The header names, in lookup order, of each rate-limit field.
pub open spec fn limit_names() -> Seq<Seq<char>> {
    seq!["x-ratelimit-limit"@, "ratelimit-limit"@]
}

pub open spec fn remaining_names() -> Seq<Seq<char>> {
    seq!["x-ratelimit-remaining"@, "ratelimit-remaining"@]
}

pub open spec fn reset_names() -> Seq<Seq<char>> {
    seq!["x-ratelimit-reset"@, "ratelimit-reset"@]
}

pub open spec fn retry_after_names() -> Seq<Seq<char>> {
    seq!["retry-after"@]
}

/// The rate-limit state the headers report, if any field is present.
pub open spec fn rate_limit_of(h: Seq<(Seq<char>, Seq<u8>)>) -> Option<RateLimit> {
    let limit = header_u64_spec(h, limit_names());
    let remaining = header_u64_spec(h, remaining_names());
    let reset = header_u64_spec(h, reset_names());
    if limit is None && remaining is None && reset is None {
        None
    } else {
        Some(RateLimit { limit, remaining, reset })
    }
}

/// The `Retry-After` delta-seconds, if present and numeric.
pub open spec fn retry_after_secs(h: Seq<(Seq<char>, Seq<u8>)>) -> Option<u64> {
    header_u64_spec(h, retry_after_names())
}

fn lookup2(headers: &Headers, a: &'static str, b: &'static str) -> (r: Option<u64>)
    ensures
        r == header_u64_spec(headers@, seq![a@, b@]),
{
    let names = [a, b];
    let r = header_u64(headers, &names);
    assert(names@.map_values(|s: &str| s@) =~= seq![a@, b@]);
    r
}

impl RateLimit {
    /// `true` when the API reported zero remaining requests.
    pub fn is_exhausted(&self) -> (r: bool)
        ensures
            r == (self.remaining == Some(0u64)),
    {
        match self.remaining {
            Some(n) => n == 0,
            None => false,
        }
    }

    /// Parse rate-limit headers, returning `None` if none were present.
    pub fn from_headers(headers: &Headers) -> (r: Option<Self>)
        ensures
            r == rate_limit_of(headers@),
    {
        let limit = lookup2(headers, "x-ratelimit-limit", "ratelimit-limit");
        let remaining = lookup2(headers, "x-ratelimit-remaining", "ratelimit-remaining");
        let reset = lookup2(headers, "x-ratelimit-reset", "ratelimit-reset");
        if limit.is_none() && remaining.is_none() && reset.is_none() {
            None
        } else {
            Some(RateLimit { limit, remaining, reset })
        }
    }
}

/// Parse the `Retry-After` header as delta-seconds. HTTP-date forms are not
/// interpreted.
pub fn retry_after(headers: &Headers) -> (r: Option<Duration>)
    ensures
        match r {
            Some(d) => retry_after_secs(headers@) matches Some(s) && duration_nanos(d) == s
                * 1000000000,
            None => retry_after_secs(headers@) is None,
        },
{
    let names = ["retry-after"];
    let secs = header_u64(headers, &names);
    assert(names@.map_values(|s: &str| s@) =~= seq!["retry-after"@]);
    match secs {
        Some(s) => Some(from_secs(s)),
        None => None,
    }
}

/// Metadata about a single HTTP response.
#[non_exhaustive]
#[derive(Debug, Clone, Default)]
pub struct ResponseMeta {
    /// The HTTP status code.
    pub status: u16,
    /// Rate-limit state, if the response carried any rate-limit headers.
    pub rate_limit: Option<RateLimit>,
    /// The `Retry-After` hint, if present and expressed in delta-seconds.
    pub retry_after: Option<Duration>,
}

impl ResponseMeta {
    /// Build metadata from a status code and the response headers.
    pub fn from_headers(status: u16, headers: &Headers) -> (r: Self)
        ensures
            r.status == status,
            r.rate_limit == rate_limit_of(headers@),
            match r.retry_after {
                Some(d) => retry_after_secs(headers@) matches Some(s) && duration_nanos(d) == s
                    * 1000000000,
                None => retry_after_secs(headers@) is None,
            },
    {
        ResponseMeta {
            status,
            rate_limit: RateLimit::from_headers(headers),
            retry_after: retry_after(headers),
        }
    }
}

} // verus!
