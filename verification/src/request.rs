//! The fully-resolved request description shared by both executors: built
//! once from an operation, adjusted by request options, and turned into the
//! URL and header list that go on the wire.

use vstd::prelude::*;

use crate::encode::{percent_encode, push_percent_encoded};
use crate::error::Result;
use crate::operation::{opt_bytes, pairs_view, Method, Operation};
use crate::options::{string_pairs, RequestOptions};
use crate::text::{contains_char, eq_ignore_ascii_case, eq_ignore_case, push_char, push_str};

verus! {

/// Header used to make retried mutating requests idempotent.
pub const IDEMPOTENCY_KEY_HEADER: &'static str = "Idempotency-Key";

/// Two header names are the same header when they agree up to ASCII case.
pub open spec fn same_name(a: Seq<char>, b: Seq<char>) -> bool {
    eq_ignore_case(vstd::utf8::encode_utf8(a), vstd::utf8::encode_utf8(b))
}

/// Whether a header list holds a header named `name`.
pub open spec fn has_header(h: Seq<(Seq<char>, Seq<char>)>, name: Seq<char>) -> bool {
    exists|i: int| 0 <= i < h.len() && same_name(#[trigger] h[i].0, name)
}

/// The header list without the headers named `name`, in order.
pub open spec fn drop_named(h: Seq<(Seq<char>, Seq<char>)>, name: Seq<char>) -> Seq<
    (Seq<char>, Seq<char>),
>
    decreases h.len(),
{
    if h.len() == 0 {
        h
    } else if same_name(h.last().0, name) {
        drop_named(h.drop_last(), name)
    } else {
        drop_named(h.drop_last(), name).push(h.last())
    }
}

/// The header list after the extra headers, in order, each replaced any
/// earlier header of the same name.
pub open spec fn override_headers(
    h: Seq<(Seq<char>, Seq<char>)>,
    extra: Seq<(Seq<char>, Seq<char>)>,
) -> Seq<(Seq<char>, Seq<char>)>
    decreases extra.len(),
{
    if extra.len() == 0 {
        h
    } else {
        drop_named(override_headers(h, extra.drop_last()), extra.last().0).push(extra.last())
    }
}

/// The text of a canonical version 4 UUID: 36 characters, lower-case hex
/// digits with hyphens at 8, 13, 18 and 23, version digit `4` at 14, and a
/// variant digit `8`, `9`, `a` or `b` at 19.
pub open spec fn uuid_v4_text(s: Seq<char>) -> bool {
    &&& s.len() == 36
    &&& forall|i: int|
        0 <= i < 36 ==> if i == 8 || i == 13 || i == 18 || i == 23 {
            #[trigger] s[i] == '-'
        } else {
            ('0' <= s[i] <= '9') || ('a' <= s[i] <= 'f')
        }
    &&& s[14] == '4'
    &&& (s[19] == '8' || s[19] == '9' || s[19] == 'a' || s[19] == 'b')
}

/// `uuid::Uuid::new_v4().to_string()`: a fresh random version 4 UUID in its
/// hyphenated lower-case form. Which UUID comes back is left open.
#[verifier::external_body]
pub(crate) fn new_uuid_v4() -> (r: String)
    ensures
        uuid_v4_text(r@),
{
    uuid::Uuid::new_v4().to_string()
}

/// The plain content of a [`RequestSpec`].
pub struct RequestSpecView {
    pub method: Method,
    pub path: Seq<char>,
    pub query: Seq<(Seq<char>, Seq<char>)>,
    pub headers: Seq<(Seq<char>, Seq<char>)>,
    pub body: Option<Seq<u8>>,
}

/// A concrete HTTP request, built once from an [`Operation`] and consumed by
/// whichever executor performs the IO.
#[derive(Debug, Clone)]
pub struct RequestSpec {
    pub method: Method,
    pub path: String,
    pub query: Vec<(String, String)>,
    pub headers: Vec<(String, String)>,
    pub body: Option<Vec<u8>>,
}

impl View for RequestSpec {
    type V = RequestSpecView;

    open spec fn view(&self) -> RequestSpecView {
        RequestSpecView {
            method: self.method,
            path: self.path@,
            query: string_pairs(self.query@),
            headers: string_pairs(self.headers@),
            body: opt_bytes(self.body),
        }
    }
}

/// Owned copies of `(name, value)` pairs.
fn owned_pairs(v: &Vec<(&'static str, String)>) -> (r: Vec<(String, String)>)
    ensures
        string_pairs(r@) == pairs_view(v@),
{
    let mut out: Vec<(String, String)> = Vec::new();
    let mut i: usize = 0;
    while i < v.len()
        invariant
            0 <= i <= v@.len(),
            string_pairs(out@) == pairs_view(v@.take(i as int)),
        decreases v.len() - i,
    {
        let k = v[i].0.to_owned();
        let x = v[i].1.clone();
        let ghost before = out@;
        out.push((k, x));
        assert(string_pairs(out@) =~= string_pairs(before).push((k@, x@)));
        assert(pairs_view(v@.take(i + 1)) =~= pairs_view(v@.take(i as int)).push(
            (v@[i as int].0@, v@[i as int].1@),
        ));
        i += 1;
    }
    assert(v@.take(v@.len() as int) =~= v@);
    out
}

/// Copies of the pairs of `h` whose name is not `name`.
fn without_named(h: &Vec<(String, String)>, name: &str) -> (r: Vec<(String, String)>)
    ensures
        string_pairs(r@) == drop_named(string_pairs(h@), name@),
{
    let mut out: Vec<(String, String)> = Vec::new();
    let ghost hv = string_pairs(h@);
    let mut i: usize = 0;
    while i < h.len()
        invariant
            hv == string_pairs(h@),
            0 <= i <= h@.len(),
            string_pairs(out@) == drop_named(hv.take(i as int), name@),
        decreases h.len() - i,
    {
        assert(hv.take(i + 1).drop_last() =~= hv.take(i as int));
        if !eq_ignore_ascii_case(h[i].0.as_str(), name) {
            let k = h[i].0.clone();
            let x = h[i].1.clone();
            let ghost before = out@;
            out.push((k, x));
            assert(string_pairs(out@) =~= string_pairs(before).push((k@, x@)));
        }
        i += 1;
    }
    assert(hv.take(h@.len() as int) =~= hv);
    out
}

/// The pair text `encode(key)=encode(value)` of a query parameter.
pub open spec fn query_pair(p: (Seq<char>, Seq<char>)) -> Seq<char> {
    percent_encode(vstd::utf8::encode_utf8(p.0), true) + seq!['='] + percent_encode(
        vstd::utf8::encode_utf8(p.1),
        true,
    )
}

/// The encoded query parameters joined by `&`.
pub open spec fn query_string(q: Seq<(Seq<char>, Seq<char>)>) -> Seq<char>
    decreases q.len(),
{
    if q.len() == 0 {
        Seq::empty()
    } else if q.len() == 1 {
        query_pair(q[0])
    } else {
        query_string(q.drop_last()) + seq!['&'] + query_pair(q.last())
    }
}

/// The absolute request URL with its query: the URL itself when there are no
/// parameters, else the URL, `&` when it already holds a `?` and `?`
/// otherwise, and the encoded parameters.
pub open spec fn url_with_query_spec(url: Seq<char>, q: Seq<(Seq<char>, Seq<char>)>) -> Seq<char> {
    if q.len() == 0 {
        url
    } else {
        url + seq![if url.contains('?') { '&' } else { '?' }] + query_string(q)
    }
}

/// Percent-encode one query component: ASCII letters and digits and
/// `!()*-._~` stay, every other byte becomes `%XY`.
pub fn encode_query_component(component: &str) -> (r: String)
    ensures
        r@ == percent_encode(vstd::utf8::encode_utf8(component@), true),
{
    let mut out = String::new();
    push_percent_encoded(&mut out, component, true);
    assert(out@ =~= percent_encode(vstd::utf8::encode_utf8(component@), true));
    out
}

/// Build the absolute request URL, including the encoded query parameters.
///
/// Both executors use this, so their wire URLs are the same.
pub fn url_with_query(url: &str, query: &[(String, String)]) -> (r: String)
    ensures
        r@ == url_with_query_spec(url@, string_pairs(query@)),
{
    let ghost qv = string_pairs(query@);
    if query.len() == 0 {
        return url.to_owned();
    }
    let mut out = url.to_owned();
    if contains_char(url, '?') {
        push_char(&mut out, '&');
    } else {
        push_char(&mut out, '?');
    }
    let ghost head = out@;
    let mut i: usize = 0;
    while i < query.len()
        invariant
            qv == string_pairs(query@),
            0 <= i <= query@.len(),
            query@.len() > 0,
            out@ == head + query_string(qv.take(i as int)),
        decreases query.len() - i,
    {
        let ghost before = out@;
        if i > 0 {
            push_char(&mut out, '&');
        }
        push_percent_encoded(&mut out, query[i].0.as_str(), true);
        push_char(&mut out, '=');
        push_percent_encoded(&mut out, query[i].1.as_str(), true);
        proof {
            let t = qv.take(i + 1);
            assert(t.drop_last() =~= qv.take(i as int));
            assert(t.last() == (query@[i as int].0@, query@[i as int].1@));
            if i == 0 {
                assert(out@ =~= head + query_string(t));
            } else {
                assert(out@ =~= head + query_string(t));
            }
        }
        i += 1;
    }
    assert(qv.take(query@.len() as int) =~= qv);
    out
}

impl RequestSpec {
    /// Resolve an [`Operation`] into a concrete request.
    pub fn build<O: Operation>(op: &O) -> (r: Result<Self>)
        ensures
            r matches Ok(s) && s@ == (RequestSpecView {
                method: O::spec_method(),
                path: op.spec_path(),
                query: op.spec_query(),
                headers: s@.headers,
                body: op.spec_body(),
            }) && op.headers_ok(s@.headers),
    {
        let body = match op.body() {
            Ok(b) => b,
            Err(e) => return Err(e),
        };
        let q = op.query();
        let h = op.headers();
        Ok(RequestSpec {
            method: O::method(),
            path: op.path(),
            query: owned_pairs(&q),
            headers: owned_pairs(&h),
            body,
        })
    }

    /// Whether this request mutates server state (anything but `GET`,
    /// `HEAD` or `OPTIONS`): the requests that warrant an idempotency key.
    pub fn is_mutating(&self) -> (r: bool)
        ensures
            r == !self.method.safe(),
    {
        !self.method.is_safe()
    }

    /// Attach an `Idempotency-Key` header to a mutating request that does not
    /// carry one yet, so that automatic retries cannot duplicate side
    /// effects. Nothing changes for a safe request or one that has a key.
    pub fn ensure_idempotency_key(&mut self)
        ensures
            if !old(self).method.safe() && !has_header(old(self)@.headers, IDEMPOTENCY_KEY_HEADER@) {
                exists|k: Seq<char>|
                    uuid_v4_text(k) && final(self)@ == (RequestSpecView {
                        headers: old(self)@.headers.push((IDEMPOTENCY_KEY_HEADER@, k)),
                        ..old(self)@
                    })
            } else {
                final(self)@ == old(self)@
            },
            !final(self).method.safe() ==> has_header(final(self)@.headers, IDEMPOTENCY_KEY_HEADER@),
    {
        if !self.is_mutating() {
            return;
        }
        let mut i: usize = 0;
        while i < self.headers.len()
            invariant
                0 <= i <= self.headers@.len(),
                forall|j: int|
                    0 <= j < i ==> !same_name(
                        #[trigger] string_pairs(self.headers@)[j].0,
                        IDEMPOTENCY_KEY_HEADER@,
                    ),
            decreases self.headers.len() - i,
        {
            if eq_ignore_ascii_case(self.headers[i].0.as_str(), IDEMPOTENCY_KEY_HEADER) {
                assert(same_name(string_pairs(self.headers@)[i as int].0, IDEMPOTENCY_KEY_HEADER@));
                return;
            }
            i += 1;
        }
        let key = new_uuid_v4();
        let ghost before = self.headers@;
        self.headers.push((IDEMPOTENCY_KEY_HEADER.to_owned(), key));
        proof {
            let n = before.len() as int;
            assert(string_pairs(self.headers@) =~= string_pairs(before).push(
                (IDEMPOTENCY_KEY_HEADER@, key@),
            ));
            assert(same_name(string_pairs(self.headers@)[n].0, IDEMPOTENCY_KEY_HEADER@));
        }
    }

    /// Apply request options: each extra header, in order, replaces any
    /// header of the same name (up to ASCII case); extra query parameters
    /// come after the operation's own.
    pub fn apply_options(&mut self, options: &RequestOptions)
        ensures
            final(self)@ == (RequestSpecView {
                headers: override_headers(old(self)@.headers, options@.headers),
                query: old(self)@.query + options@.query,
                ..old(self)@
            }),
    {
        let extra = options.extra_headers();
        let ghost ev = string_pairs(extra@);
        let mut i: usize = 0;
        while i < extra.len()
            invariant
                ev == string_pairs(extra@),
                0 <= i <= extra@.len(),
                self@ == (RequestSpecView {
                    headers: override_headers(old(self)@.headers, ev.take(i as int)),
                    ..old(self)@
                }),
            decreases extra.len() - i,
        {
            let mut kept = without_named(&self.headers, extra[i].0.as_str());
            let k = extra[i].0.clone();
            let x = extra[i].1.clone();
            let ghost before = kept@;
            kept.push((k, x));
            proof {
                assert(string_pairs(kept@) =~= string_pairs(before).push((k@, x@)));
                let t = ev.take(i + 1);
                assert(t.drop_last() =~= ev.take(i as int));
                assert(t.last() == (k@, x@));
            }
            self.headers = kept;
            i += 1;
        }
        assert(ev.take(extra@.len() as int) =~= ev);
        let extra_q = options.extra_query();
        let mut j: usize = 0;
        let ghost q0 = string_pairs(self.query@);
        let ghost qv = string_pairs(extra_q@);
        while j < extra_q.len()
            invariant
                qv == string_pairs(extra_q@),
                0 <= j <= extra_q@.len(),
                self@ == (RequestSpecView { query: q0 + qv.take(j as int), ..self@ }),
                self@.headers == override_headers(old(self)@.headers, options@.headers),
                self.method == old(self).method,
                self@.path == old(self)@.path,
                self@.body == old(self)@.body,
                q0 == old(self)@.query,
            decreases extra_q.len() - j,
        {
            let k = extra_q[j].0.clone();
            let x = extra_q[j].1.clone();
            let ghost before = self.query@;
            self.query.push((k, x));
            proof {
                assert(string_pairs(self.query@) =~= string_pairs(before).push((k@, x@)));
                assert(qv.take(j + 1) =~= qv.take(j as int).push((k@, x@)));
                assert(q0 + qv.take(j + 1) =~= (q0 + qv.take(j as int)).push((k@, x@)));
            }
            j += 1;
        }
        assert(qv.take(extra_q@.len() as int) =~= qv);
    }
}

/// Whether the header list holds a header named `name` (up to ASCII case).
pub fn header_present(h: &Vec<(String, String)>, name: &str) -> (r: bool)
    ensures
        r == has_header(string_pairs(h@), name@),
{
    let mut i: usize = 0;
    while i < h.len()
        invariant
            0 <= i <= h@.len(),
            forall|j: int| 0 <= j < i ==> !same_name(#[trigger] string_pairs(h@)[j].0, name@),
        decreases h.len() - i,
    {
        if eq_ignore_ascii_case(h[i].0.as_str(), name) {
            assert(same_name(string_pairs(h@)[i as int].0, name@));
            return true;
        }
        i += 1;
    }
    false
}

/// The headers that go on the wire: `authorization` with the credentials
/// first, then the request's headers except any `Authorization` of its own,
/// then `content-type: application/json` when there is a body and no
/// `Content-Type` was given.
pub open spec fn wire_headers_spec(s: RequestSpecView, auth: Seq<char>) -> Seq<
    (Seq<char>, Seq<char>),
> {
    seq![("authorization"@, auth)] + drop_named(s.headers, "authorization"@) + if s.body is Some
        && !has_header(s.headers, "content-type"@) {
        seq![("content-type"@, "application/json"@)]
    } else {
        Seq::empty()
    }
}

/// The header list that an executor sends for `spec`, with `auth` as the
/// `Authorization` value.
pub fn wire_headers(spec: &RequestSpec, auth: &str) -> (r: Vec<(String, String)>)
    ensures
        string_pairs(r@) == wire_headers_spec(spec@, auth@),
{
    let mut out: Vec<(String, String)> = Vec::new();
    out.push(("authorization".to_owned(), auth.to_owned()));
    let rest = without_named(&spec.headers, "authorization");
    let mut i: usize = 0;
    let ghost first = string_pairs(out@);
    assert(first =~= seq![("authorization"@, auth@)]);
    while i < rest.len()
        invariant
            0 <= i <= rest@.len(),
            string_pairs(out@) == first + string_pairs(rest@).take(i as int),
        decreases rest.len() - i,
    {
        let k = rest[i].0.clone();
        let x = rest[i].1.clone();
        let ghost before = out@;
        out.push((k, x));
        assert(string_pairs(out@) =~= string_pairs(before).push((k@, x@)));
        assert(string_pairs(rest@).take(i + 1) =~= string_pairs(rest@).take(i as int).push(
            (k@, x@),
        ));
        i += 1;
    }
    assert(string_pairs(rest@).take(rest@.len() as int) =~= string_pairs(rest@));
    let has_type = header_present(&spec.headers, "content-type");
    if spec.body.is_some() && !has_type {
        let ghost before = out@;
        out.push(("content-type".to_owned(), "application/json".to_owned()));
        assert(string_pairs(out@) =~= string_pairs(before).push(
            ("content-type"@, "application/json"@),
        ));
    }
    assert(string_pairs(out@) =~= wire_headers_spec(spec@, auth@));
    out
}

/// Once a mutating request carries an idempotency key, it keeps one: adding
/// a header never removes a header that was there.
pub proof fn law_idempotency_key_kept(
    h: Seq<(Seq<char>, Seq<char>)>,
    extra: (Seq<char>, Seq<char>),
)
    requires
        has_header(h, IDEMPOTENCY_KEY_HEADER@),
    ensures
        has_header(h.push(extra), IDEMPOTENCY_KEY_HEADER@),
{
    let i = choose|i: int| 0 <= i < h.len() && same_name(#[trigger] h[i].0, IDEMPOTENCY_KEY_HEADER@);
    assert(h.push(extra)[i] == h[i]);
}

} // verus!

verus! {

/// No header named `name` is left after dropping that name.
pub proof fn lemma_drop_named_absent(h: Seq<(Seq<char>, Seq<char>)>, name: Seq<char>)
    ensures
        forall|i: int|
            0 <= i < drop_named(h, name).len() ==> !same_name(
                #[trigger] drop_named(h, name)[i].0,
                name,
            ),
        drop_named(h, name).len() <= h.len(),
    decreases h.len(),
{
    if h.len() > 0 {
        lemma_drop_named_absent(h.drop_last(), name);
    }
}

/// A header whose name is not `name` survives dropping that name.
pub proof fn lemma_drop_named_keeps(h: Seq<(Seq<char>, Seq<char>)>, name: Seq<char>, i: int)
    requires
        0 <= i < h.len(),
        !same_name(h[i].0, name),
    ensures
        drop_named(h, name).contains(h[i]),
    decreases h.len(),
{
    let d = drop_named(h, name);
    if i == h.len() - 1 {
        assert(d[d.len() - 1] == h[i]);
    } else {
        lemma_drop_named_keeps(h.drop_last(), name, i);
        let dd = drop_named(h.drop_last(), name);
        let j = choose|j: int| 0 <= j < dd.len() && dd[j] == h[i];
        if !same_name(h.last().0, name) {
            assert(d[j] == dd[j]);
        }
    }
}

/// On the wire every header of the request that is not `Authorization`
/// is kept, in the request's order, right after the credentials: only
/// `Authorization` headers are dropped, and at most a `Content-Type` is
/// added at the end.
pub proof fn law_wire_headers_keep_others(s: RequestSpecView, auth: Seq<char>)
    ensures
        wire_headers_spec(s, auth).subrange(1, 1 + drop_named(s.headers, "authorization"@).len() as int)
            == drop_named(s.headers, "authorization"@),
        forall|i: int|
            0 <= i < s.headers.len() && !same_name(s.headers[i].0, "authorization"@)
                ==> wire_headers_spec(s, auth).contains(#[trigger] s.headers[i]),
        wire_headers_spec(s, auth).len() <= drop_named(s.headers, "authorization"@).len() + 2,
{
    let d = drop_named(s.headers, "authorization"@);
    let w = wire_headers_spec(s, auth);
    assert(w.subrange(1, 1 + d.len() as int) =~= d);
    assert forall|i: int|
        0 <= i < s.headers.len() && !same_name(s.headers[i].0, "authorization"@) implies w.contains(
        #[trigger] s.headers[i],
    ) by {
        lemma_drop_named_keeps(s.headers, "authorization"@, i);
        let j = choose|j: int| 0 <= j < d.len() && d[j] == s.headers[i];
        assert(w[1 + j] == d[j]);
    }
}

/// Credentials cannot be overridden: on the wire the first header is
/// `authorization` with the credentials' value, and none of the request's
/// own headers that follow it is another `Authorization`.
pub proof fn law_single_authorization(s: RequestSpecView, auth: Seq<char>)
    ensures
        wire_headers_spec(s, auth)[0] == ("authorization"@, auth),
        forall|i: int|
            1 <= i <= drop_named(s.headers, "authorization"@).len() ==> !same_name(
                #[trigger] wire_headers_spec(s, auth)[i].0,
                "authorization"@,
            ),
{
    let d = drop_named(s.headers, "authorization"@);
    lemma_drop_named_absent(s.headers, "authorization"@);
    assert forall|i: int| 1 <= i <= d.len() implies !same_name(
        #[trigger] wire_headers_spec(s, auth)[i].0,
        "authorization"@,
    ) by {
        assert(wire_headers_spec(s, auth)[i] == d[i - 1]);
    }
}

} // verus!
