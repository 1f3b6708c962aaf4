//! The decisions of the two executors, apart from their IO: which retry
//! policy an operation runs under, the request that goes on the wire, when
//! to retry a failed attempt and how long to wait, and how much of a
//! response body is kept.

use std::time::Duration;

use vstd::prelude::*;

use crate::config::{base_url_error, valid_base_url, ClientConfig};
use crate::error::{api_view, Error};
use crate::operation::{Method, Operation};
use crate::options::RequestOptions;
use crate::request::{
    drop_named, has_header, law_single_authorization, law_wire_headers_keep_others,
    lemma_drop_named_keeps, override_headers, same_name, wire_headers_spec, url_with_query, url_with_query_spec, uuid_v4_text, RequestSpec,
    RequestSpecView, IDEMPOTENCY_KEY_HEADER,
};
use crate::retry::RetryPolicy;
use crate::time::duration_nanos;

verus! {

/// Whether operations of a kind may be retried: safe methods always, others
/// only when the operation declares it.
pub open spec fn retry_allowed(method: Method, retry_safe: bool) -> bool {
    method.safe() || retry_safe
}

/// The retry policy an operation runs under: the request's policy, or the
/// client's when the request sets none, for operations that may be retried;
/// no retries for the others.
pub fn effective_retry<O: Operation>(options: &RequestOptions, config: &ClientConfig) -> (r:
    RetryPolicy)
    ensures
        if retry_allowed(O::spec_method(), O::spec_retry_safe()) {
            r == match options@.retry {
                Some(p) => p,
                None => config.retry,
            }
        } else {
            r.max_retries == 0
        },
{
    let method = O::method();
    if method.is_safe() || O::retry_safe() {
        options.retry_or(config.retry)
    } else {
        RetryPolicy::none()
    }
}

/// Which operations are retried: exactly those sent with `GET`, `HEAD` or
/// `OPTIONS`, and those that opted in with `RETRY_SAFE`. So `effective_retry`
/// and `prepare` give an operation sent with `POST`, `PUT`, `PATCH` or
/// `DELETE` that has not opted in a policy with `max_retries == 0`.
pub proof fn law_retry_only_safe_or_opted_in(method: Method, retry_safe: bool)
    ensures
        retry_allowed(method, retry_safe) <==> (method == Method::Get || method == Method::Head
            || method == Method::Options || retry_safe),
        !retry_safe && (method == Method::Post || method == Method::Put || method == Method::Patch
            || method == Method::Delete) ==> !retry_allowed(method, retry_safe),
{
}

/// A request ready for its attempts: what goes on the wire, where, and under
/// which retry policy.
pub struct Prepared {
    pub spec: RequestSpec,
    pub url: String,
    pub retry: RetryPolicy,
}

/// The headers of a prepared request, given the headers after the options:
/// a fresh idempotency key is added to a retried mutating request that
/// carries none.
pub open spec fn keyed_headers(
    h: Seq<(Seq<char>, Seq<char>)>,
    method: Method,
    keyed: bool,
    key: Seq<char>,
) -> Seq<(Seq<char>, Seq<char>)> {
    if keyed && !method.safe() && !has_header(h, IDEMPOTENCY_KEY_HEADER@) {
        h.push((IDEMPOTENCY_KEY_HEADER@, key))
    } else {
        h
    }
}

/// Resolve an operation with its request options against the client
/// configuration: check the request's base URL, choose the retry policy,
/// build the request, apply the options, give a retried mutating request an
/// idempotency key, and compute the URL with its query.
pub fn prepare<O: Operation>(op: &O, options: &RequestOptions, config: &ClientConfig) -> (r:
    crate::error::Result<Prepared>)
    ensures
        match r {
            Err(e) => options@.base_url matches Some(b) && !valid_base_url(b) && (e matches Error::Config(
                m,
            ) && m@ == base_url_error(b, "request base URL"@)),
            Ok(p) => {
                &&& (options@.base_url matches Some(b) ==> valid_base_url(b))
                &&& if retry_allowed(O::spec_method(), O::spec_retry_safe()) {
                    p.retry == match options@.retry {
                        Some(q) => q,
                        None => config.retry,
                    }
                } else {
                    p.retry.max_retries == 0
                }
                &&& p.spec@.method == O::spec_method()
                &&& p.spec@.path == op.spec_path()
                &&& p.spec@.body == op.spec_body()
                &&& p.spec@.query == op.spec_query() + options@.query
                &&& exists|h0: Seq<(Seq<char>, Seq<char>)>, key: Seq<char>|
                    op.headers_ok(h0) && uuid_v4_text(key) && p.spec@.headers == keyed_headers(
                        override_headers(h0, options@.headers),
                        O::spec_method(),
                        p.retry.max_retries > 0 && O::spec_retry_safe(),
                        key,
                    )
                &&& p.url@ == url_with_query_spec(
                    match options@.base_url {
                        Some(b) => b,
                        None => config.base_url@,
                    } + p.spec@.path,
                    p.spec@.query,
                )
            },
        },
{
    match options.validate_base_url() {
        Ok(()) => {},
        Err(e) => return Err(e),
    }
    let retry = effective_retry::<O>(options, config);
    let mut spec = match RequestSpec::build(op) {
        Ok(s) => s,
        Err(e) => return Err(e),
    };
    let ghost h0 = spec@.headers;
    spec.apply_options(options);
    let ghost h1 = spec@.headers;
    assert(h1 == override_headers(h0, options@.headers));
    if retry.max_retries > 0 && O::retry_safe() {
        spec.ensure_idempotency_key();
    }
    proof {
        let keyed = retry.max_retries > 0 && O::spec_retry_safe();
        if keyed && !O::spec_method().safe() && !has_header(h1, IDEMPOTENCY_KEY_HEADER@) {
            let k = choose|k: Seq<char>|
                uuid_v4_text(k) && spec@ == (RequestSpecView {
                    headers: h1.push((IDEMPOTENCY_KEY_HEADER@, k)),
                    ..spec@
                });
            assert(spec@.headers == keyed_headers(h1, O::spec_method(), keyed, k));
        } else {
            let k = "00000000-0000-4000-8000-000000000000"@;
            assert(uuid_v4_text(k)) by {
                reveal_strlit("00000000-0000-4000-8000-000000000000");
            }
            assert(spec@.headers == keyed_headers(h1, O::spec_method(), keyed, k));
        }
    }
    let base = options.url_for(config, spec.path.as_str());
    let url = url_with_query(base.as_str(), spec.query.as_slice());
    Ok(Prepared { spec, url, retry })
}

/// The attempts of one operation: its retry policy and the retries made.
pub struct Attempts {
    policy: RetryPolicy,
    retries_done: u32,
}

impl Attempts {
    /// The policy the attempts follow.
    pub closed spec fn spec_policy(self) -> RetryPolicy {
        self.policy
    }

    /// The number of retries made so far.
    pub closed spec fn spec_retries_done(self) -> u32 {
        self.retries_done
    }

    /// The first attempt under `policy`.
    pub fn new(policy: RetryPolicy) -> (r: Self)
        ensures
            r.spec_policy() == policy,
            r.spec_retries_done() == 0,
    {
        Attempts { policy, retries_done: 0 }
    }

    /// The number of the current attempt (the first is 1).
    pub fn attempt(&self) -> (r: u64)
        ensures
            r == self.spec_retries_done() + 1,
    {
        self.retries_done as u64 + 1
    }

    /// The number of retries made so far.
    pub fn retries_done(&self) -> (r: u32)
        ensures
            r == self.spec_retries_done(),
    {
        self.retries_done
    }

    /// Decide after a failed attempt: `Some(delay)` to wait and retry (the
    /// retry is counted), `None` to give up with `err`.
    pub fn on_failure(&mut self, err: &Error) -> (r: Option<Duration>)
        ensures
            final(self).spec_policy() == old(self).spec_policy(),
            (r is Some) == old(self).spec_policy().retries(
                old(self).spec_retries_done() as nat,
                *err,
            ),
            match r {
                Some(d) => final(self).spec_retries_done() == old(self).spec_retries_done() + 1
                    && old(self).spec_policy().allowed_delay(
                    old(self).spec_retries_done() as nat,
                    *err,
                    duration_nanos(d),
                ) && duration_nanos(d) <= duration_nanos(old(self).spec_policy().max_delay),
                None => final(self).spec_retries_done() == old(self).spec_retries_done(),
            },
    {
        if self.policy.should_retry(self.retries_done, err) {
            let d = self.policy.delay_for(self.retries_done, err);
            self.retries_done = self.retries_done + 1;
            Some(d)
        } else {
            None
        }
    }
}

/// The number of attempts a send makes when attempt `i` (counting from 0)
/// would end with `outcomes[i]` (`Ok` for a 2xx response that decoded,
/// `Err` for any error), `done` retries having been made before: as
/// [`Attempts::on_failure`] decides, a success ends the run, and so does an
/// error that is not retried.
pub open spec fn attempts_run(policy: RetryPolicy, outcomes: Seq<Result<(), Error>>, done: nat) -> nat
    decreases outcomes.len(),
{
    if outcomes.len() == 0 {
        0
    } else {
        match outcomes[0] {
            Ok(_) => 1,
            Err(e) => if policy.retries(done, e) {
                1 + attempts_run(policy, outcomes.drop_first(), done + 1)
            } else {
                1
            },
        }
    }
}

/// The run of a send's attempts after `done` retries (the general form of
/// [`law_send_attempts`]).
pub proof fn lemma_attempts_run(policy: RetryPolicy, outcomes: Seq<Result<(), Error>>, done: nat)
    requires
        done <= policy.max_retries,
        done + outcomes.len() > policy.max_retries,
    ensures
        1 <= attempts_run(policy, outcomes, done) <= policy.max_retries + 1 - done,
        forall|i: int|
            0 <= i < attempts_run(policy, outcomes, done) - 1 ==> (#[trigger] outcomes[i] matches Err(
                e,
            ) && policy.retries((done + i) as nat, e)),
        match outcomes[attempts_run(policy, outcomes, done) - 1] {
            Ok(_) => true,
            Err(e) => !policy.retries((done + attempts_run(policy, outcomes, done) - 1) as nat, e),
        },
    decreases outcomes.len(),
{
    match outcomes[0] {
        Ok(_) => {},
        Err(e) => {
            if policy.retries(done, e) {
                let rest = outcomes.drop_first();
                lemma_attempts_run(policy, rest, done + 1);
                let n = attempts_run(policy, rest, done + 1);
                assert forall|i: int| 0 <= i < n + 1 - 1 implies (#[trigger] outcomes[i] matches Err(
                    e2,
                ) && policy.retries((done + i) as nat, e2)) by {
                    if i > 0 {
                        assert(outcomes[i] == rest[i - 1]);
                    }
                }
                assert(outcomes[n as int] == rest[n - 1]);
            }
        },
    }
}

/// The attempts of one send: the executors prepare the request once (its URL
/// and headers, see [`prepare`] and [`law_option_header_on_wire`]) and send
/// that same request at every attempt, deciding after each failure with
/// [`Attempts::on_failure`]. When attempt `i` would end with `outcomes[i]`,
/// the send makes between 1 and `max_retries + 1` attempts; every attempt
/// but the last failed with an error that was retried; and the send's result
/// is the last attempt's outcome, which is a success or an error that is not
/// retried. The executors count as a success only a response whose status
/// passes [`is_success`](crate::response::is_success) and whose body decodes.
pub proof fn law_send_attempts(policy: RetryPolicy, outcomes: Seq<Result<(), Error>>)
    requires
        outcomes.len() > policy.max_retries,
    ensures
        1 <= attempts_run(policy, outcomes, 0) <= policy.max_retries + 1,
        forall|i: int|
            0 <= i < attempts_run(policy, outcomes, 0) - 1 ==> (#[trigger] outcomes[i] matches Err(
                e,
            ) && policy.retries(i as nat, e)),
        match outcomes[attempts_run(policy, outcomes, 0) - 1] {
            Ok(_) => true,
            Err(e) => !policy.retries((attempts_run(policy, outcomes, 0) - 1) as nat, e),
        },
{
    lemma_attempts_run(policy, outcomes, 0);
}

/// An extra header survives the later extra headers when none of them has
/// its name.
proof fn lemma_override_keeps_extra(
    h: Seq<(Seq<char>, Seq<char>)>,
    extra: Seq<(Seq<char>, Seq<char>)>,
    i: int,
)
    requires
        0 <= i < extra.len(),
        forall|j: int| i < j < extra.len() ==> !same_name(extra[i].0, #[trigger] extra[j].0),
    ensures
        override_headers(h, extra).contains(extra[i]),
    decreases extra.len(),
{
    let n = extra.len() - 1;
    let o = override_headers(h, extra);
    if i == n {
        assert(o[o.len() - 1] == extra[i]);
    } else {
        let e2 = extra.drop_last();
        assert forall|j: int| i < j < e2.len() implies !same_name(e2[i].0, #[trigger] e2[j].0) by {
            assert(e2[j] == extra[j]);
        }
        lemma_override_keeps_extra(h, e2, i);
        let o2 = override_headers(h, e2);
        assert(e2[i] == extra[i]);
        let k = choose|k: int| 0 <= k < o2.len() && o2[k] == extra[i];
        assert(!same_name(extra[i].0, extra[n].0));
        lemma_drop_named_keeps(o2, extra.last().0, k);
        let d = drop_named(o2, extra.last().0);
        let m = choose|m: int| 0 <= m < d.len() && d[m] == extra[i];
        assert(o[m] == extra[i]);
    }
}

/// What goes on the wire at every attempt of a prepared request (`prepare`
/// fixes its headers once, as `keyed_headers` of the operation's headers
/// after the request-option headers): the credentials come first, and every
/// request-option header that is not `Authorization` and that no later
/// option header names again is sent as given. (That no other
/// `Authorization` follows is `law_single_authorization`.)
pub proof fn law_option_header_on_wire(
    s: RequestSpecView,
    h0: Seq<(Seq<char>, Seq<char>)>,
    extra: Seq<(Seq<char>, Seq<char>)>,
    method: Method,
    keyed: bool,
    key: Seq<char>,
    auth: Seq<char>,
    i: int,
)
    requires
        s.headers == keyed_headers(override_headers(h0, extra), method, keyed, key),
        0 <= i < extra.len(),
        !same_name(extra[i].0, "authorization"@),
        forall|j: int| i < j < extra.len() ==> !same_name(extra[i].0, #[trigger] extra[j].0),
    ensures
        wire_headers_spec(s, auth)[0] == ("authorization"@, auth),
        wire_headers_spec(s, auth).contains(extra[i]),
{
    law_single_authorization(s, auth);
    lemma_override_keeps_extra(h0, extra, i);
    let o = override_headers(h0, extra);
    let k = choose|k: int| 0 <= k < o.len() && o[k] == extra[i];
    let kh = keyed_headers(o, method, keyed, key);
    assert(kh[k] == extra[i]);
    law_wire_headers_keep_others(s, auth);
    assert(s.headers[k] == extra[i]);
}

/// An operation makes at most `max_retries + 1` attempts: a retry is only
/// granted while fewer than `max_retries` retries were made, so the count
/// of retries never passes `max_retries`; and an error that is not
/// retryable ends the operation at once.
pub proof fn law_attempts_bounded(policy: RetryPolicy, retries_done: nat, err: Error)
    requires
        retries_done <= policy.max_retries,
    ensures
        policy.retries(retries_done, err) ==> retries_done + 1 <= policy.max_retries,
        !err.retryable() ==> !policy.retries(retries_done, err),
        policy.max_retries == 0 ==> !policy.retries(retries_done, err),
{
}

/// Whether a chunk still fits the response body limit: the length so far
/// plus the chunk, saturated at `usize::MAX`, is at most the limit.
pub open spec fn chunk_fits_spec(current: nat, chunk: nat, limit: nat) -> bool {
    (if current + chunk > usize::MAX {
        usize::MAX as nat
    } else {
        current + chunk
    }) <= limit
}

/// The total length of a list of chunks.
pub open spec fn total_len(chunks: Seq<nat>) -> nat
    decreases chunks.len(),
{
    if chunks.len() == 0 {
        0
    } else {
        total_len(chunks.drop_last()) + chunks.last()
    }
}

/// The body limit holds over a whole read: when every chunk was accepted by
/// the check against the length read before it, the body read is no longer
/// than the limit (a body in memory is at most `usize::MAX` bytes long).
pub proof fn law_body_within_limit(chunks: Seq<nat>, limit: usize)
    requires
        total_len(chunks) <= usize::MAX,
        forall|i: int|
            0 <= i < chunks.len() ==> #[trigger] chunk_fits_spec(
                total_len(chunks.take(i)),
                chunks[i],
                limit as nat,
            ),
    ensures
        total_len(chunks) <= limit,
{
    if chunks.len() > 0 {
        let n = chunks.len() - 1;
        assert(chunks.take(n) =~= chunks.drop_last());
        assert(chunk_fits_spec(total_len(chunks.take(n)), chunks[n], limit as nat));
    }
}

pub fn chunk_fits(current: usize, chunk: usize, limit: usize) -> (r: bool)
    ensures
        r == chunk_fits_spec(current as nat, chunk as nat, limit as nat),
{
    let total = if current > usize::MAX - chunk {
        usize::MAX
    } else {
        current + chunk
    };
    total <= limit
}

/// The bytes of a list of chunks, one after the other.
pub open spec fn joined(chunks: Seq<Seq<u8>>) -> Seq<u8>
    decreases chunks.len(),
{
    if chunks.len() == 0 {
        Seq::empty()
    } else {
        chunks[0] + joined(chunks.drop_first())
    }
}

/// The number of bytes in a list of chunks.
pub open spec fn chunks_len(chunks: Seq<Seq<u8>>) -> nat
    decreases chunks.len(),
{
    if chunks.len() == 0 {
        0
    } else {
        chunks[0].len() + chunks_len(chunks.drop_first())
    }
}

/// A body read chunk by chunk after `kept` was read: each chunk is added
/// when it fits the limit; the read gives `Some` of the whole body when every
/// chunk fitted, and `None` (the body is too large) at the first that does
/// not.
pub open spec fn read_body(kept: Seq<u8>, chunks: Seq<Seq<u8>>, limit: nat) -> Option<Seq<u8>>
    decreases chunks.len(),
{
    if chunks.len() == 0 {
        Some(kept)
    } else if chunk_fits_spec(kept.len(), chunks[0].len(), limit) {
        read_body(kept + chunks[0], chunks.drop_first(), limit)
    } else {
        None
    }
}

/// What a read holds when it stops: the whole body, or what was kept before
/// the chunk that did not fit.
pub open spec fn read_kept(kept: Seq<u8>, chunks: Seq<Seq<u8>>, limit: nat) -> Seq<u8>
    decreases chunks.len(),
{
    if chunks.len() == 0 {
        kept
    } else if chunk_fits_spec(kept.len(), chunks[0].len(), limit) {
        read_kept(kept + chunks[0], chunks.drop_first(), limit)
    } else {
        kept
    }
}

/// One step of reading a response body: append `chunk` to `body` when it
/// fits `limit` and return `true`; otherwise leave `body` as it is and
/// return `false` (the body is too large).
pub fn read_step(body: &mut Vec<u8>, chunk: &[u8], limit: usize) -> (fits: bool)
    ensures
        fits == chunk_fits_spec(old(body)@.len(), chunk@.len(), limit as nat),
        final(body)@ == if fits {
            old(body)@ + chunk@
        } else {
            old(body)@
        },
{
    if chunk_fits(body.len(), chunk.len(), limit) {
        let ghost before = body@;
        let mut i: usize = 0;
        while i < chunk.len()
            invariant
                i <= chunk@.len(),
                body@ == before + chunk@.take(i as int),
            decreases chunk.len() - i,
        {
            body.push(chunk[i]);
            assert(chunk@.take(i + 1) =~= chunk@.take(i as int).push(chunk@[i as int]));
            i = i + 1;
        }
        assert(chunk@.take(chunk@.len() as int) =~= chunk@);
        true
    } else {
        false
    }
}

/// The body limit over a whole read that calls [`read_step`] on each chunk
/// and stops at the first that does not fit (a body in memory is at most
/// `usize::MAX` bytes long): when the body is within the limit the read
/// keeps all of it, byte for byte; when it is longer the read reports it too
/// large, and what it kept is never longer than the limit.
pub proof fn law_read_body(kept: Seq<u8>, chunks: Seq<Seq<u8>>, limit: usize)
    requires
        kept.len() <= limit,
        kept.len() + chunks_len(chunks) <= usize::MAX,
    ensures
        kept.len() + chunks_len(chunks) <= limit ==> read_body(kept, chunks, limit as nat) == Some(
            kept + joined(chunks),
        ),
        kept.len() + chunks_len(chunks) > limit ==> read_body(kept, chunks, limit as nat) is None,
        read_kept(kept, chunks, limit as nat).len() <= limit,
    decreases chunks.len(),
{
    if chunks.len() == 0 {
        assert(kept + joined(chunks) =~= kept);
    } else {
        let c = chunks[0];
        let rest = chunks.drop_first();
        if chunk_fits_spec(kept.len(), c.len(), limit as nat) {
            law_read_body(kept + c, rest, limit);
            assert(kept + c + joined(rest) =~= kept + joined(chunks));
        }
    }
}

/// Where the delay before a retry comes from, as the executors' tracing
/// records it: the server's `Retry-After` hint, or the backoff.
pub fn delay_source(error: &Error) -> (r: &'static str)
    ensures
        r@ == match api_view(*error) {
            Some(a) if a.retry_after is Some => "retry_after"@,
            _ => "backoff"@,
        },
{
    match error.retry_after() {
        Some(_) => "retry_after",
        None => "backoff",
    }
}

/// The kind of an error, as the executors' tracing records it.
pub fn error_kind(error: &Error) -> (r: &'static str)
    ensures
        r@ == match error {
            Error::Api(_) => "api"@,
            Error::Transport(_) => "transport"@,
            Error::RequestBuild => "request_build"@,
            Error::ResponseBodyTooLarge { .. } => "response_body_too_large"@,
            Error::Encode(_) => "encode"@,
            Error::Decode(_) => "decode"@,
            Error::Config(_) => "config"@,
        },
{
    match error {
        Error::Api(_) => "api",
        Error::Transport(_) => "transport",
        Error::RequestBuild => "request_build",
        Error::ResponseBodyTooLarge { .. } => "response_body_too_large",
        Error::Encode(_) => "encode",
        Error::Decode(_) => "decode",
        Error::Config(_) => "config",
    }
}

} // verus!
