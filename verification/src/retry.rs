//! Retry policy: a sans-IO description of when and how long to wait before
//! retrying a failed request. The executors own the actual sleeping.

use std::collections::hash_map::RandomState;
use std::hash::BuildHasher;
use std::time::Duration;
use vstd::prelude::*;
use vstd::arithmetic::power2::{pow2, lemma_pow2_unfold, lemma_pow2_pos};

use crate::error::{api_view, Error};
use crate::text::{bool_text, dec, push_decimal, push_str};
use crate::time::{duration_debug, duration_debug_text, duration_from_nanos, duration_nanos,
    from_millis, from_secs, max_nanos, min_duration, nanos_of};

verus! {

/// Controls automatic retries of transient failures.
///
/// A request is retried only when [`Error::is_retryable`] holds and the
/// attempt budget is not spent. The delay before a retry is the server's
/// `Retry-After` hint when present, otherwise exponential backoff with
/// optional full jitter, in both cases capped at `max_delay`.
#[derive(Debug, Clone, Copy)]
pub struct RetryPolicy {
    /// Maximum number of retries after the initial attempt. `0` disables
    /// retrying. Defaults to `2` (so up to three total attempts).
    pub max_retries: u32,
    /// Base delay for exponential backoff. Defaults to 500ms.
    pub base_delay: Duration,
    /// Upper bound on any single delay. Defaults to 20s.
    pub max_delay: Duration,
    /// Apply full jitter (a random value in `[0, computed]`) to backoff
    /// delays. Does not affect `Retry-After` delays. Defaults to `true`.
    pub jitter: bool,
}

/// The `Debug` text of a policy, field by field as `#[derive(Debug)]`
/// prints it.
pub open spec fn retry_debug_text(p: RetryPolicy) -> Seq<char> {
    let head = "RetryPolicy { max_retries: "@ + dec(p.max_retries as nat);
    let delays = ", base_delay: "@ + duration_debug_text(p.base_delay) + ", max_delay: "@
        + duration_debug_text(p.max_delay);
    head + delays + ", jitter: "@ + bool_text(p.jitter) + " }"@
}

/// `2^n`, saturated at `u32::MAX` (`u32::saturating_pow(2, n)`).
pub open spec fn pow2_sat(n: nat) -> nat {
    if pow2(n) <= u32::MAX {
        pow2(n)
    } else {
        u32::MAX as nat
    }
}

/// The smaller of two numbers.
pub open spec fn min_nat(a: nat, b: nat) -> nat {
    if a <= b {
        a
    } else {
        b
    }
}

impl RetryPolicy {
    /// The backoff before the `n`-th retry (0-based), before jitter, in
    /// nanoseconds: `base_delay * 2^n`, saturated, capped at `max_delay`.
    pub open spec fn raw_backoff(self, n: nat) -> nat {
        min_nat(
            min_nat(duration_nanos(self.base_delay) * pow2_sat(n), max_nanos()),
            duration_nanos(self.max_delay),
        )
    }

    /// Whether a failure `err` after `retries_done` retries is retried.
    pub open spec fn retries(self, retries_done: nat, err: Error) -> bool {
        retries_done < self.max_retries && err.retryable()
    }

    /// The delays, in nanoseconds, that may come before the next retry: the
    /// capped `Retry-After` hint when the error has one, otherwise the
    /// backoff, or with jitter anything from zero up to the backoff.
    pub open spec fn allowed_delay(self, retries_done: nat, err: Error, d: nat) -> bool {
        match api_view(err) {
            Some(a) if a.retry_after is Some => d == min_nat(
                duration_nanos(a.retry_after->0),
                duration_nanos(self.max_delay),
            ),
            _ => if self.jitter {
                d <= self.raw_backoff(retries_done) && exists|nanos: u32, seed: u32|
                    nanos < 1000000000 && d == jittered_nanos(
                        self.raw_backoff(retries_done),
                        jitter_from(nanos, seed),
                    )
            } else {
                d == self.raw_backoff(retries_done)
            },
        }
    }
}

impl Default for RetryPolicy {
    fn default() -> (r: Self)
        ensures
            r.max_retries == 2,
            duration_nanos(r.base_delay) == 500000000,
            duration_nanos(r.max_delay) == 20000000000,
            r.jitter,
    {
        RetryPolicy {
            max_retries: 2,
            base_delay: from_millis(500),
            max_delay: from_secs(20),
            jitter: true,
        }
    }
}

/// `u32::saturating_pow(2, n)`.
fn pow2_saturating(n: u32) -> (r: u32)
    ensures
        r == pow2_sat(n as nat),
{
    let mut f: u32 = 1;
    let mut i: u32 = 0;
    proof {
        vstd::arithmetic::power2::lemma2_to64();
    }
    while i < n && f < u32::MAX
        invariant
            i <= n,
            f == pow2_sat(i as nat),
        decreases n - i,
    {
        proof {
            lemma_pow2_unfold((i + 1) as nat);
            lemma_pow2_pos(i as nat);
        }
        if f > u32::MAX / 2 {
            f = u32::MAX;
        } else {
            f = f * 2;
        }
        i = i + 1;
    }
    proof {
        if i < n {
            lemma_pow2_sat_stays_max(i as nat, n as nat);
        }
    }
    f
}

proof fn lemma_pow2_sat_stays_max(i: nat, n: nat)
    requires
        i <= n,
        pow2_sat(i) == u32::MAX,
    ensures
        pow2_sat(n) == u32::MAX,
    decreases n - i,
{
    if i < n {
        lemma_pow2_unfold(i + 1);
        lemma_pow2_pos(i);
        lemma_pow2_sat_stays_max(i + 1, n);
    }
}

#[verifier::external_type_specification]
#[verifier::external_body]
pub struct ExSystemTime(std::time::SystemTime);

/// `SystemTime::now`: the current wall-clock time; nothing is promised of it.
#[verifier::external_body]
fn system_now() -> std::time::SystemTime {
    std::time::SystemTime::now()
}

/// `SystemTime::duration_since(UNIX_EPOCH)`: the time elapsed since the Unix
/// epoch, or `None` when the clock reads before it.
#[verifier::external_body]
fn since_epoch(t: &std::time::SystemTime) -> Option<Duration> {
    t.duration_since(std::time::UNIX_EPOCH).ok()
}

/// The sub-second nanoseconds of the system clock (0 when the clock reads
/// before the Unix epoch).
fn clock_subsec_nanos() -> (n: u32)
    ensures
        n < 1000000000,
{
    match since_epoch(&system_now()) {
        Some(d) => (nanos_of(&d) % 1000000000) as u32,
        None => 0,
    }
}

/// `RandomState::new`: a hash builder with fresh random keys; nothing is
/// promised of them.
#[verifier::external_body]
fn random_state() -> RandomState {
    RandomState::new()
}

/// `BuildHasher::hash_one` of a fixed byte under `s`; nothing is promised of
/// the value, which depends on the state's random keys.
#[verifier::external_body]
fn keyed_hash(s: &RandomState) -> u64 {
    s.hash_one(0u8)
}

/// A per-call seed from a freshly keyed `RandomState`.
fn fresh_seed() -> u32 {
    let h = keyed_hash(&random_state());
    (h % 4294967296) as u32
}

/// A delay of `raw` nanoseconds scaled by a jitter fraction given in
/// millionths, rounded down.
pub open spec fn jittered_nanos(raw: nat, frac: u32) -> nat {
    raw * (frac as nat) / 1000000
}

/// The jittered delay: `raw` nanoseconds scaled by the fraction `frac`
/// millionths (below one), rounded down to whole nanoseconds.
pub fn jittered(raw: u128, frac: u32) -> (d: Duration)
    requires
        raw <= max_nanos(),
        frac < 1000000,
    ensures
        duration_nanos(d) == jittered_nanos(raw as nat, frac),
        duration_nanos(d) <= raw,
{
    let f = frac as u128;
    assert(raw * f <= raw * 1000000) by (nonlinear_arith)
        requires
            f < 1000000,
    ;
    assert(raw * f / 1000000 <= raw) by (nonlinear_arith)
        requires
            raw * f <= raw * 1000000,
    ;
    assert(raw * 1000000 <= max_nanos() * 1000000) by (nonlinear_arith)
        requires
            raw <= max_nanos(),
    ;
    duration_from_nanos(raw * f / 1000000)
}

/// The xorshift scramble (shifts 13, 17, 5) of a 32-bit word.
pub open spec fn xorshift32(x: u32) -> u32 {
    let a = x ^ (x << 13u32);
    let b = a ^ (a >> 17u32);
    b ^ (b << 5u32)
}

/// The jitter fraction, in millionths, drawn from sub-second clock
/// nanoseconds `nanos` and a seed: the scramble of `(nanos ^ seed) | 1`,
/// reduced modulo 10^6.
pub open spec fn jitter_from(nanos: u32, seed: u32) -> u32 {
    (xorshift32((nanos ^ seed) | 1) % 1000000) as u32
}

/// A pseudo-random fraction in millionths, in `[0, 10^6)`, from the clock and
/// a fresh seed. Jitter only needs to de-correlate concurrent retriers.
fn jitter_millionths() -> (f: u32)
    ensures
        f < 1000000,
        exists|nanos: u32, seed: u32| nanos < 1000000000 && f == jitter_from(nanos, seed),
{
    let nanos = clock_subsec_nanos();
    let seed = fresh_seed();
    let mut x: u32 = (nanos ^ seed) | 1;
    x = x ^ (x << 13u32);
    x = x ^ (x >> 17u32);
    x = x ^ (x << 5u32);
    let f = x % 1000000;
    assert(f == jitter_from(nanos, seed));
    f
}

impl RetryPolicy {
    /// A policy that performs no retries.
    pub fn none() -> (r: Self)
        ensures
            r.max_retries == 0,
            duration_nanos(r.base_delay) == 500000000,
            duration_nanos(r.max_delay) == 20000000000,
            r.jitter,
    {
        RetryPolicy { max_retries: 0, ..Self::default() }
    }

    /// Set the maximum number of retries after the initial attempt.
    pub fn with_max_retries(self, max_retries: u32) -> (r: Self)
        ensures
            r == (RetryPolicy { max_retries, ..self }),
    {
        RetryPolicy { max_retries, ..self }
    }

    /// Set the base backoff delay.
    pub fn with_base_delay(self, base_delay: Duration) -> (r: Self)
        ensures
            r == (RetryPolicy { base_delay, ..self }),
    {
        RetryPolicy { base_delay, ..self }
    }

    /// Set the per-delay ceiling.
    pub fn with_max_delay(self, max_delay: Duration) -> (r: Self)
        ensures
            r == (RetryPolicy { max_delay, ..self }),
    {
        RetryPolicy { max_delay, ..self }
    }

    /// The `Debug` text of this policy (see [`retry_debug_text`]).
    pub fn debug_string(&self) -> (r: String)
        ensures
            r@ == retry_debug_text(*self),
    {
        let mut s = "RetryPolicy { max_retries: ".to_owned();
        push_decimal(&mut s, self.max_retries as u64);
        push_str(&mut s, ", base_delay: ");
        let base = duration_debug(&self.base_delay);
        push_str(&mut s, base.as_str());
        push_str(&mut s, ", max_delay: ");
        let max = duration_debug(&self.max_delay);
        push_str(&mut s, max.as_str());
        push_str(&mut s, ", jitter: ");
        if self.jitter {
            push_str(&mut s, "true");
        } else {
            push_str(&mut s, "false");
        }
        push_str(&mut s, " }");
        s
    }

    /// Enable or disable full jitter on backoff delays.
    pub fn with_jitter(self, jitter: bool) -> (r: Self)
        ensures
            r == (RetryPolicy { jitter, ..self }),
    {
        RetryPolicy { jitter, ..self }
    }

    /// Whether a request that produced `err` should be retried, given that
    /// `retries_done` retries have already happened.
    pub fn should_retry(&self, retries_done: u32, err: &Error) -> (r: bool)
        ensures
            r == self.retries(retries_done as nat, *err),
    {
        retries_done < self.max_retries && err.is_retryable()
    }

    /// The delay before the next retry: the `Retry-After` hint when present
    /// (capped at `max_delay`), otherwise the jittered exponential backoff.
    /// `retries_done` is the number of retries already performed.
    pub fn delay_for(&self, retries_done: u32, err: &Error) -> (d: Duration)
        ensures
            self.allowed_delay(retries_done as nat, *err, duration_nanos(d)),
            duration_nanos(d) <= duration_nanos(self.max_delay),
    {
        match err.retry_after() {
            Some(hint) => min_duration(hint, self.max_delay),
            None => self.backoff(retries_done),
        }
    }

    /// Exponential backoff for the `n`-th retry (0-based), with optional
    /// jitter.
    fn backoff(&self, n: u32) -> (d: Duration)
        ensures
            if self.jitter {
                duration_nanos(d) <= self.raw_backoff(n as nat) && exists|nanos: u32, seed: u32|
                    nanos < 1000000000 && duration_nanos(d) == jittered_nanos(
                        self.raw_backoff(n as nat),
                        jitter_from(nanos, seed),
                    )
            } else {
                duration_nanos(d) == self.raw_backoff(n as nat)
            },
            self.raw_backoff(n as nat) <= duration_nanos(self.max_delay),
    {
        let factor = pow2_saturating(n) as u128;
        let base = nanos_of(&self.base_delay);
        let cap = nanos_of(&self.max_delay);
        let max_total: u128 = 18446744073709551615u128 * 1000000000u128 + 999999999u128;
        assert(base * factor <= max_total * 4294967295) by (nonlinear_arith)
            requires
                base <= max_total,
                factor <= 4294967295,
        ;
        let product = base * factor;
        let saturated = if product <= max_total { product } else { max_total };
        let raw = if saturated <= cap { saturated } else { cap };
        if self.jitter {
            let frac = jitter_millionths();
            let d = jittered(raw, frac);
            proof {
                let (nanos, seed) = choose|nanos: u32, seed: u32|
                    nanos < 1000000000 && frac == jitter_from(nanos, seed);
                assert(nanos < 1000000000 && duration_nanos(d) == jittered_nanos(
                    raw as nat,
                    jitter_from(nanos, seed),
                ));
            }
            d
        } else {
            duration_from_nanos(raw)
        }
    }
}

} // verus!

verus! {

/// `2^n` saturated at `u32::MAX` never shrinks as `n` grows.
proof fn lemma_pow2_sat_monotone(n: nat)
    ensures
        pow2_sat(n) <= pow2_sat(n + 1),
{
    lemma_pow2_unfold(n + 1);
    lemma_pow2_pos(n);
}

/// The backoff before a retry is never shorter than the one before the
/// previous retry, and never longer than `max_delay`.
pub proof fn law_backoff_grows(policy: RetryPolicy, n: nat)
    ensures
        policy.raw_backoff(n) <= policy.raw_backoff(n + 1),
        policy.raw_backoff(n) <= duration_nanos(policy.max_delay),
{
    lemma_pow2_sat_monotone(n);
    let b = duration_nanos(policy.base_delay);
    assert(b * pow2_sat(n) <= b * pow2_sat(n + 1)) by (nonlinear_arith)
        requires
            pow2_sat(n) <= pow2_sat(n + 1),
    ;
}

} // verus!
