//! `Duration` arithmetic, carried out on whole nanoseconds.

use std::time::Duration;
use vstd::prelude::*;

use crate::text::push_str;

verus! {

/// What `Duration::as_nanos` returns for `d`: its length in nanoseconds.
pub uninterp spec fn duration_nanos(d: Duration) -> nat;

/// `Duration` is `Copy`; its `Clone` returns the same value.
pub assume_specification[ <Duration as Clone>::clone ](d: &Duration) -> (r: Duration)
    ensures
        r == *d,
;

/// The length of `Duration::MAX` in nanoseconds.
pub open spec fn max_nanos() -> nat {
    18446744073709551615 * 1000000000 + 999999999
}

/// `Duration::as_nanos`. A `Duration` holds at most `u64::MAX` whole seconds
/// and fewer than 10^9 further nanoseconds, so the total is at most
/// [`max_nanos`].
#[verifier::external_body]
pub(crate) fn nanos_of(d: &Duration) -> (n: u128)
    ensures
        n == duration_nanos(*d),
        n <= max_nanos(),
{
    d.as_nanos()
}

/// `Duration::new(secs, nanos)` for `nanos < 10^9`, which never carries into
/// the seconds and so never panics; its length is `secs * 10^9 + nanos`.
#[verifier::external_body]
pub(crate) fn duration_new(secs: u64, nanos: u32) -> (d: Duration)
    requires
        nanos < 1000000000,
    ensures
        duration_nanos(d) == secs * 1000000000 + nanos,
{
    Duration::new(secs, nanos)
}

/// The text that `Debug` prints for a `Duration` (such as `30s` or `1.5ms`).
pub uninterp spec fn duration_debug_text(d: Duration) -> Seq<char>;

/// `format!("{:?}", d)`: the `Debug` text of a duration, which depends on the
/// duration alone. Its digits and unit are not stated here.
#[verifier::external_body]
pub(crate) fn duration_debug(d: &Duration) -> (r: String)
    ensures
        r@ == duration_debug_text(*d),
{
    format!("{:?}", d)
}

/// The `Debug` text of an optional duration.
pub open spec fn option_duration_debug_text(t: Option<Duration>) -> Seq<char> {
    match t {
        Some(t) => "Some("@ + duration_debug_text(t) + ")"@,
        None => "None"@,
    }
}

/// The `Debug` text of an optional duration (see
/// [`option_duration_debug_text`]).
pub fn option_duration_debug(t: &Option<Duration>) -> (r: String)
    ensures
        r@ == option_duration_debug_text(*t),
{
    match t {
        Some(t) => {
            let mut s = "Some(".to_owned();
            let d = duration_debug(t);
            push_str(&mut s, d.as_str());
            push_str(&mut s, ")");
            s
        },
        None => "None".to_owned(),
    }
}

/// The `Duration` of `n` nanoseconds.
pub fn duration_from_nanos(n: u128) -> (d: Duration)
    requires
        n <= max_nanos(),
    ensures
        duration_nanos(d) == n,
{
    let secs = (n / 1000000000) as u64;
    let sub = (n % 1000000000) as u32;
    duration_new(secs, sub)
}

/// `Duration::from_secs`.
pub fn from_secs(secs: u64) -> (d: Duration)
    ensures
        duration_nanos(d) == secs * 1000000000,
{
    duration_new(secs, 0)
}

/// `Duration::from_millis`.
pub fn from_millis(ms: u64) -> (d: Duration)
    ensures
        duration_nanos(d) == ms * 1000000,
{
    duration_new(ms / 1000, ((ms % 1000) * 1000000) as u32)
}

/// The shorter of two durations (`Ord::min`).
pub fn min_duration(a: Duration, b: Duration) -> (d: Duration)
    ensures
        duration_nanos(d) == if duration_nanos(a) <= duration_nanos(b) {
            duration_nanos(a)
        } else {
            duration_nanos(b)
        },
{
    if nanos_of(&a) <= nanos_of(&b) {
        a
    } else {
        b
    }
}

/// A duration in whole milliseconds, saturated to `u64::MAX` (the value the
/// executors' tracing records).
pub fn duration_ms(d: &Duration) -> (ms: u64)
    ensures
        ms == if duration_nanos(*d) / 1000000 <= u64::MAX {
            duration_nanos(*d) / 1000000
        } else {
            u64::MAX as nat
        },
{
    let ms = nanos_of(d) / 1000000;
    if ms <= u64::MAX as u128 {
        ms as u64
    } else {
        u64::MAX
    }
}

} // verus!
