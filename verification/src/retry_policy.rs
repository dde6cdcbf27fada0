//! Retry policy: how long to wait before the next attempt (a server's
//! `Retry-After`, or exponential backoff), and the decision the transport
//! loop takes after every attempt.

use std::time::Duration;
use vstd::prelude::*;

use crate::duration::{duration_nanos, max_duration_nanos, nanos_per_sec};
use crate::text::{parse_i64, parsed_integer};

verus! {

/// Largest honored retry delay, in whole seconds: a server-supplied
/// `Retry-After` is capped here so a malicious or buggy server can't pin a
/// client for hours.
pub const RETRY_AFTER_CAP_SECS: u64 = 30;

/// `RETRY_AFTER_CAP_SECS` in nanoseconds.
pub open spec fn retry_after_cap_nanos() -> nat {
    RETRY_AFTER_CAP_SECS as nat * nanos_per_sec()
}

/// Seconds since the UNIX epoch of the HTTP-date `text` (IMF-fixdate,
/// RFC 850 or asctime form), as `httpdate::parse_http_date` reads it, or
/// `None` where it reports an error.
pub uninterp spec fn http_date_seconds(text: Seq<char>) -> Option<u64>;

/// `httpdate::parse_http_date`, with the resulting time taken as whole
/// seconds since the UNIX epoch (the crate only yields times at or after the
/// epoch, in whole seconds).
#[verifier::external_body]
fn parse_http_date_seconds(text: &str) -> (r: Option<u64>)
    ensures
        r == http_date_seconds(text@),
{
    match httpdate::parse_http_date(text) {
        Ok(t) => match t.duration_since(std::time::UNIX_EPOCH) {
            Ok(d) => Some(d.as_secs()),
            Err(_) => None,
        },
        Err(_) => None,
    }
}

/// The current wall-clock time (`SystemTime::now`) in nanoseconds since the
/// UNIX epoch, or `0` if the clock reads earlier than the epoch. Nothing is
/// promised of the value: it is whatever the clock says.
#[verifier::external_body]
fn now_unix_nanos() -> u128 {
    match std::time::SystemTime::now().duration_since(std::time::UNIX_EPOCH) {
        Ok(d) => d.as_nanos(),
        Err(_) => 0,
    }
}

/// Delay, in nanoseconds, for a `Retry-After` integer of `secs` seconds:
/// negative values count as zero, and the cap applies.
pub open spec fn retry_after_secs_nanos(secs: int) -> nat {
    if secs <= 0 {
        0
    } else if secs >= RETRY_AFTER_CAP_SECS {
        retry_after_cap_nanos()
    } else {
        secs as nat * nanos_per_sec()
    }
}

/// Delay, in nanoseconds, until an HTTP-date `when_secs` seen at time
/// `now_nanos`: zero for a date in the past, capped at the maximum.
pub open spec fn retry_after_date_nanos(when_secs: nat, now_nanos: nat) -> nat {
    let when = when_secs * nanos_per_sec();
    if when <= now_nanos {
        0
    } else if when - now_nanos >= retry_after_cap_nanos() {
        retry_after_cap_nanos()
    } else {
        (when - now_nanos) as nat
    }
}

/// What `parse_retry_after(text)` may return when the clock reads some time:
/// `None` for empty text; for an integer, its clamped delay; otherwise for
/// an HTTP-date, the capped delay until that date from some reading of the
/// clock; `None` for anything else.
pub open spec fn retry_after_result(text: Seq<char>, r: Option<Duration>) -> bool {
    if text.len() == 0 {
        r is None
    } else if let Some(secs) = parsed_integer(text, true, i64::MIN as int, i64::MAX as int) {
        r matches Some(d) && duration_nanos(d) == retry_after_secs_nanos(secs)
    } else if let Some(when) = http_date_seconds(text) {
        r matches Some(d) && exists|now: nat| duration_nanos(d) == retry_after_date_nanos(when as nat, now)
    } else {
        r is None
    }
}

/// The delay until the HTTP-date `when_secs` (seconds since the epoch) as
/// seen at `now_nanos` (nanoseconds since the epoch): zero when the date is
/// not in the future, and never more than the cap.
pub fn retry_after_from_date(when_secs: u64, now_nanos: u128) -> (d: Duration)
    ensures
        duration_nanos(d) == retry_after_date_nanos(when_secs as nat, now_nanos as nat),
{
    let when: u128 = when_secs as u128 * 1_000_000_000u128;
    let cap: u128 = RETRY_AFTER_CAP_SECS as u128 * 1_000_000_000u128;
    if when <= now_nanos {
        Duration::from_nanos(0)
    } else if when - now_nanos >= cap {
        Duration::from_nanos(cap as u64)
    } else {
        let delta = when - now_nanos;
        Duration::from_nanos(delta as u64)
    }
}

/// The delay for a `Retry-After` integer of `secs` seconds: clamped below at
/// zero and above at the cap.
pub fn retry_after_from_secs(secs: i64) -> (d: Duration)
    ensures
        duration_nanos(d) == retry_after_secs_nanos(secs as int),
{
    if secs <= 0 {
        Duration::from_secs(0)
    } else if secs >= RETRY_AFTER_CAP_SECS as i64 {
        Duration::from_secs(RETRY_AFTER_CAP_SECS)
    } else {
        Duration::from_secs(secs as u64)
    }
}

/// The delay, in nanoseconds, that a `Retry-After` header value `text`
/// asks for when the clock reads `now_nanos` (nanoseconds since the UNIX
/// epoch): `None` for empty text; for an integer, its clamped delay; for an
/// HTTP-date, the capped delay until that date; `None` for anything else.
pub open spec fn retry_after_at(text: Seq<char>, now_nanos: nat) -> Option<nat> {
    if text.len() == 0 {
        None
    } else if let Some(secs) = parsed_integer(text, true, i64::MIN as int, i64::MAX as int) {
        Some(retry_after_secs_nanos(secs))
    } else if let Some(when) = http_date_seconds(text) {
        Some(retry_after_date_nanos(when as nat, now_nanos))
    } else {
        None
    }
}

/// Parse the `Retry-After` response header as seen when the clock reads
/// `now_nanos` nanoseconds since the UNIX epoch. Accepts either an integer
/// number of seconds or an HTTP-date; returns the delay, capped at 30 s, or
/// `None` for empty or unparseable inputs. Past dates yield a zero delay.
pub fn parse_retry_after_at(header_value: &str, now_nanos: u128) -> (r: Option<Duration>)
    ensures
        match retry_after_at(header_value@, now_nanos as nat) {
            Some(n) => r matches Some(d) && duration_nanos(d) == n,
            None => r is None,
        },
        r matches Some(d) ==> duration_nanos(d) <= retry_after_cap_nanos(),
{
    if header_value.is_empty() {
        return None;
    }
    if let Some(secs) = parse_i64(header_value) {
        return Some(retry_after_from_secs(secs));
    }
    match parse_http_date_seconds(header_value) {
        Some(when) => Some(retry_after_from_date(when, now_nanos)),
        None => None,
    }
}

/// Parse the `Retry-After` response header. Accepts either an integer number
/// of seconds or an HTTP-date, the latter measured against the current time.
/// Returns the delay, capped at 30 s. Returns `None` for empty or
/// unparseable inputs. Past dates yield a zero delay.
pub fn parse_retry_after(header_value: &str) -> (r: Option<Duration>)
    ensures
        retry_after_result(header_value@, r),
        r matches Some(d) ==> duration_nanos(d) <= retry_after_cap_nanos(),
{
    let now = now_unix_nanos();
    let r = parse_retry_after_at(header_value, now);
    proof {
        if r is Some && parsed_integer(header_value@, true, i64::MIN as int, i64::MAX as int) is None {
            let when = http_date_seconds(header_value@)->0;
            assert(duration_nanos(r->0) == retry_after_date_nanos(when as nat, now as nat));
        }
    }
    r
}

/// `2^e`.
pub open spec fn two_to_the(e: nat) -> nat
    decreases e,
{
    if e == 0 {
        1
    } else {
        2 * two_to_the((e - 1) as nat)
    }
}

/// `2u32.saturating_pow(e)`: `2^e` while it fits in a `u32`, else `u32::MAX`.
pub open spec fn saturating_pow2(e: nat) -> nat {
    if e < 32 {
        two_to_the(e)
    } else {
        u32::MAX as nat
    }
}

proof fn lemma_two_to_the_adds(a: nat, b: nat)
    ensures
        two_to_the(a) * two_to_the(b) == two_to_the(a + b),
    decreases a,
{
    if a == 0 {
        assert(two_to_the(0) == 1);
    } else {
        let p: nat = (a - 1) as nat;
        lemma_two_to_the_adds(p, b);
        assert(a + b == (p + b) + 1);
        assert(two_to_the(a + b) == 2 * two_to_the(p + b));
        assert(two_to_the(a) == 2 * two_to_the(p));
        let x = two_to_the(p);
        let y = two_to_the(b);
        assert((2 * x) * y == 2 * (x * y)) by (nonlinear_arith);
    }
}

proof fn lemma_two_to_the_positive(e: nat)
    ensures
        two_to_the(e) >= 1,
    decreases e,
{
    if e > 0 {
        lemma_two_to_the_positive((e - 1) as nat);
    }
}

proof fn lemma_two_to_the_fits_u32(e: nat)
    requires
        e < 32,
    ensures
        two_to_the(e) <= 0x8000_0000,
{
    reveal_with_fuel(two_to_the, 32);
    assert(two_to_the(31) == 0x8000_0000);
    lemma_two_to_the_adds(e, (31 - e) as nat);
    lemma_two_to_the_positive((31 - e) as nat);
    assert(two_to_the(e) <= two_to_the(e) * two_to_the((31 - e) as nat)) by (nonlinear_arith)
        requires two_to_the((31 - e) as nat) >= 1;
}

/// `2u32.saturating_pow(e)`.
fn pow2_saturating(e: u32) -> (r: u32)
    ensures
        r == saturating_pow2(e as nat),
{
    if e >= 32 {
        return u32::MAX;
    }
    let mut r: u32 = 1;
    let mut i: u32 = 0;
    while i < e
        invariant
            i <= e,
            e < 32,
            r == two_to_the(i as nat),
        decreases e - i,
    {
        proof {
            lemma_two_to_the_fits_u32((i + 1) as nat);
        }
        r = r * 2;
        i = i + 1;
    }
    r
}

/// Length, in nanoseconds, of the un-jittered backoff before 1-based retry
/// `attempt`: `base * 2^(attempt - 1)` (the exponent saturating like
/// `u32::saturating_pow`), saturating at `Duration::MAX`.
pub open spec fn exponential_backoff_nanos(attempt: nat, base_nanos: nat) -> nat {
    let factor = saturating_pow2(if attempt == 0 { 0 } else { (attempt - 1) as nat });
    if base_nanos * factor <= max_duration_nanos() {
        base_nanos * factor
    } else {
        max_duration_nanos()
    }
}

/// The un-jittered backoff before retry `attempt` (1-based: `1` is the
/// first retry): `base_delay * 2^(attempt - 1)`, saturating.
pub fn exponential_backoff(attempt: u32, base_delay: Duration) -> (d: Duration)
    ensures
        duration_nanos(d) == exponential_backoff_nanos(attempt as nat, duration_nanos(base_delay)),
{
    let exp = if attempt == 0 { 0 } else { attempt - 1 };
    let factor = pow2_saturating(exp);
    base_delay.saturating_mul(factor)
}

proof fn lemma_two_to_the_step(e: nat)
    ensures
        two_to_the(e + 1) == 2 * two_to_the(e),
{
    assert(two_to_the(e + 1) == 2 * two_to_the(((e + 1) - 1) as nat));
}

/// Before jitter, each retry waits at least as long as the one before it:
/// the wait doubles from one retry to the next until it saturates, and the
/// first retry waits exactly the base delay.
pub proof fn lemma_backoff_never_shrinks(attempt: nat, base_nanos: nat)
    requires
        attempt >= 1,
        base_nanos <= max_duration_nanos(),
    ensures
        exponential_backoff_nanos(attempt, base_nanos) <= exponential_backoff_nanos(attempt + 1, base_nanos),
        exponential_backoff_nanos(1, base_nanos) == base_nanos,
        attempt < 32 && base_nanos * two_to_the(attempt) <= max_duration_nanos()
            ==> exponential_backoff_nanos(attempt + 1, base_nanos) == 2 * exponential_backoff_nanos(attempt, base_nanos),
{
    let e: nat = (attempt - 1) as nat;
    assert(two_to_the(0) == 1);
    assert(base_nanos * 1 == base_nanos);
    let f1 = saturating_pow2(e);
    let f2 = saturating_pow2(e + 1);
    assert(((attempt + 1) - 1) as nat == e + 1);
    if e + 1 < 32 {
        lemma_two_to_the_step(e);
        assert(f2 == 2 * f1);
    } else if e < 32 {
        assert(e == 31);
        reveal_with_fuel(two_to_the, 32);
        assert(f1 == 0x8000_0000);
        assert(f2 == u32::MAX as nat);
    } else {
        assert(f1 == f2);
    }
    assert(f1 <= f2);
    assert(base_nanos * f1 <= base_nanos * f2) by (nonlinear_arith)
        requires f1 <= f2;
    if attempt < 32 && base_nanos * two_to_the(attempt) <= max_duration_nanos() {
        assert(f2 == two_to_the(attempt));
        assert(base_nanos * f2 == 2 * (base_nanos * f1)) by (nonlinear_arith)
            requires f2 == 2 * f1;
    }
}

/// How long to wait before a retry.
#[derive(Debug, Clone, Copy, PartialEq, Eq)]
pub enum BackoffPlan {
    /// Wait exactly this long: the server said so (`Retry-After`); no jitter.
    Exact(Duration),
    /// Wait this long scaled by a jitter factor drawn uniformly from
    /// `[0.5, 1.5)`.
    Jittered(Duration),
}

/// The plan before 1-based retry `attempt`: a server-supplied `retry_after`
/// is used verbatim; otherwise exponential backoff from `base_delay`, to be
/// jittered.
pub fn plan_backoff(attempt: u32, base_delay: Duration, retry_after: Option<Duration>) -> (p: BackoffPlan)
    ensures
        match retry_after {
            Some(d) => p == BackoffPlan::Exact(d),
            None => p matches BackoffPlan::Jittered(b)
                && duration_nanos(b) == exponential_backoff_nanos(attempt as nat, duration_nanos(base_delay)),
        },
{
    match retry_after {
        Some(d) => BackoffPlan::Exact(d),
        None => BackoffPlan::Jittered(exponential_backoff(attempt, base_delay)),
    }
}

} // verus!
