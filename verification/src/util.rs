//! Exponential backoff with jitter.

use vstd::prelude::*;

use std::time::Duration;

use rand::Rng;

use crate::error::EngineError;
use crate::time::{duration_as_millis, duration_from_millis, duration_millis};

verus! {

/// Two to the power `k`.
pub open spec fn two_to(k: nat) -> nat
    decreases k,
{
    if k == 0 { 1 } else { 2 * two_to((k - 1) as nat) }
}

/// `two_to` grows with its exponent.
pub proof fn lemma_two_to_mono(i: nat, j: nat)
    requires
        i <= j,
    ensures
        two_to(i) <= two_to(j),
    decreases j,
{
    if i < j {
        lemma_two_to_mono(i, (j - 1) as nat);
    }
}

/// The exponent that the backoff uses for a retry attempt: the attempt
/// number, at most ten.
pub open spec fn backoff_exponent(attempt: u32) -> nat {
    if attempt < 10 { attempt as nat } else { 10 }
}

/// The upper end of the jitter window for a retry attempt, in milliseconds:
/// `base_ms * 2^min(attempt, 10)`, saturated at `u64::MAX`, then capped at
/// `max_ms`.
pub open spec fn backoff_cap(base_ms: u64, max_ms: u64, attempt: u32) -> int {
    let exp = base_ms * two_to(backoff_exponent(attempt));
    let sat = if exp > u64::MAX { u64::MAX as int } else { exp };
    if sat < max_ms { sat } else { max_ms as int }
}

/// The upper end of the jitter window for a retry attempt, in milliseconds.
pub fn backoff_cap_millis(base_ms: u64, max_ms: u64, attempt: u32) -> (r: u64)
    ensures
        r == backoff_cap(base_ms, max_ms, attempt),
        r <= max_ms,
{
    let k: u32 = if attempt < 10 { attempt } else { 10 };
    let mut factor: u64 = 1;
    let mut i: u32 = 0;
    while i < k
        invariant
            i <= k <= 10,
            k == backoff_exponent(attempt),
            factor == two_to(i as nat),
        decreases k - i,
    {
        proof {
            lemma_two_to_mono(i as nat, 9);
            reveal_with_fuel(two_to, 10);
        }
        factor = factor * 2;
        i = i + 1;
    }
    let exp: u64 = match base_ms.checked_mul(factor) {
        Some(v) => v,
        None => u64::MAX,
    };
    if exp < max_ms {
        exp
    } else {
        max_ms
    }
}

/// Trusted: draws a number uniformly from `0..=hi` with `rand`'s thread-local
/// generator (`Rng::gen_range` on an inclusive range, which is never empty
/// here). The draw is random: only its range is claimed.
#[verifier::external_body]
fn random_at_most(hi: u64) -> (r: u64)
    ensures
        r <= hi,
{
    rand::thread_rng().gen_range(0..=hi)
}

/// The delay before retry attempt `attempt`: a random number of milliseconds
/// between zero and `backoff_cap` of the base and maximum delays (each taken
/// in whole milliseconds, truncated to 64 bits).
pub fn retry_delay(base: Duration, max: Duration, attempt: u32) -> (d: Duration)
    ensures
        duration_millis(d) <= backoff_cap(
            duration_millis(base) as u64,
            duration_millis(max) as u64,
            attempt,
        ),
        duration_millis(max) <= u64::MAX ==> duration_millis(d) <= duration_millis(max),
{
    let base_ms = duration_as_millis(&base) as u64;
    let max_ms = duration_as_millis(&max) as u64;
    let capped = backoff_cap_millis(base_ms, max_ms, attempt);
    let jitter = random_at_most(capped);
    duration_from_millis(jitter)
}

/// The instant written as `text` in RFC 3339, as chrono's
/// `DateTime::parse_from_rfc3339` reads it, written again in UTC by
/// `to_rfc3339`; none where it does not parse.
pub uninterp spec fn rfc3339_utc(text: Seq<char>) -> Option<Seq<char>>;

/// The text of chrono's error for `text` that does not parse.
pub uninterp spec fn rfc3339_error(text: Seq<char>) -> Seq<char>;

/// Trusted: `chrono::DateTime::parse_from_rfc3339(s)` moved to UTC and
/// written with `to_rfc3339`, or the parse error's `to_string()`; both are
/// named.
#[verifier::external_body]
fn utc_from_rfc3339(s: &str) -> (r: Result<String, String>)
    ensures
        match r {
            Ok(u) => rfc3339_utc(s@) == Some(u@),
            Err(e) => rfc3339_utc(s@) is None && e@ == rfc3339_error(s@),
        },
{
    match chrono::DateTime::parse_from_rfc3339(s) {
        Ok(dt) => Ok(dt.with_timezone(&chrono::Utc).to_rfc3339()),
        Err(e) => Err(e.to_string()),
    }
}

/// A stored timestamp read back as UTC: `InvalidState` with chrono's
/// message where it is no RFC 3339 text.
pub fn parse_utc(s: &str) -> (r: Result<String, EngineError>)
    ensures
        match rfc3339_utc(s@) {
            Some(t) => (r matches Ok(u) && u@ == t),
            None => (r matches Err(EngineError::InvalidState(m)) && m@ == "invalid timestamp: "@ + rfc3339_error(s@)),
        },
{
    match utc_from_rfc3339(s) {
        Ok(u) => Ok(u),
        Err(e) => Err(EngineError::InvalidState(String::from_str("invalid timestamp: ").concat(e.as_str()))),
    }
}

} // verus!
