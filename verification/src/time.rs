//! Durations, as whole milliseconds.

use vstd::prelude::*;

use std::time::Duration;

verus! {

/// The whole milliseconds a duration holds, as `Duration::as_millis` reports.
pub uninterp spec fn duration_millis(d: Duration) -> nat;

/// Trusted: calls `Duration::from_millis`; claims that the duration holds
/// exactly `ms` milliseconds, as its documentation says.
#[verifier::external_body]
pub fn duration_from_millis(ms: u64) -> (d: Duration)
    ensures
        duration_millis(d) == ms,
{
    Duration::from_millis(ms)
}

/// Trusted: calls `Duration::from_secs`; claims that the duration holds
/// exactly `secs` seconds, as its documentation says.
#[verifier::external_body]
pub fn duration_from_secs(secs: u64) -> (d: Duration)
    ensures
        duration_millis(d) == secs * 1000,
{
    Duration::from_secs(secs)
}

/// Trusted: calls `Duration::as_millis`; its result is named `duration_millis`.
#[verifier::external_body]
pub fn duration_as_millis(d: &Duration) -> (ms: u128)
    ensures
        ms == duration_millis(*d),
{
    d.as_millis()
}

/// Trusted: `Duration`'s `clone`; claims that the copy equals the original
/// (`Duration` is `Copy`).
pub assume_specification[ <Duration as Clone>::clone ](d: &Duration) -> (r: Duration)
    ensures
        r == *d,
;

/// The `{:?}` text of a duration.
pub uninterp spec fn spec_duration_debug(d: Duration) -> Seq<char>;

/// Trusted: formats a duration with `{:?}`; its result is named `spec_duration_debug`.
#[verifier::external_body]
pub fn duration_debug(d: &Duration) -> (r: String)
    ensures
        r@ == spec_duration_debug(*d),
{
    format!("{:?}", d)
}

} // verus!
