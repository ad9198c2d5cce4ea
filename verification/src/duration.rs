//! Durations of std, named by what they hold: how a `Duration` is made from
//! whole seconds and how much time it spans.
use vstd::prelude::*;

use std::time::Duration;

verus! {

/// The duration of `secs` whole seconds.
pub uninterp spec fn duration_from_secs(secs: u64) -> Duration;

/// The whole seconds a duration spans (its fractional second dropped).
pub uninterp spec fn duration_whole_seconds(d: Duration) -> u64;

/// The whole milliseconds a duration spans (its fractional millisecond
/// dropped).
pub uninterp spec fn duration_millis(d: Duration) -> u128;

/// `Duration::from_secs(secs)`: the duration of `secs` whole seconds, which
/// spans exactly `secs` seconds, that is `secs * 1000` milliseconds.
#[verifier::external_body]
pub(crate) fn secs_duration(secs: u64) -> (r: Duration)
    ensures
        r == duration_from_secs(secs),
        duration_whole_seconds(r) == secs,
        duration_millis(r) == secs * 1000,
{
    Duration::from_secs(secs)
}

/// `Duration::as_secs`: the whole seconds of `d`.
#[verifier::external_body]
pub(crate) fn whole_seconds(d: &Duration) -> (r: u64)
    ensures
        r == duration_whole_seconds(*d),
{
    d.as_secs()
}

/// `Duration::as_millis`: the whole milliseconds of `d`.
#[verifier::external_body]
pub(crate) fn whole_millis(d: &Duration) -> (r: u128)
    ensures
        r == duration_millis(*d),
{
    d.as_millis()
}

} // verus!
