//! Access to the system clock.

use vstd::prelude::*;

verus! {

/// Declared so that a clock that reads before the Unix epoch can be
/// reported (`std::time::SystemTimeError`).
#[verifier::external_type_specification]
#[verifier::external_body]
pub struct ExSystemTimeError(std::time::SystemTimeError);

/// The time elapsed since the Unix epoch by the system clock, from
/// `std::time::UNIX_EPOCH.elapsed()`; an error when the clock reads before
/// the epoch.
///
/// The value depends on the moment of the call, so nothing is stated of it.
#[verifier::external_body]
fn epoch_elapsed() -> (r: Result<core::time::Duration, std::time::SystemTimeError>) {
    std::time::UNIX_EPOCH.elapsed()
}

/// How far the clock reads before the epoch, from
/// `std::time::SystemTimeError::duration`.
///
/// Nothing is stated of it: the error comes from the clock.
#[verifier::external_body]
fn time_error_gap(e: &std::time::SystemTimeError) -> (d: core::time::Duration) {
    e.duration()
}

/// The whole nanoseconds of a duration, from `Duration::as_nanos`.
///
/// Nothing is stated of it: the durations here come from the clock.
#[verifier::external_body]
fn duration_nanos(d: &core::time::Duration) -> (n: u128) {
    d.as_nanos()
}

/// A count of nanoseconds after the epoch as an `i128`, at most `i128::MAX`.
fn nanos_after_epoch(n: u128) -> (t: i128)
    ensures
        t == if n <= i128::MAX as u128 { n as int } else { i128::MAX as int },
{
    if n <= i128::MAX as u128 {
        n as i128
    } else {
        i128::MAX
    }
}

/// A count of nanoseconds before the epoch as a negative `i128`, at least
/// `-i128::MAX`.
fn nanos_before_epoch(n: u128) -> (t: i128)
    ensures
        t == if n <= i128::MAX as u128 { -(n as int) } else { -(i128::MAX as int) },
{
    if n <= i128::MAX as u128 {
        0i128 - (n as i128)
    } else {
        0i128 - i128::MAX
    }
}

/// The current time in nanoseconds since the Unix epoch by the system
/// clock, at the clock's full precision: negative when the clock reads
/// before the epoch. Reading the clock never fails.
///
/// The value depends on the moment of the call, so nothing is stated of it.
pub(crate) fn now_nanos() -> (t: i128) {
    match epoch_elapsed() {
        Ok(d) => nanos_after_epoch(duration_nanos(&d)),
        Err(e) => {
            let gap = time_error_gap(&e);
            nanos_before_epoch(duration_nanos(&gap))
        },
    }
}

} // verus!
