//! The system clock, read in whole seconds since the Unix epoch.

use vstd::prelude::*;

verus! {

#[verifier::external_type_specification]
#[verifier::external_body]
pub struct ExSystemTime(std::time::SystemTime);

#[verifier::external_type_specification]
#[verifier::external_body]
pub struct ExSystemTimeError(std::time::SystemTimeError);

/// `SystemTime::now`: the clock's current reading. Nothing is claimed of it: it depends
/// on the moment of the call.
#[verifier::external_body]
pub(crate) fn system_now() -> std::time::SystemTime {
    std::time::SystemTime::now()
}

/// `SystemTime::duration_since(UNIX_EPOCH)`: the time elapsed since the epoch, or an
/// error when the reading lies before it. Nothing is claimed of which comes back: it
/// depends on the reading, which Verus cannot see.
#[verifier::external_body]
pub(crate) fn duration_since_epoch(t: &std::time::SystemTime) -> Result<std::time::Duration, std::time::SystemTimeError> {
    t.duration_since(std::time::UNIX_EPOCH)
}

/// `Duration::as_secs`: the whole seconds of a duration. Nothing is claimed of the
/// value: a `Duration` is opaque to Verus.
#[verifier::external_body]
pub(crate) fn whole_seconds(d: &std::time::Duration) -> u64 {
    d.as_secs()
}

/// Seconds since the epoch as a signed count: the `u64` count taken as an `i64`,
/// wrapping past `i64::MAX` as a cast does.
pub fn signed_seconds(secs: u64) -> (r: i64)
    ensures
        secs <= i64::MAX ==> r == secs,
        secs > i64::MAX ==> r == secs - 0x1_0000_0000_0000_0000int,
{
    if secs <= i64::MAX as u64 {
        secs as i64
    } else {
        let below: u64 = secs - (i64::MAX as u64) - 1;
        i64::MIN + (below as i64)
    }
}

/// The signed count `signed_seconds` gives for `secs`.
pub open spec fn spec_signed_seconds(secs: u64) -> int {
    if secs <= i64::MAX { secs as int } else { secs - 0x1_0000_0000_0000_0000int }
}

/// The clock's reading in seconds since the epoch, given the whole seconds elapsed
/// since it (`None` when the reading lies before the epoch): their signed count, or
/// zero.
pub fn seconds_since_epoch(elapsed: Option<u64>) -> (r: i64)
    ensures
        r == match elapsed {
            Some(secs) => spec_signed_seconds(secs),
            None => 0,
        },
{
    match elapsed {
        Some(secs) => signed_seconds(secs),
        None => 0,
    }
}

} // verus!
