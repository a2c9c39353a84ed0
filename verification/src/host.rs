//! The host's clock: what the standard library reports of the current instant.
//! Nothing in this file is proved; the rest of the library builds on what is
//! stated here.

use std::time::{Duration, SystemTime, SystemTimeError};
use vstd::prelude::*;

verus! {

/// `std::time::SystemTime`, carried as an opaque value.
#[verifier::external_type_specification]
#[verifier::external_body]
pub struct ExSystemTime(std::time::SystemTime);

/// `std::time::SystemTimeError`, carried as an opaque value.
#[verifier::external_type_specification]
#[verifier::external_body]
pub struct ExSystemTimeError(std::time::SystemTimeError);

/// `SystemTime::now` reads the host clock. Nothing is claimed of the reading.
pub assume_specification[ SystemTime::now ]() -> (now: SystemTime);

/// `SystemTime::duration_since`, measured from `UNIX_EPOCH`: the time elapsed
/// from the epoch to `instant`, or an error when `instant` lies before the
/// epoch. Nothing is claimed of the amount.
#[verifier::external_body]
pub(crate) fn since_epoch(instant: &SystemTime) -> (elapsed: Result<Duration, SystemTimeError>) {
    instant.duration_since(std::time::UNIX_EPOCH)
}

/// `Duration::as_secs`: the whole seconds of a duration.
pub assume_specification[ Duration::as_secs ](elapsed: &Duration) -> (seconds: u64);

/// `Duration::subsec_nanos`: the part of a duration below the whole second,
/// in nanoseconds, which is less than a second.
pub assume_specification[ Duration::subsec_nanos ](elapsed: &Duration) -> (nanos: u32)
    ensures
        nanos < 1_000_000_000,
;

/// `Duration::new`: the duration of `secs` seconds and `nanos` nanoseconds.
/// With less than a second of nanoseconds nothing carries into the seconds,
/// so the constructor cannot overflow.
pub assume_specification[ Duration::new ](secs: u64, nanos: u32) -> (elapsed: Duration)
    requires
        nanos < 1_000_000_000,
;

/// `SystemTime::checked_add`, applied to `UNIX_EPOCH`: the instant `elapsed`
/// after the epoch, or `None` where the host cannot represent it.
#[verifier::external_body]
pub(crate) fn after_epoch(elapsed: Duration) -> (instant: Option<SystemTime>) {
    std::time::UNIX_EPOCH.checked_add(elapsed)
}

} // verus!
