//! The time elapsed since the epoch, held as whole seconds and the
//! nanoseconds past them.

use crate::error::TimeError;
use crate::local::{is_count, seconds_at_offset};
use std::time::Duration;
use vstd::prelude::*;

verus! {

/// Nanoseconds in a second.
pub const NANOS_PER_SECOND: u32 = 1_000_000_000;

/// An amount of time elapsed since the epoch: whole seconds and less than a
/// second of nanoseconds on top. Its view is the amount in nanoseconds.
#[derive(Clone, Copy, Debug, PartialEq, Eq, Structural)]
pub struct Elapsed {
    secs: u64,
    nanos: u32,
}

impl View for Elapsed {
    type V = nat;

    closed spec fn view(&self) -> nat {
        (self.secs * 1_000_000_000 + self.nanos) as nat
    }
}

impl Elapsed {
    /// The nanoseconds stay below a second.
    #[verifier::type_invariant]
    spec fn nanos_below_a_second(self) -> bool {
        self.nanos < 1_000_000_000
    }

    /// The amount of `secs` seconds and `nanos` nanoseconds. There is none
    /// where the nanoseconds make a second or more.
    pub fn new(secs: u64, nanos: u32) -> (elapsed: Option<Elapsed>)
        ensures
            nanos < 1_000_000_000 ==> (elapsed matches Some(e) && e@ == secs * 1_000_000_000
                + nanos),
            nanos >= 1_000_000_000 ==> elapsed.is_none(),
    {
        if nanos < NANOS_PER_SECOND {
            Some(Elapsed { secs, nanos })
        } else {
            None
        }
    }

    /// The amount that a duration of the standard library holds.
    pub fn from_duration(duration: &Duration) -> (elapsed: Elapsed) {
        Elapsed { secs: duration.as_secs(), nanos: duration.subsec_nanos() }
    }

    /// The same amount as a duration of the standard library.
    pub fn to_duration(&self) -> (duration: Duration) {
        proof {
            use_type_invariant(self);
        }
        Duration::new(self.secs, self.nanos)
    }

    /// The whole seconds of the amount.
    pub fn as_secs(&self) -> (seconds: u64)
        ensures
            seconds == self@ / 1_000_000_000,
    {
        proof {
            use_type_invariant(self);
        }
        self.secs
    }

    /// What the amount holds beyond its whole seconds, in nanoseconds.
    pub fn subsec_nanos(&self) -> (nanos: u32)
        ensures
            nanos == self@ % 1_000_000_000,
    {
        proof {
            use_type_invariant(self);
        }
        self.nanos
    }

    /// The whole milliseconds of the amount.
    pub fn as_millis(&self) -> (millis: u128)
        ensures
            millis == self@ / 1_000_000,
    {
        proof {
            use_type_invariant(self);
        }
        self.secs as u128 * 1_000 + (self.nanos / 1_000_000) as u128
    }

    /// The amount in nanoseconds.
    pub fn as_nanos(&self) -> (nanos: u128)
        ensures
            nanos == self@,
    {
        self.secs as u128 * 1_000_000_000 + self.nanos as u128
    }

    /// The amount on a clock that runs `offset_hours` hours ahead: the whole
    /// seconds moved by that many hours, what lies past them kept. An amount
    /// whose seconds would fall before the epoch or past the largest count
    /// is `LocalOutOfRange`.
    pub fn at_offset(&self, offset_hours: i64) -> (local: Result<Elapsed, TimeError>)
        ensures
            is_count(self@ / 1_000_000_000 + offset_hours * 3_600, u64::MAX as int) ==> (
            local matches Ok(moved) && moved@ == self@ + offset_hours * 3_600_000_000_000),
            !is_count(self@ / 1_000_000_000 + offset_hours * 3_600, u64::MAX as int) ==> local
                == Err::<Elapsed, TimeError>(TimeError::LocalOutOfRange),
    {
        proof {
            use_type_invariant(self);
        }
        match seconds_at_offset(self.secs, offset_hours) {
            Ok(secs) => Ok(Elapsed { secs, nanos: self.nanos }),
            Err(e) => Err(e),
        }
    }
}

} // verus!
