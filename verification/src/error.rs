//! The failures this library reports.

use vstd::prelude::*;

verus! {

/// Why a time computation gave no value.
#[derive(Clone, Copy, Debug, PartialEq, Eq, Structural)]
pub enum TimeError {
    /// The host clock reads an instant before 1970-01-01T00:00:00Z.
    ClockBeforeEpoch,
    /// A month number outside 1..=12; the field carries the rejected number.
    OutOfRange(u64),
    /// Shifting an instant by the local offset leaves the range of the counter:
    /// the local instant would lie before the epoch or beyond the largest count.
    LocalOutOfRange,
}

} // verus!
