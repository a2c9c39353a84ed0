//! Calendar dates and clock components from a count of seconds since the Unix epoch,
//! with local-time adjustment by a whole-hour offset from UTC.

pub mod calc;
pub mod elapsed;
pub mod error;
pub mod host;
pub mod local;
pub mod stamp;
pub mod tz;
pub mod utc;
