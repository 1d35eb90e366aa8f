//! Timestamps as points in time.

use chrono::{TimeZone, Utc};
use vstd::prelude::*;

use crate::error::{Error, ErrorKind, ErrorView};

verus! {

/// The first millisecond since the Unix epoch that is a point in time:
/// the start of January 1 of the year -262143.
pub const MIN_UTC_MILLIS: i64 = -8_334_601_228_800_000;

/// The last millisecond since the Unix epoch that is a point in time:
/// the end of December 31 of the year 262142.
pub const MAX_UTC_MILLIS: i64 = 8_210_266_876_799_999;

/// The message of the error for a timestamp that is no point in time.
pub const INVALID_TIMESTAMP: &'static str = "Invalid timestamp";

/// A point in time in UTC, as the number of whole seconds since the Unix epoch
/// and the nanoseconds within the second.
#[derive(Debug, Clone, Copy, PartialEq, Eq, Structural)]
pub struct UtcDateTime {
    /// Whole seconds since January 1, 1970 0:00:00 UTC, negative before it.
    pub timestamp: i64,
    /// Nanoseconds since the start of the second.
    pub timestamp_subsec_nanos: u32,
}

/// Whether a number of milliseconds since the Unix epoch is a point in time.
pub open spec fn is_utc_millis(timestamp_ms: int) -> bool {
    MIN_UTC_MILLIS <= timestamp_ms <= MAX_UTC_MILLIS
}

/// The point in time that lies a number of milliseconds after the Unix epoch.
pub open spec fn utc_at_millis(timestamp_ms: int) -> UtcDateTime {
    UtcDateTime {
        timestamp: (timestamp_ms / 1000) as i64,
        timestamp_subsec_nanos: ((timestamp_ms % 1000) * 1_000_000) as u32,
    }
}

impl UtcDateTime {
    /// The nanoseconds from the Unix epoch to the point in time.
    pub open spec fn nanos_since_epoch(self) -> int {
        self.timestamp * 1_000_000_000 + self.timestamp_subsec_nanos
    }
}

/// Calls `chrono::TimeZone::timestamp_millis_opt` on `chrono::Utc`, and reads
/// the date and time that it gives with `DateTime::timestamp` and
/// `DateTime::timestamp_subsec_nanos`.
///
/// Trusted: there is a result exactly for the milliseconds of the years that
/// `chrono::NaiveDate` holds, -262143 to 262142, and UTC never gives more than
/// one. The result has the seconds of the milliseconds, rounded down, and the
/// remaining milliseconds as nanoseconds.
#[verifier::external_body]
fn timestamp_millis_opt(timestamp_ms: i64) -> (found: Option<UtcDateTime>)
    ensures
        found is Some <==> is_utc_millis(timestamp_ms as int),
        found matches Some(at) ==> at == utc_at_millis(timestamp_ms as int),
{
    match Utc.timestamp_millis_opt(timestamp_ms).single() {
        Some(at) => Some(UtcDateTime {
            timestamp: at.timestamp(),
            timestamp_subsec_nanos: at.timestamp_subsec_nanos(),
        }),
        None => None,
    }
}

/// The point in time that a number of milliseconds since the Unix epoch stands for.
///
/// It is an error of kind [`ErrorKind::DataInvalid`] where it stands for none.
pub fn timestamp_ms_to_utc(timestamp_ms: i64) -> (result: Result<UtcDateTime, Error>)
    ensures
        result is Ok <==> is_utc_millis(timestamp_ms as int),
        result matches Ok(at) ==> at == utc_at_millis(timestamp_ms as int),
        result matches Err(error) ==> error@ == (ErrorView {
            kind: ErrorKind::DataInvalid,
            message: INVALID_TIMESTAMP@,
        }),
{
    match timestamp_millis_opt(timestamp_ms) {
        Some(at) => Ok(at),
        None => Err(Error::new(ErrorKind::DataInvalid, INVALID_TIMESTAMP.to_owned())),
    }
}

/// The point in time of a number of milliseconds lies exactly that many
/// milliseconds after the Unix epoch, so that no two of them share one.
pub proof fn utc_at_millis_keeps_the_milliseconds(timestamp_ms: i64)
    requires
        is_utc_millis(timestamp_ms as int),
    ensures
        utc_at_millis(timestamp_ms as int).nanos_since_epoch() == timestamp_ms * 1_000_000,
        utc_at_millis(timestamp_ms as int).timestamp_subsec_nanos < 1_000_000_000,
{
}

} // verus!
