//! Laws of timestamps.

use vstd::prelude::*;

use crate::error::{Error, ErrorKind};
use crate::snapshot::Snapshot;
use crate::time::{timestamp_ms_to_utc, UtcDateTime};

verus! {

/// Milliseconds since the Unix epoch are a point in time exactly from the start of the year
/// -262143 to the end of the year 262142. It lies that many milliseconds after the epoch.
pub proof fn point_in_time_of_milliseconds(
    timestamp_ms: i64,
    result: Result<UtcDateTime, Error>,
    kind: ErrorKind,
    message: &str,
)
    requires
        call_ensures(timestamp_ms_to_utc, (timestamp_ms,), result),
        result is Err ==> call_ensures(Error::kind, (&result->Err_0,), kind),
        result is Err ==> call_ensures(Error::message, (&result->Err_0,), message),
    ensures
        result is Ok <==> -8_334_601_228_800_000 <= timestamp_ms <= 8_210_266_876_799_999,
        result is Ok ==> result->Ok_0.timestamp * 1_000_000_000
            + result->Ok_0.timestamp_subsec_nanos == timestamp_ms * 1_000_000,
        result is Ok ==> result->Ok_0.timestamp_subsec_nanos < 1_000_000_000,
        result is Err ==> kind is DataInvalid,
        result is Err ==> message@ == "Invalid timestamp"@,
{
}

/// The time of a snapshot is the point in time of its milliseconds, and there is one exactly from
/// the start of the year -262143 to the end of the year 262142.
pub proof fn time_of_a_snapshot(
    snapshot: Snapshot,
    timestamp_ms: i64,
    result: Result<UtcDateTime, Error>,
    kind: ErrorKind,
    message: &str,
)
    requires
        call_ensures(Snapshot::timestamp_ms, (&snapshot,), timestamp_ms),
        call_ensures(Snapshot::timestamp, (&snapshot,), result),
        result is Err ==> call_ensures(Error::kind, (&result->Err_0,), kind),
        result is Err ==> call_ensures(Error::message, (&result->Err_0,), message),
    ensures
        result is Ok <==> -8_334_601_228_800_000 <= timestamp_ms <= 8_210_266_876_799_999,
        result is Ok ==> result->Ok_0.timestamp * 1_000_000_000
            + result->Ok_0.timestamp_subsec_nanos == timestamp_ms * 1_000_000,
        result is Ok ==> result->Ok_0.timestamp_subsec_nanos < 1_000_000_000,
        result is Err ==> kind is DataInvalid,
        result is Err ==> message@ == "Invalid timestamp"@,
{
}

} // verus!
