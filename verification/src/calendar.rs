//! What this library takes from chrono's calendar: which instants it can hold, the time
//! between two of them, and an instant moved by a number of seconds. Nothing in this file is
//! proved; each contract is taken on trust.

use chrono::{DateTime, TimeDelta};
use vstd::prelude::*;

verus! {

/// The most seconds, either way, that a chrono `TimeDelta` holds: `i64::MAX / 1000`.
pub const MAX_DELTA_SECS: i64 = 9_223_372_036_854_775;

/// Whether chrono holds an instant `secs` seconds and `nanos` nanoseconds after the Unix epoch:
/// whether `DateTime::from_timestamp(secs, nanos)` is `Some`.
pub uninterp spec fn representable(secs: int, nanos: int) -> bool;

/// The whole seconds from the first instant to the second, as chrono's subtraction of two
/// `DateTime`s followed by `TimeDelta::num_seconds` counts them.
pub uninterp spec fn seconds_between(
    start_secs: int,
    start_nanos: int,
    end_secs: int,
    end_nanos: int,
) -> int;

/// The instant that chrono's `DateTime::checked_add_signed` gives for the instant
/// `(secs, nanos)` and a delta of `delta_secs` seconds, as seconds and nanoseconds after the
/// Unix epoch; `None` where chrono cannot hold the sum.
pub uninterp spec fn shifted(secs: int, nanos: int, delta_secs: int) -> Option<(int, int)>;

/// Calls `DateTime::from_timestamp` and says whether it gave a value. The Unix epoch itself
/// is one that chrono holds (`DateTime::UNIX_EPOCH`).
#[verifier::external_body]
pub(crate) fn is_representable(secs: i64, nanos: u32) -> (r: bool)
    ensures
        r == representable(secs as int, nanos as int),
        secs == 0 && nanos == 0 ==> r,
{
    DateTime::from_timestamp(secs, nanos).is_some()
}

/// Subtracts the first `DateTime` from the second (`DateTime::signed_duration_since`) and
/// reads the difference with `TimeDelta::num_seconds`. Both instants must be ones that chrono
/// holds; the subtraction itself cannot fail.
#[verifier::external_body]
pub(crate) fn elapsed_seconds(start_secs: i64, start_nanos: u32, end_secs: i64, end_nanos: u32) -> (r:
    i64)
    requires
        representable(start_secs as int, start_nanos as int),
        representable(end_secs as int, end_nanos as int),
    ensures
        r == seconds_between(
            start_secs as int,
            start_nanos as int,
            end_secs as int,
            end_nanos as int,
        ),
{
    let start = DateTime::from_timestamp(start_secs, start_nanos).unwrap();
    let end = DateTime::from_timestamp(end_secs, end_nanos).unwrap();
    (end - start).num_seconds()
}

/// Adds `delta_secs` seconds to an instant with `DateTime::checked_add_signed`. The instant
/// must be one that chrono holds and the delta one that `TimeDelta::seconds` accepts. What
/// comes back is read with `timestamp` and `timestamp_subsec_nanos`, which chrono documents
/// to round-trip through `from_timestamp`, so it is again an instant that chrono holds.
#[verifier::external_body]
pub(crate) fn shift(secs: i64, nanos: u32, delta_secs: i64) -> (r: Option<(i64, u32)>)
    requires
        representable(secs as int, nanos as int),
        -MAX_DELTA_SECS <= delta_secs <= MAX_DELTA_SECS,
    ensures
        match r {
            Some((s, n)) => shifted(secs as int, nanos as int, delta_secs as int) == Some(
                (s as int, n as int),
            ) && representable(s as int, n as int),
            None => shifted(secs as int, nanos as int, delta_secs as int) is None,
        },
{
    let start = DateTime::from_timestamp(secs, nanos).unwrap();
    match start.checked_add_signed(TimeDelta::seconds(delta_secs)) {
        Some(end) => Some((end.timestamp(), end.timestamp_subsec_nanos())),
        None => None,
    }
}

} // verus!
