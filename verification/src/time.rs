//! The wall clock, read through chrono.

use vstd::prelude::*;

verus! {

/// An upper bound on every instant that the wall clock can report:
/// 2^31 days, in milliseconds.
pub const MAX_TIMESTAMP_MS: i64 = 185_542_587_187_200_000i64;

/// The largest budget whose deadline is representable whatever the wall
/// clock reads: `i64::MAX - MAX_TIMESTAMP_MS`.
pub const MAX_BUDGET_MS: i64 = 9_037_829_449_667_575_807i64;

/// Whether `ms` is an instant that the wall clock can report.
pub open spec fn is_timestamp(ms: int) -> bool {
    0 <= ms <= MAX_TIMESTAMP_MS
}

/// The current instant: `chrono::Local::now()`, taken as milliseconds since
/// the Unix epoch with `DateTime::timestamp_millis`.
///
/// Trusted, not proved: that the reading is not negative and not beyond
/// `MAX_TIMESTAMP_MS`. chrono reads the system time as a duration since the
/// epoch, which cannot be negative, and builds the instant with
/// `DateTime::from_timestamp`, which accepts no day count beyond `i32`.
/// Nothing else is known of the reading: two calls may give any two instants.
#[verifier::external_body]
pub(crate) fn now_millis() -> (now: i64)
    ensures
        is_timestamp(now as int),
{
    chrono::Local::now().timestamp_millis()
}

} // verus!
