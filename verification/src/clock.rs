//! The instant at which a project was started.

use vstd::prelude::*;

verus! {

/// A point in time on the UTC scale.
///
/// `seconds` counts non-leap seconds since 1970-01-01T00:00:00Z (negative
/// before it); `nanoseconds` counts from the start of that second and may
/// reach into a second thousand million during a leap second.
#[derive(Debug, Clone, Copy, PartialEq, Eq, Structural)]
pub struct Timestamp {
    pub seconds: i64,
    pub nanoseconds: u32,
}

/// Reads the system clock through `chrono::Utc::now` and hands back the
/// instant as the pair that `DateTime::timestamp` and
/// `DateTime::timestamp_subsec_nanos` report for it.
///
/// Nothing is claimed of the value: it depends on when the call is made.
/// The outside function stops the program if the system clock reads
/// earlier than the Unix epoch.
#[verifier::external_body]
pub(crate) fn current_instant() -> (now: Timestamp) {
    let now = chrono::Utc::now();
    Timestamp { seconds: now.timestamp(), nanoseconds: now.timestamp_subsec_nanos() }
}

} // verus!
