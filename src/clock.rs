use vstd::prelude::*;

verus! {

/// Relies on std's `SystemTime::now` and chrono's `From<SystemTime> for
/// DateTime<Utc>` with `DateTime::timestamp_millis`: the current wall-clock
/// time in milliseconds since the Unix epoch, negative before 1970. Nothing
/// is promised of the value. chrono's conversion handles times before the
/// epoch; it fails only beyond chrono's range of about 262,000 years either
/// side of it.
#[verifier::external_body]
pub(crate) fn now_millis() -> i64 {
    chrono::DateTime::<chrono::Utc>::from(std::time::SystemTime::now()).timestamp_millis()
}

} // verus!
