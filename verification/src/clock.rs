use vstd::prelude::*;

verus! {

/// Relies on chrono::Utc::now together with DateTime::timestamp_micros: the
/// current wall time as non-leap microseconds since the Unix epoch. Utc::now
/// returns only when the system clock is at or past the epoch (it panics
/// otherwise), so the count is non-negative; nothing further can be promised
/// of a clock reading.
#[verifier::external_body]
pub fn now_micros() -> (r: i64)
    ensures
        0 <= r,
{
    chrono::Utc::now().timestamp_micros()
}

} // verus!
