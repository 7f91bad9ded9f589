//! The system clock.
use vstd::prelude::*;

verus! {

#[verifier::external_type_specification]
#[verifier::external_body]
pub struct ExSystemTime(std::time::SystemTime);

/// Relies on `std::time::SystemTime::now`: a reading of the system clock, of
/// which nothing is known in advance.
#[verifier::external_body]
fn clock_now() -> (r: std::time::SystemTime) {
    std::time::SystemTime::now()
}

/// Relies on `std::time::SystemTime::duration_since`: the whole seconds from
/// the Unix epoch to `t`, or `None` where `t` lies before the epoch.
#[verifier::external_body]
fn unix_seconds(t: &std::time::SystemTime) -> (r: Option<u64>) {
    t.duration_since(std::time::UNIX_EPOCH).ok().map(|d| d.as_secs())
}

/// Reads the system clock as whole seconds since the Unix epoch; `None`
/// where it reads a time before the epoch.
pub(crate) fn unix_time_now() -> (r: Option<u64>) {
    let now = clock_now();
    unix_seconds(&now)
}

} // verus!
