use vstd::prelude::*;

verus! {

/// Relies on std::time::SystemTime::now together with
/// SystemTime::duration_since and Duration::as_secs: the reading of the
/// system clock, as whole seconds since the Unix epoch. Nothing is assumed
/// of the value; every caller states what holds for any reading. A clock
/// that stands before the epoch is reported as zero.
#[verifier::external_body]
pub fn now_seconds() -> u64 {
    match std::time::SystemTime::now().duration_since(std::time::SystemTime::UNIX_EPOCH) {
        Ok(d) => d.as_secs(),
        Err(_) => 0,
    }
}

} // verus!
