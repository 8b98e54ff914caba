//! The wall clock.
use vstd::prelude::*;

verus! {

/// Milliseconds since the Unix epoch now, from
/// `std::time::SystemTime::now().duration_since(UNIX_EPOCH)`: `None` when the
/// clock reads before the epoch (or so far after it that the count leaves
/// `i64`). Nothing is claimed of the value: it depends on the time of the call.
#[verifier::external_body]
pub(crate) fn now_millis() -> (r: Option<i64>) {
    match std::time::SystemTime::now().duration_since(std::time::UNIX_EPOCH) {
        Ok(d) => i64::try_from(d.as_millis()).ok(),
        Err(_) => None,
    }
}

} // verus!
