use vstd::prelude::*;

verus! {

/// Seconds since the Unix epoch now (zero when the clock reads before the epoch).
pub fn unix_now() -> i64 {
    crate::control_store::storage::unix_now()
}

} // verus!
