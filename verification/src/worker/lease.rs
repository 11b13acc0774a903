//! The lease a worker takes on a job it claims.
use vstd::prelude::*;

use crate::time::representable_micros;

verus! {

/// The instant a lease taken at `now` for `lease_duration` seconds runs
/// out, in microseconds.
pub open spec fn lease_end_spec(now: int, lease_duration: int) -> int {
    now + lease_duration * 1_000_000
}

/// When a lease taken at `now` (microseconds) for `lease_duration` seconds
/// runs out; past it, the server takes the job back. The end must be an
/// instant that `DateTime<Utc>` holds.
pub fn lease_expires_at(now: i64, lease_duration: u8) -> (end: i64)
    requires
        representable_micros(lease_end_spec(now as int, lease_duration as int)),
    ensures
        end == lease_end_spec(now as int, lease_duration as int),
{
    now + (lease_duration as i64) * 1_000_000
}

} // verus!
