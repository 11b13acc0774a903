//! What the server's periodic tasks decide about their results.
use vstd::prelude::*;

use crate::server::db::models::RecoveredJobs;
use crate::server::error::ServerError;

verus! {

/// The sum of the counts of the first `n` rows.
pub open spec fn total_spec(rows: Seq<RecoveredJobs>, n: int) -> int
    decreases n,
{
    if n <= 0 {
        0
    } else {
        total_spec(rows, n - 1) + rows[n - 1].count
    }
}

/// Whether every partial sum of the counts fits in an `i64`, so that adding
/// them up in order does not overflow.
pub open spec fn sums_fit(rows: Seq<RecoveredJobs>) -> bool {
    forall|n: int| 0 <= n <= rows.len() ==> i64::MIN <= #[trigger] total_spec(rows, n) <= i64::MAX
}

/// The number of jobs that a lease recovery run took back: the sum of the
/// per-type counts.
pub fn recovered_total(rows: &Vec<RecoveredJobs>) -> (total: i64)
    requires
        sums_fit(rows@),
    ensures
        total == total_spec(rows@, rows@.len() as int),
{
    let mut total: i64 = 0;
    let mut i: usize = 0;
    while i < rows.len()
        invariant
            i <= rows@.len(),
            sums_fit(rows@),
            total == total_spec(rows@, i as int),
        decreases rows@.len() - i,
    {
        proof {
            assert(i64::MIN <= total_spec(rows@, i + 1) <= i64::MAX);
        }
        total = total + rows[i].count;
        i = i + 1;
    }
    total
}

/// Whether a failed rescheduling run is reported: only database errors are;
/// a run that finds nothing to reschedule is not an incident.
pub fn reschedule_error_is_reported(err: &ServerError) -> (b: bool)
    ensures
        b == (*err is Database),
{
    match err {
        ServerError::Database(_) => true,
        _ => false,
    }
}

} // verus!
