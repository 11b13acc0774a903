//! Job statistics and recovery counts, as the database reports them.
use vstd::prelude::*;

verus! {

/// Number of jobs in each status.
#[derive(Debug, Clone, Copy, PartialEq, Eq, Structural)]
pub struct JobStats {
    pub pending: i64,
    pub running: i64,
    pub completed: i64,
    pub failed: i64,
    pub cancelled: i64,
}

/// Number of jobs of one type in each status.
#[derive(Debug, PartialEq, Eq)]
pub struct JobStatsByJobType {
    pub job_type: String,
    pub pending: i64,
    pub running: i64,
    pub completed: i64,
    pub failed: i64,
    pub cancelled: i64,
}

/// Number of jobs of one type whose lease a recovery run took back.
#[derive(Debug)]
pub struct RecoveredJobs {
    pub job_type: String,
    pub count: i64,
}

} // verus!
