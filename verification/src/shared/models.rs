//! The job records that the server stores and the workers execute.
use vstd::prelude::*;

verus! {

/// Where a job stands in its life.
#[derive(Debug, Clone, Copy, PartialEq, Eq, Structural)]
pub enum JobStatus {
    Pending,
    Running,
    Completed,
    Failed,
    Cancelled,
}

impl JobStatus {
    /// Whether a job in this status is done for good.
    pub open spec fn is_terminal(self) -> bool {
        self == JobStatus::Completed || self == JobStatus::Failed || self == JobStatus::Cancelled
    }
}

/// The moves a job makes between statuses: a worker claims a pending job
/// (running); a worker settles a running job (completed, failed, or pending
/// again for a retry); the server takes back a running job whose lease ran
/// out (pending), fails a pending job whose attempts are used up (failed),
/// and cancels a pending job on request (cancelled).
pub open spec fn allowed_transition(from: JobStatus, to: JobStatus) -> bool {
    match from {
        JobStatus::Pending => to == JobStatus::Running || to == JobStatus::Failed || to
            == JobStatus::Cancelled,
        JobStatus::Running => to == JobStatus::Completed || to == JobStatus::Failed || to
            == JobStatus::Pending,
        _ => false,
    }
}

/// Whether a job runs once or again after each completion, by its cron
/// expression.
#[derive(Debug, Clone, Copy, PartialEq, Eq, Structural)]
pub enum RunMode {
    OneTime,
    Recurring,
}

/// A job to be inserted. Instants are microseconds since the epoch.
#[derive(Debug)]
pub struct CreateJob {
    pub job_type: String,
    pub payload: serde_json::Value,
    pub status: JobStatus,
    pub priority: i16,
    pub max_retries: i16,
    pub created_at: i64,
    pub run_at: i64,
    pub run_mode: RunMode,
    pub cron_expression: Option<String>,
    pub parent_job_id: Option<uuid::Uuid>,
}

/// A completed recurring job that has not been rescheduled yet.
#[derive(Debug)]
pub struct RecurringJob {
    pub id: uuid::Uuid,
    pub job_type: String,
    pub payload: serde_json::Value,
    pub cron_expression: String,
    pub priority: i16,
    pub max_retries: i16,
    pub parent_job_id: Option<uuid::Uuid>,
}

} // verus!
