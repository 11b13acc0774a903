//! What a worker decides around the execution of one claimed job.
use vstd::prelude::*;
use vstd::arithmetic::power::pow;

use crate::shared::models::{allowed_transition, JobStatus};
use crate::text::same_text;
use crate::worker::error::WorkerError;

verus! {

/// Seconds to wait before a job that failed on attempt number `attempts`
/// may run again: two to the power of `attempts`.
pub open spec fn backoff_spec(attempts: int) -> int {
    pow(2, attempts as nat)
}

/// Exponential retry backoff: `2^attempts` seconds.
///
/// The result must fit in an `i16`, so `attempts` lies in `0..15`.
pub fn retry_backoff_secs(attempts: i16) -> (secs: i16)
    requires
        0 <= attempts < 15,
    ensures
        secs as int == backoff_spec(attempts as int),
{
    proof {
        vstd::arithmetic::power::lemma_pow0(2);
    }
    let mut secs: i16 = 1;
    let mut i: i16 = 0;
    while i < attempts
        invariant
            0 <= i <= attempts < 15,
            secs as int == pow(2, i as nat),
        decreases attempts - i,
    {
        proof {
            vstd::arithmetic::power::lemma_pow_increases(2, i as nat, 13);
            reveal_with_fuel(pow, 14);
            assert(pow(2, 13) == 8192);
        }
        secs = secs * 2;
        i = i + 1;
    }
    secs
}


/// The work that a claimed job asks for, chosen by its type.
#[derive(Debug, Clone, Copy, PartialEq, Eq, Structural)]
pub enum JobHandler {
    /// `send_email`: send the e-mail described by the payload.
    SendEmail,
    /// `send_webhook`: send the HTTP request described by the payload.
    SendWebhook,
    /// `will_crash`: the worker panics (used to test crash recovery).
    WillCrash,
    /// `long_running_job`: block for ten seconds, then succeed without a result.
    LongRunning,
}

/// The handler registered for a job type, or the error of an unknown type.
pub open spec fn handler_spec(job_type: Seq<char>) -> Result<JobHandler, WorkerError> {
    if job_type == "send_email"@ {
        Ok(JobHandler::SendEmail)
    } else if job_type == "send_webhook"@ {
        Ok(JobHandler::SendWebhook)
    } else if job_type == "will_crash"@ {
        Ok(JobHandler::WillCrash)
    } else if job_type == "long_running_job"@ {
        Ok(JobHandler::LongRunning)
    } else {
        Err(WorkerError::InvalidJob)
    }
}

/// Chooses what to run for a job of type `job_type`; an unknown type is a
/// permanent `InvalidJob` error.
pub fn select_handler(job_type: &str) -> (r: Result<JobHandler, WorkerError>)
    ensures
        r == handler_spec(job_type@),
{
    if same_text(job_type, "send_email") {
        Ok(JobHandler::SendEmail)
    } else if same_text(job_type, "send_webhook") {
        Ok(JobHandler::SendWebhook)
    } else if same_text(job_type, "will_crash") {
        Ok(JobHandler::WillCrash)
    } else if same_text(job_type, "long_running_job") {
        Ok(JobHandler::LongRunning)
    } else {
        Err(WorkerError::InvalidJob)
    }
}

/// How a job leaves the worker after its execution.
#[derive(Debug)]
pub enum Settlement<R> {
    /// Mark the job completed with this result.
    Complete(Option<R>),
    /// Mark the job failed for good with this error.
    Fail(WorkerError),
    /// Put the job back to pending with this error, to run again after
    /// `backoff_secs` seconds.
    Retry { error: WorkerError, backoff_secs: i16 },
}

/// The settlement of a job that has been attempted `attempts` times out of
/// `max_retries`, given what its execution returned: success completes it; a
/// permanent error, or any error once the attempts reach `max_retries`, fails
/// it; any other error sends it back with exponential backoff.
pub open spec fn settlement_spec<R>(
    attempts: i16,
    max_retries: i16,
    outcome: Result<Option<R>, WorkerError>,
) -> Settlement<R> {
    match outcome {
        Ok(res) => Settlement::Complete(res),
        Err(error) => if error.spec_is_permanent() || attempts == max_retries {
            Settlement::Fail(error)
        } else {
            Settlement::Retry { error, backoff_secs: backoff_spec(attempts as int) as i16 }
        },
    }
}

/// Decides how a job leaves the worker (see `settlement_spec`).
///
/// The backoff is computed for every job, as two to the power of the
/// attempts, so `attempts` must lie in `0..15`.
pub fn settle_job<R>(attempts: i16, max_retries: i16, outcome: Result<Option<R>, WorkerError>) -> (s:
    Settlement<R>)
    requires
        0 <= attempts < 15,
    ensures
        s == settlement_spec(attempts, max_retries, outcome),
        match outcome {
            Ok(res) => s == Settlement::<R>::Complete(res),
            Err(e) => {
                &&& ((e is Database || e is Email || e is Request) && attempts != max_retries)
                    ==> (s matches Settlement::Retry { error, backoff_secs } && error == e
                    && backoff_secs as int == pow(2, attempts as nat))
                &&& (e is InvalidJob || e is InvalidPayload || e is Webhook || attempts
                    == max_retries) ==> s == Settlement::<R>::Fail(e)
            },
        },
{
    let retries_exhausted = attempts == max_retries;
    let backoff_secs = retry_backoff_secs(attempts);
    match outcome {
        Ok(res) => Settlement::Complete(res),
        Err(error) => {
            if error.is_permanent() || retries_exhausted {
                Settlement::Fail(error)
            } else {
                Settlement::Retry { error, backoff_secs }
            }
        },
    }
}

/// The status a running job takes when its settlement is written.
pub open spec fn status_after_spec<R>(settlement: Settlement<R>) -> JobStatus {
    match settlement {
        Settlement::Complete(_) => JobStatus::Completed,
        Settlement::Fail(_) => JobStatus::Failed,
        Settlement::Retry { .. } => JobStatus::Pending,
    }
}

/// The status a running job takes when its settlement is written: completed,
/// failed, or pending again for a retry.
pub fn status_after<R>(settlement: &Settlement<R>) -> (status: JobStatus)
    ensures
        status == status_after_spec(*settlement),
{
    match settlement {
        Settlement::Complete(_) => JobStatus::Completed,
        Settlement::Fail(_) => JobStatus::Failed,
        Settlement::Retry { .. } => JobStatus::Pending,
    }
}

/// A counter of the worker's metrics.
#[derive(Debug, Clone, Copy, PartialEq, Eq, Structural)]
pub enum JobMetric {
    Completed,
    Failed,
    Retried,
}

/// The counter that a settlement raises once it has been written to the
/// database and moved `rows` rows: only a write that moved exactly the one
/// job counts.
pub open spec fn metric_spec<R>(settlement: Settlement<R>, rows: u64) -> Option<JobMetric> {
    if rows != 1 {
        None
    } else {
        match settlement {
            Settlement::Complete(_) => Some(JobMetric::Completed),
            Settlement::Fail(_) => Some(JobMetric::Failed),
            Settlement::Retry { .. } => Some(JobMetric::Retried),
        }
    }
}

/// The counter to raise after writing `settlement` moved `rows` rows (see
/// `metric_spec`).
pub fn metric_after_update<R>(settlement: &Settlement<R>, rows: u64) -> (m: Option<JobMetric>)
    ensures
        m == metric_spec(*settlement, rows),
{
    if rows != 1 {
        None
    } else {
        match settlement {
            Settlement::Complete(_) => Some(JobMetric::Completed),
            Settlement::Fail(_) => Some(JobMetric::Failed),
            Settlement::Retry { .. } => Some(JobMetric::Retried),
        }
    }
}


/// Each further attempt doubles the wait before the next one.
pub proof fn lemma_backoff_doubles(attempts: int)
    requires
        0 <= attempts,
    ensures
        backoff_spec(attempts + 1) == 2 * backoff_spec(attempts),
{
    assert(pow(2, (attempts + 1) as nat) == 2 * pow(2, attempts as nat)) by {
        reveal_with_fuel(pow, 2);
    }
}

/// A job goes back to the queue only after a temporary error, while its
/// attempts have not reached its retry limit, and then waits two to the power
/// of its attempts; a success always completes it.
pub proof fn lemma_retry_only_when_allowed<R>(
    attempts: i16,
    max_retries: i16,
    outcome: Result<Option<R>, WorkerError>,
)
    ensures
        settlement_spec(attempts, max_retries, outcome) matches Settlement::Retry {
            error,
            backoff_secs,
        } ==> outcome == Err::<Option<R>, WorkerError>(error) && !error.spec_is_permanent()
            && attempts != max_retries && backoff_secs == backoff_spec(attempts as int) as i16,
        outcome matches Ok(res) ==> settlement_spec(attempts, max_retries, outcome)
            == Settlement::<R>::Complete(res),
{
}

/// Settling a running job is one of the job's allowed moves, and the job is
/// done for good exactly when it is not sent back for a retry.
pub proof fn lemma_settlement_moves_are_allowed<R>(settlement: Settlement<R>)
    ensures
        allowed_transition(JobStatus::Running, status_after_spec(settlement)),
        status_after_spec(settlement).is_terminal() <==> !(settlement is Retry),
{
}

/// A temporary failure (of the database, the HTTP client or the mail
/// server) before the last allowed attempt sends the job back to the queue,
/// to wait two to the power of its attempts in seconds.
pub proof fn lemma_temporary_failure_is_retried<R>(attempts: i16, max_retries: i16, error: WorkerError)
    requires
        0 <= attempts < 15,
        attempts != max_retries,
        error is Database || error is Email || error is Request,
    ensures
        (settlement_spec::<R>(attempts, max_retries, Err(error)) matches Settlement::Retry {
            error: e,
            backoff_secs,
        } && e == error && backoff_secs as int == pow(2, attempts as nat)),
{
    vstd::arithmetic::power::lemma_pow_increases(2, attempts as nat, 14);
    vstd::arithmetic::power::lemma_pow_positive(2, attempts as nat);
    assert(pow(2, 14) == 16384) by {
        reveal_with_fuel(pow, 15);
    }
}

/// A permanent error, or any error on the last allowed attempt, fails the
/// job for good.
pub proof fn lemma_fail_when_hopeless<R>(attempts: i16, max_retries: i16, error: WorkerError)
    requires
        error.spec_is_permanent() || attempts == max_retries,
    ensures
        settlement_spec::<R>(attempts, max_retries, Err(error)) == Settlement::<R>::Fail(error),
{
}

} // verus!
