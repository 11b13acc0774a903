use job_scheduler::worker::main_loop::{next_action, LoopAction, LoopEvent};
use job_scheduler::worker::lease::lease_expires_at;
use job_scheduler::worker::error::WorkerError;
use job_scheduler::shared::models::JobStatus;
use job_scheduler::worker::executor::{
    status_after, metric_after_update, retry_backoff_secs, select_handler, settle_job, JobHandler, JobMetric,
    Settlement,
};

#[test]
fn backoff_secs_with_4_attempts_returns_16() {
    assert_eq!(retry_backoff_secs(4), 16);
}

#[test]
fn backoff_secs_with_10_attempts_returns_1024() {
    assert_eq!(retry_backoff_secs(10), 1024);
}

#[test]
fn backoff_secs_edges() {
    assert_eq!(retry_backoff_secs(0), 1);
    assert_eq!(retry_backoff_secs(1), 2);
    assert_eq!(retry_backoff_secs(14), 16384);
}

#[test]
fn backoff_doubles_with_each_attempt() {
    for n in 0..14 {
        assert_eq!(retry_backoff_secs(n + 1), 2 * retry_backoff_secs(n));
    }
}

#[test]
fn handlers_are_chosen_by_job_type() {
    assert!(matches!(select_handler("send_email"), Ok(JobHandler::SendEmail)));
    assert!(matches!(select_handler("send_webhook"), Ok(JobHandler::SendWebhook)));
    assert!(matches!(select_handler("will_crash"), Ok(JobHandler::WillCrash)));
    assert!(matches!(select_handler("long_running_job"), Ok(JobHandler::LongRunning)));
}

#[test]
fn unknown_job_type_is_invalid_job() {
    assert!(matches!(select_handler("send_fax"), Err(WorkerError::InvalidJob)));
    assert!(matches!(select_handler(""), Err(WorkerError::InvalidJob)));
    assert!(matches!(select_handler("send_email "), Err(WorkerError::InvalidJob)));
    assert!(matches!(select_handler("SEND_EMAIL"), Err(WorkerError::InvalidJob)));
}

#[test]
fn success_completes_the_job() {
    let s = settle_job::<i32>(3, 5, Ok(Some(7)));
    assert!(matches!(s, Settlement::Complete(Some(7))));
    let s = settle_job::<i32>(5, 5, Ok(None));
    assert!(matches!(s, Settlement::Complete(None)));
}

#[test]
fn temporary_error_with_attempts_left_is_retried_with_backoff() {
    let s = settle_job::<i32>(3, 5, Err(WorkerError::Email("smtp down".to_string())));
    match s {
        Settlement::Retry { error: WorkerError::Email(m), backoff_secs } => {
            assert_eq!(m, "smtp down");
            assert_eq!(backoff_secs, 8);
        }
        _ => panic!("expected a retry"),
    }
}

#[test]
fn temporary_error_on_last_attempt_fails_the_job() {
    let s = settle_job::<i32>(5, 5, Err(WorkerError::Email("smtp down".to_string())));
    assert!(matches!(s, Settlement::Fail(WorkerError::Email(_))));
}

#[test]
fn permanent_error_fails_the_job_at_once() {
    let s = settle_job::<i32>(1, 5, Err(WorkerError::InvalidJob));
    assert!(matches!(s, Settlement::Fail(WorkerError::InvalidJob)));
    let s = settle_job::<i32>(1, 5, Err(WorkerError::Webhook("Invalid url".to_string())));
    assert!(matches!(s, Settlement::Fail(WorkerError::Webhook(_))));
}

#[test]
fn database_error_is_retried() {
    let s = settle_job::<i32>(2, 3, Err(WorkerError::Database(sqlx::Error::RowNotFound)));
    assert!(matches!(s, Settlement::Retry { backoff_secs: 4, .. }));
}

#[test]
fn metric_counts_only_a_single_moved_row() {
    let complete = Settlement::<i32>::Complete(None);
    let fail = Settlement::<i32>::Fail(WorkerError::InvalidJob);
    let retry = Settlement::<i32>::Retry { error: WorkerError::InvalidJob, backoff_secs: 1 };
    assert_eq!(metric_after_update(&complete, 1), Some(JobMetric::Completed));
    assert_eq!(metric_after_update(&fail, 1), Some(JobMetric::Failed));
    assert_eq!(metric_after_update(&retry, 1), Some(JobMetric::Retried));
    assert_eq!(metric_after_update(&complete, 0), None);
    assert_eq!(metric_after_update(&fail, 2), None);
    assert_eq!(metric_after_update(&retry, 0), None);
}

#[test]
fn lease_runs_out_after_its_duration() {
    assert_eq!(lease_expires_at(1_000, 15), 15_001_000);
    assert_eq!(lease_expires_at(-5_000_000, 0), -5_000_000);
}

#[test]
fn settled_jobs_take_their_next_status() {
    assert_eq!(status_after(&Settlement::<i32>::Complete(None)), JobStatus::Completed);
    assert_eq!(status_after(&Settlement::<i32>::Fail(WorkerError::InvalidJob)), JobStatus::Failed);
    assert_eq!(
        status_after(&Settlement::<i32>::Retry { error: WorkerError::InvalidJob, backoff_secs: 2 }),
        JobStatus::Pending
    );
}

#[test]
fn worker_loop_reactions() {
    assert_eq!(next_action(LoopEvent::TerminateSignal), LoopAction::Stop);
    assert_eq!(next_action(LoopEvent::InterruptSignal), LoopAction::Stop);
    assert_eq!(next_action(LoopEvent::ClaimedJob), LoopAction::ExecuteJob);
    assert_eq!(next_action(LoopEvent::NoJob), LoopAction::Sleep { millis: 100 });
    assert_eq!(next_action(LoopEvent::ClaimFailed), LoopAction::ReportError);
}

#[test]
fn unreadable_payload_fails_the_job_at_once() {
    let s = settle_job::<i32>(1, 5, Err(WorkerError::InvalidPayload("bad address".to_string())));
    assert!(matches!(s, Settlement::Fail(WorkerError::InvalidPayload(_))));
}
