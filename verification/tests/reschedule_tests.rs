use job_scheduler::server::background::{recovered_total, reschedule_error_is_reported};
use job_scheduler::server::db::models::RecoveredJobs;
use job_scheduler::server::error::ServerError;
use job_scheduler::server::helper::plan_reschedule;
use job_scheduler::server::utils::{cron_next_time, cron_parsed_to_time};
use job_scheduler::shared::models::{JobStatus, RecurringJob, RunMode};
use uuid::Uuid;

// 2024-01-01T00:00:00Z in microseconds.
const NEW_YEAR: i64 = 1_704_067_200_000_000;
const HOUR: i64 = 3_600_000_000;

fn recurring(id: u128, job_type: &str, cron: &str, parent: Option<u128>) -> RecurringJob {
    RecurringJob {
        id: Uuid::from_u128(id),
        job_type: job_type.to_string(),
        payload: serde_json::Value::from(id as u64),
        cron_expression: cron.to_string(),
        priority: 3,
        max_retries: 4,
        parent_job_id: parent.map(Uuid::from_u128),
    }
}

#[test]
fn nothing_to_reschedule_is_not_found() {
    match plan_reschedule(Vec::new(), NEW_YEAR) {
        Err(ServerError::NotFound(m)) => assert_eq!(m, "No recurring jobs found to be rescheduled"),
        _ => panic!("expected not found"),
    }
}

#[test]
fn plan_copies_jobs_and_chains_them_to_their_root() {
    let jobs = vec![
        recurring(1, "send_email", "0 * * * *", None),
        recurring(2, "send_webhook", "0 * * * *", Some(9)),
        recurring(3, "send_email", "not a cron", Some(1)),
    ];
    let plan = plan_reschedule(jobs, NEW_YEAR).unwrap();
    assert_eq!(
        plan.job_ids,
        vec![Uuid::from_u128(1), Uuid::from_u128(2), Uuid::from_u128(3)]
    );
    assert_eq!(plan.new_jobs.len(), 3);
    let first = &plan.new_jobs[0];
    assert_eq!(first.job_type, "send_email");
    assert_eq!(first.payload, serde_json::Value::from(1u64));
    assert_eq!(first.status, JobStatus::Pending);
    assert_eq!(first.run_mode, RunMode::Recurring);
    assert_eq!(first.priority, 3);
    assert_eq!(first.max_retries, 4);
    assert_eq!(first.created_at, NEW_YEAR);
    assert_eq!(first.run_at, NEW_YEAR + HOUR);
    assert_eq!(first.cron_expression.as_deref(), Some("0 * * * *"));
    assert_eq!(first.parent_job_id, Some(Uuid::from_u128(1)));
    assert_eq!(plan.new_jobs[1].parent_job_id, Some(Uuid::from_u128(9)));
    // an expression that does not parse runs at once
    assert_eq!(plan.new_jobs[2].run_at, NEW_YEAR);
    assert_eq!(plan.new_jobs[2].parent_job_id, Some(Uuid::from_u128(1)));
    let counts: Vec<(String, u64)> =
        plan.job_type_counts.iter().map(|c| (c.job_type.clone(), c.count)).collect();
    assert_eq!(
        counts,
        vec![("send_email".to_string(), 2), ("send_webhook".to_string(), 1)]
    );
    let total: u64 = plan.job_type_counts.iter().map(|c| c.count).sum();
    assert_eq!(total, 3);
}

#[test]
fn cron_next_time_is_strictly_after() {
    assert_eq!(cron_next_time("0 * * * *", NEW_YEAR, false).unwrap(), NEW_YEAR + HOUR);
    assert_eq!(cron_next_time("0 * * * *", NEW_YEAR, true).unwrap(), NEW_YEAR);
    assert_eq!(cron_next_time("0 * * * *", NEW_YEAR + 1, false).unwrap(), NEW_YEAR + HOUR);
}

#[test]
fn invalid_cron_is_a_bad_request() {
    match cron_next_time("every tuesday", NEW_YEAR, false) {
        Err(ServerError::BadRequest(m)) => {
            assert_eq!(m, "Invalid cron expression for a recurring job.")
        }
        _ => panic!("expected a bad request"),
    }
    assert!(matches!(cron_parsed_to_time("", false), Err(ServerError::BadRequest(_))));
}

#[test]
fn cron_from_now_is_in_the_future() {
    let before = chrono::Utc::now().timestamp_micros();
    let next = cron_parsed_to_time("* * * * * *", false).unwrap();
    assert!(next > before);
}

#[test]
fn recovered_jobs_add_up() {
    let rows = vec![
        RecoveredJobs { job_type: "send_email".to_string(), count: 2 },
        RecoveredJobs { job_type: "send_webhook".to_string(), count: 5 },
    ];
    assert_eq!(recovered_total(&rows), 7);
    assert_eq!(recovered_total(&Vec::new()), 0);
}

#[test]
fn only_database_errors_of_rescheduling_are_reported() {
    assert!(reschedule_error_is_reported(&ServerError::Database(sqlx::Error::RowNotFound)));
    assert!(!reschedule_error_is_reported(&ServerError::NotFound("x".to_string())));
    assert!(!reschedule_error_is_reported(&ServerError::Internal("x".to_string())));
}
