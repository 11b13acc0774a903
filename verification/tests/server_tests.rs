use job_scheduler::api_server::error::ServerError as ApiServerError;
use job_scheduler::server::error::ServerError;
use job_scheduler::server::handlers::{
    cancel_job_response, count_jobs_sql, direction_clause, handler_404, job_or_not_found,
    list_jobs_sql, new_job_from_payload, order_by_clause, JobPayload, ListJobsQuery,
};
use job_scheduler::shared::models::{JobStatus, RunMode};

#[test]
fn unknown_route_is_not_found() {
    match handler_404() {
        Err(ServerError::NotFound(m)) => {
            assert_eq!(m, "Careful! You are calling an API that doesn't exist")
        }
        _ => panic!("expected not found"),
    }
}

#[test]
fn submission_defaults() {
    let job = new_job_from_payload(
        JobPayload {
            job_type: "send_email".to_string(),
            payload: serde_json::Value::String("hi".to_string()),
            priority: None,
            max_retries: None,
            schedule_at: None,
        },
        1_000,
    );
    assert_eq!(job.job_type, "send_email");
    assert_eq!(job.payload, serde_json::Value::String("hi".to_string()));
    assert_eq!(job.status, JobStatus::Pending);
    assert_eq!(job.priority, 1);
    assert_eq!(job.max_retries, 1);
    assert_eq!(job.created_at, 1_000);
    assert_eq!(job.run_at, 1_000);
    assert_eq!(job.run_mode, RunMode::OneTime);
    assert_eq!(job.cron_expression, None);
    assert_eq!(job.parent_job_id, None);
}

#[test]
fn submission_keeps_given_values() {
    let job = new_job_from_payload(
        JobPayload {
            job_type: "send_webhook".to_string(),
            payload: serde_json::Value::Null,
            priority: Some(10),
            max_retries: Some(5),
            schedule_at: Some(9_000),
        },
        1_000,
    );
    assert_eq!(job.priority, 10);
    assert_eq!(job.max_retries, 5);
    assert_eq!(job.created_at, 1_000);
    assert_eq!(job.run_at, 9_000);
}

#[test]
fn cancellation_answers() {
    assert!(matches!(cancel_job_response(1), Ok(204)));
    for rows in [0u64, 2, 7] {
        match cancel_job_response(rows) {
            Err(ServerError::NotFound(m)) => assert_eq!(m, "Job not found"),
            _ => panic!("expected not found"),
        }
    }
}

#[test]
fn job_lookup_answers() {
    assert!(matches!(job_or_not_found(Some(3)), Ok(3)));
    match job_or_not_found::<i32>(None) {
        Err(ServerError::NotFound(m)) => assert_eq!(m, "Job not found"),
        _ => panic!("expected not found"),
    }
}

fn query(status: Option<JobStatus>, sort_by: Option<&str>, order: Option<bool>) -> ListJobsQuery {
    ListJobsQuery { status, sort_by: sort_by.map(|s| s.to_string()), order, limit: 10, offset: 0 }
}

#[test]
fn listing_sql_without_filter_or_sort() {
    let q = query(None, None, None);
    assert_eq!(list_jobs_sql(&q), "SELECT * FROM jobs LIMIT $1 OFFSET $2");
    assert_eq!(count_jobs_sql(&q), "SELECT COUNT(id) FROM jobs");
}

#[test]
fn listing_sql_with_filter_and_sort() {
    let q = query(Some(JobStatus::Pending), Some("priority"), Some(true));
    assert_eq!(
        list_jobs_sql(&q),
        "SELECT * FROM jobs WHERE status = $1 ORDER BY priority ASC LIMIT $2 OFFSET $3"
    );
    assert_eq!(count_jobs_sql(&q), "SELECT COUNT(id) FROM jobs WHERE status = $1");
    let q = query(None, Some("whatever"), None);
    assert_eq!(list_jobs_sql(&q), "SELECT * FROM jobs ORDER BY created_at DESC LIMIT $1 OFFSET $2");
}

#[test]
fn sort_clauses() {
    assert_eq!(order_by_clause("priority"), " ORDER BY priority");
    assert_eq!(order_by_clause("started_at"), " ORDER BY started_at");
    assert_eq!(order_by_clause("finished_at"), " ORDER BY finished_at");
    assert_eq!(order_by_clause("created_at"), " ORDER BY created_at");
    assert_eq!(order_by_clause(""), " ORDER BY created_at");
    assert_eq!(direction_clause(Some(true)), " ASC");
    assert_eq!(direction_clause(Some(false)), " DESC");
    assert_eq!(direction_clause(None), " DESC");
}

#[test]
fn error_status_codes() {
    assert_eq!(ServerError::NotFound(String::new()).status_code(), 404);
    assert_eq!(ServerError::BadRequest(String::new()).status_code(), 400);
    assert_eq!(ServerError::Internal(String::new()).status_code(), 500);
    assert_eq!(ServerError::Database(sqlx::Error::RowNotFound).status_code(), 500);
    let err: ServerError = sqlx::Error::RowNotFound.into();
    assert!(matches!(err, ServerError::Database(_)));
}

#[test]
fn api_server_database_error_is_hidden() {
    let err: ApiServerError = sqlx::Error::PoolTimedOut.into();
    let (status, message) = err.response_parts();
    assert_eq!(status, 500);
    assert_eq!(message, "Something went wrong");
}
