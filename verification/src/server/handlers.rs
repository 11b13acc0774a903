//! What the HTTP handlers decide, apart from reading and writing the
//! database and the HTTP exchange itself.
use vstd::prelude::*;
use vstd::string::*;

use crate::server::db::models::{JobStats, JobStatsByJobType};
use crate::server::error::ServerError;
use crate::shared::models::{CreateJob, JobStatus, RunMode};
use crate::text::same_text;

verus! {

/// The text of the answer to a request for a route that does not exist.
pub open spec fn missing_route_message() -> Seq<char> {
    "Careful! You are calling an API that doesn't exist"@
}

/// The text of the answer about a job that does not exist.
pub open spec fn job_not_found_message() -> Seq<char> {
    "Job not found"@
}

/// The answer to a request for a route that does not exist: `NotFound`.
pub fn handler_404() -> (r: Result<(), ServerError>)
    ensures
        r matches Err(ServerError::NotFound(m)) && m@ == missing_route_message(),
{
    Err(ServerError::NotFound("Careful! You are calling an API that doesn't exist".to_string()))
}

/// A job submitted through the API. `schedule_at` is in microseconds since
/// the epoch.
#[derive(Debug)]
pub struct JobPayload {
    pub job_type: String,
    pub payload: serde_json::Value,
    pub priority: Option<i16>,
    pub max_retries: Option<i16>,
    pub schedule_at: Option<i64>,
}

/// The job stored for a submission received at `now`: pending, run once,
/// with priority 1 and one try unless the submission says otherwise, and
/// due at `schedule_at`, or at once.
pub open spec fn submitted_job(payload: JobPayload, now: i64, job: CreateJob) -> bool {
    &&& job.job_type@ == payload.job_type@
    &&& job.payload == payload.payload
    &&& job.status == JobStatus::Pending
    &&& job.priority == match payload.priority {
        Some(p) => p,
        None => 1i16,
    }
    &&& job.max_retries == match payload.max_retries {
        Some(m) => m,
        None => 1i16,
    }
    &&& job.created_at == now
    &&& job.run_at == match payload.schedule_at {
        Some(t) => t,
        None => now,
    }
    &&& job.run_mode == RunMode::OneTime
    &&& job.cron_expression is None
    &&& job.parent_job_id is None
}

/// Turns a submission received at `now` into the job to insert (see
/// `submitted_job`).
pub fn new_job_from_payload(payload: JobPayload, now: i64) -> (job: CreateJob)
    ensures
        submitted_job(payload, now, job),
        payload.priority is None ==> job.priority == 1,
        payload.priority matches Some(p) ==> job.priority == p,
        payload.max_retries is None ==> job.max_retries == 1,
        payload.max_retries matches Some(m) ==> job.max_retries == m,
        payload.schedule_at is None ==> job.run_at == now,
        payload.schedule_at matches Some(t) ==> job.run_at == t,
{
    let priority = match payload.priority {
        Some(p) => p,
        None => 1,
    };
    let max_retries = match payload.max_retries {
        Some(m) => m,
        None => 1,
    };
    let run_at = match payload.schedule_at {
        Some(t) => t,
        None => now,
    };
    CreateJob {
        job_type: payload.job_type,
        payload: payload.payload,
        status: JobStatus::Pending,
        priority,
        max_retries,
        created_at: now,
        run_at,
        run_mode: RunMode::OneTime,
        cron_expression: None,
        parent_job_id: None,
    }
}

/// The answer to a cancellation that changed `rows_affected` rows: only a
/// pending job can be cancelled, so exactly one changed row means success,
/// `204 No Content`; anything else means the job was not found.
pub fn cancel_job_response(rows_affected: u64) -> (r: Result<u16, ServerError>)
    ensures
        rows_affected == 1 ==> r == Ok::<u16, ServerError>(204),
        rows_affected != 1 ==> (r matches Err(ServerError::NotFound(m)) && m@
            == job_not_found_message()),
{
    if rows_affected != 1 {
        Err(ServerError::NotFound("Job not found".to_string()))
    } else {
        Ok(204)
    }
}

/// The answer to a request for one job: the job, or `NotFound`.
pub fn job_or_not_found<J>(job: Option<J>) -> (r: Result<J, ServerError>)
    ensures
        job matches Some(j) ==> r == Ok::<J, ServerError>(j),
        job is None ==> (r matches Err(ServerError::NotFound(m)) && m@ == job_not_found_message()),
{
    match job {
        Some(j) => Ok(j),
        None => Err(ServerError::NotFound("Job not found".to_string())),
    }
}

/// The query parameters of a job listing.
#[derive(Debug)]
pub struct ListJobsQuery {
    pub status: Option<JobStatus>,
    pub sort_by: Option<String>,
    pub order: Option<bool>,
    pub limit: i16,
    pub offset: i64,
}

/// The `ORDER BY` clause for a sort key: `priority`, `started_at` and
/// `finished_at` sort by that column, anything else by `created_at`.
pub open spec fn order_by_spec(sort_by: Seq<char>) -> Seq<char> {
    if sort_by == "priority"@ {
        " ORDER BY priority"@
    } else if sort_by == "started_at"@ {
        " ORDER BY started_at"@
    } else if sort_by == "finished_at"@ {
        " ORDER BY finished_at"@
    } else {
        " ORDER BY created_at"@
    }
}

/// The direction of a sort: ascending only when `order` is `Some(true)`.
pub open spec fn direction_spec(order: Option<bool>) -> Seq<char> {
    if order == Some(true) {
        " ASC"@
    } else {
        " DESC"@
    }
}

/// The SQL of a job listing, its parameters numbered in order: the status
/// (when filtered), the limit, then the offset.
pub open spec fn list_jobs_sql_spec(query: ListJobsQuery) -> Seq<char> {
    let filter = if query.status is Some {
        " WHERE status = $1"@
    } else {
        ""@
    };
    let sort = match query.sort_by {
        Some(s) => order_by_spec(s@) + direction_spec(query.order),
        None => ""@,
    };
    let paging = if query.status is Some {
        " LIMIT $2 OFFSET $3"@
    } else {
        " LIMIT $1 OFFSET $2"@
    };
    "SELECT * FROM jobs"@ + filter + sort + paging
}

/// The direction of a sorted listing depends on `order` alone: ascending
/// exactly when `order` is `Some(true)`, with or without a status filter;
/// the filter only adds its clause and shifts the paging parameters.
pub proof fn lemma_listing_direction_follows_order(query: ListJobsQuery)
    requires
        query.sort_by is Some,
    ensures
        ({
            let filter = if query.status is Some {
                " WHERE status = $1"@
            } else {
                ""@
            };
            let paging = if query.status is Some {
                " LIMIT $2 OFFSET $3"@
            } else {
                " LIMIT $1 OFFSET $2"@
            };
            let order_by = order_by_spec(query.sort_by->0@);
            &&& query.order == Some(true) ==> list_jobs_sql_spec(query) == "SELECT * FROM jobs"@
                + filter + order_by + " ASC"@ + paging
            &&& query.order != Some(true) ==> list_jobs_sql_spec(query) == "SELECT * FROM jobs"@
                + filter + order_by + " DESC"@ + paging
        }),
{
}

/// Filtering a sorted listing by status does not change its direction or
/// its sort column: the filtered SQL is the unfiltered one with the filter
/// clause inserted after `FROM jobs` and the paging parameters shifted.
pub proof fn lemma_filter_keeps_direction(filtered: ListJobsQuery, unfiltered: ListJobsQuery)
    requires
        filtered.status is Some,
        unfiltered.status is None,
        filtered.sort_by == unfiltered.sort_by,
        filtered.order == unfiltered.order,
    ensures
        list_jobs_sql_spec(filtered) == "SELECT * FROM jobs"@ + " WHERE status = $1"@
            + list_jobs_sql_spec(unfiltered).subrange(
            18,
            list_jobs_sql_spec(unfiltered).len() - 19,
        ) + " LIMIT $2 OFFSET $3"@,
{
    reveal_strlit("SELECT * FROM jobs");
    reveal_strlit(" LIMIT $1 OFFSET $2");
    reveal_strlit("");
    let u = list_jobs_sql_spec(unfiltered);
    let sort = match unfiltered.sort_by {
        Some(s) => order_by_spec(s@) + direction_spec(unfiltered.order),
        None => ""@,
    };
    assert(u == "SELECT * FROM jobs"@ + ""@ + sort + " LIMIT $1 OFFSET $2"@);
    assert(u.subrange(18, u.len() - 19) =~= sort);
}

/// A submission without a retry limit gets one try, and one without a
/// priority gets priority 1, whatever else it holds; values it gives are
/// kept.
pub proof fn lemma_submission_defaults(payload: JobPayload, now: i64, job: CreateJob)
    requires
        submitted_job(payload, now, job),
    ensures
        payload.max_retries is None ==> job.max_retries == 1,
        payload.max_retries matches Some(m) ==> job.max_retries == m,
        payload.priority is None ==> job.priority == 1,
        payload.priority matches Some(p) ==> job.priority == p,
        payload.schedule_at is None ==> job.run_at == now,
        payload.schedule_at matches Some(t) ==> job.run_at == t,
        job.status == JobStatus::Pending,
        job.created_at == now,
{
}

/// The SQL that counts the jobs of a listing, with the status as its only
/// parameter when filtered.
pub open spec fn count_jobs_sql_spec(query: ListJobsQuery) -> Seq<char> {
    if query.status is Some {
        "SELECT COUNT(id) FROM jobs WHERE status = $1"@
    } else {
        "SELECT COUNT(id) FROM jobs"@
    }
}

/// The `ORDER BY` clause for a sort key (see `order_by_spec`).
pub fn order_by_clause(sort_by: &str) -> (clause: &'static str)
    ensures
        clause@ == order_by_spec(sort_by@),
{
    if same_text(sort_by, "priority") {
        " ORDER BY priority"
    } else if same_text(sort_by, "started_at") {
        " ORDER BY started_at"
    } else if same_text(sort_by, "finished_at") {
        " ORDER BY finished_at"
    } else {
        " ORDER BY created_at"
    }
}

/// The direction of a sort (see `direction_spec`).
pub fn direction_clause(order: Option<bool>) -> (clause: &'static str)
    ensures
        clause@ == direction_spec(order),
{
    match order {
        Some(true) => " ASC",
        _ => " DESC",
    }
}

/// The SQL of a job listing (see `list_jobs_sql_spec`).
pub fn list_jobs_sql(query: &ListJobsQuery) -> (sql: String)
    ensures
        sql@ == list_jobs_sql_spec(*query),
        query.sort_by matches Some(s) ==> {
            let filter = if query.status is Some {
                " WHERE status = $1"@
            } else {
                ""@
            };
            let paging = if query.status is Some {
                " LIMIT $2 OFFSET $3"@
            } else {
                " LIMIT $1 OFFSET $2"@
            };
            &&& query.order == Some(true) ==> sql@ == "SELECT * FROM jobs"@ + filter + order_by_spec(s@)
                + " ASC"@ + paging
            &&& query.order != Some(true) ==> sql@ == "SELECT * FROM jobs"@ + filter + order_by_spec(
                s@,
            ) + " DESC"@ + paging
        },
{
    let mut sql = String::from_str("SELECT * FROM jobs");
    proof {
        reveal_strlit("");
        assert(sql@ + ""@ =~= sql@);
    }
    if query.status.is_some() {
        sql.append(" WHERE status = $1");
    }
    let ghost filtered = sql@;
    match &query.sort_by {
        Some(s) => {
            sql.append(order_by_clause(s.as_str()));
            sql.append(direction_clause(query.order));
        },
        None => {},
    }
    proof {
        assert(filtered + ""@ =~= filtered);
    }
    if query.status.is_some() {
        sql.append(" LIMIT $2 OFFSET $3");
    } else {
        sql.append(" LIMIT $1 OFFSET $2");
    }
    sql
}

/// The SQL that counts the jobs of a listing (see `count_jobs_sql_spec`).
pub fn count_jobs_sql(query: &ListJobsQuery) -> (sql: String)
    ensures
        sql@ == count_jobs_sql_spec(*query),
{
    if query.status.is_some() {
        String::from_str("SELECT COUNT(id) FROM jobs WHERE status = $1")
    } else {
        String::from_str("SELECT COUNT(id) FROM jobs")
    }
}


/// The detailed statistics: overall counts and counts by job type.
#[derive(Debug, PartialEq, Eq)]
pub struct JobStatsResponse {
    pub overall: JobStats,
    pub by_job_type: Vec<JobStatsByJobType>,
}

} // verus!
