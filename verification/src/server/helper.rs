//! Rescheduling of completed recurring jobs.
use vstd::prelude::*;

use crate::server::error::ServerError;
use crate::server::utils::{cron_next_time, next_time_spec};
use crate::shared::models::{CreateJob, JobStatus, RecurringJob, RunMode};
use crate::text::same_text;
use crate::time::representable_micros;

verus! {

/// How many jobs of one type a rescheduling run created.
#[derive(Debug)]
pub struct JobTypeCount {
    pub job_type: String,
    pub count: u64,
}

/// What one rescheduling run does: the jobs to insert, the ids of the jobs
/// they replace (to be marked as rescheduled), and how many new jobs there
/// are of each type.
#[derive(Debug)]
pub struct ReschedulePlan {
    pub new_jobs: Vec<CreateJob>,
    pub job_ids: Vec<uuid::Uuid>,
    pub job_type_counts: Vec<JobTypeCount>,
}

/// The first job of the chain that a recurring job belongs to: its parent,
/// or itself when it has none.
pub open spec fn root_id(job: RecurringJob) -> uuid::Uuid {
    match job.parent_job_id {
        Some(parent) => parent,
        None => job.id,
    }
}

/// When the next run of a job with cron expression `expr`, planned at
/// `now`, is due: the next occurrence after `now` that croner finds, or
/// `now` itself when the expression does not parse or the search finds none.
pub open spec fn next_run_at(expr: Seq<char>, now: i64) -> int {
    match next_time_spec(expr, now as int, false) {
        Some(t) => t,
        None => now as int,
    }
}

/// `child` is the next run of the recurring job `job`, planned at `now`: a
/// pending recurring job with the same type, payload, cron expression,
/// priority and retry limit, created at `now`, whose parent is the first job
/// of the chain, and which runs at `next_run_at` its cron expression.
pub open spec fn rescheduled_from(job: RecurringJob, child: CreateJob, now: i64) -> bool {
    &&& child.job_type@ == job.job_type@
    &&& child.payload == job.payload
    &&& child.cron_expression matches Some(c) && c@ == job.cron_expression@
    &&& child.status == JobStatus::Pending
    &&& child.priority == job.priority
    &&& child.max_retries == job.max_retries
    &&& child.created_at == now
    &&& child.run_mode == RunMode::Recurring
    &&& child.parent_job_id == Some(root_id(job))
    &&& child.run_at as int == next_run_at(job.cron_expression@, now)
}

/// The job types of a sequence of jobs.
pub open spec fn job_types(jobs: Seq<RecurringJob>) -> Seq<Seq<char>> {
    jobs.map_values(|j: RecurringJob| j.job_type@)
}

/// How many times `t` occurs in `types`.
pub open spec fn occurrences(types: Seq<Seq<char>>, t: Seq<char>) -> nat
    decreases types.len(),
{
    if types.len() == 0 {
        0
    } else {
        occurrences(types.drop_last(), t) + if types.last() == t {
            1nat
        } else {
            0nat
        }
    }
}

/// Each job type appears at most once in `counts`.
pub open spec fn distinct_types(counts: Seq<JobTypeCount>) -> bool {
    forall|i: int, j: int|
        0 <= i < j < counts.len() ==> #[trigger] counts[i].job_type@ != #[trigger] counts[j].job_type@
}

/// Every type of `types` appears in `counts`.
pub open spec fn covers(counts: Seq<JobTypeCount>, types: Seq<Seq<char>>) -> bool {
    forall|k: int| 0 <= k < types.len() ==> #[trigger] has_type(counts, types[k])
}

/// Some entry of `counts` is for the type `t`.
pub open spec fn has_type(counts: Seq<JobTypeCount>, t: Seq<char>) -> bool {
    exists|i: int| 0 <= i < counts.len() && #[trigger] counts[i].job_type@ == t
}

/// `counts` tallies `types`: each type appears in it once, with the number
/// of its occurrences, and every type of `types` appears.
pub open spec fn tallies(counts: Seq<JobTypeCount>, types: Seq<Seq<char>>) -> bool {
    &&& distinct_types(counts)
    &&& forall|i: int|
        0 <= i < counts.len() ==> #[trigger] counts[i].count as nat == occurrences(
            types,
            counts[i].job_type@,
        )
    &&& covers(counts, types)
}

/// Replacing entries by entries of the same types keeps every type covered,
/// and a type already present is covered too.
proof fn lemma_cover_same_types(
    before: Seq<JobTypeCount>,
    after: Seq<JobTypeCount>,
    types: Seq<Seq<char>>,
    t: Seq<char>,
)
    requires
        covers(before, types),
        before.len() <= after.len(),
        forall|j: int| 0 <= j < before.len() ==> #[trigger] after[j].job_type@ == before[j].job_type@,
        has_type(after, t),
    ensures
        covers(after, types.push(t)),
{
    let new_types = types.push(t);
    assert forall|k: int| 0 <= k < new_types.len() implies #[trigger] has_type(after, new_types[k]) by {
        if k < types.len() {
            assert(new_types[k] == types[k]);
            assert(has_type(before, types[k]));
            let m = choose|m: int| 0 <= m < before.len() && #[trigger] before[m].job_type@ == types[k];
            assert(after[m].job_type@ == new_types[k]);
        }
    }
}

/// The text of the error for a run that finds nothing to reschedule.
pub open spec fn nothing_to_reschedule_message() -> Seq<char> {
    "No recurring jobs found to be rescheduled"@
}

proof fn lemma_occurrences_push(types: Seq<Seq<char>>, t: Seq<char>, u: Seq<char>)
    ensures
        occurrences(types.push(u), t) == occurrences(types, t) + if u == t {
            1nat
        } else {
            0nat
        },
{
    assert(types.push(u).drop_last() =~= types);
}

proof fn lemma_occurrences_bound(types: Seq<Seq<char>>, t: Seq<char>)
    ensures
        occurrences(types, t) <= types.len(),
    decreases types.len(),
{
    if types.len() > 0 {
        lemma_occurrences_bound(types.drop_last(), t);
    }
}

/// Counting one more job of a type that the tally already holds keeps it a
/// tally.
proof fn lemma_tally_increment(
    before: Seq<JobTypeCount>,
    after: Seq<JobTypeCount>,
    types: Seq<Seq<char>>,
    t: Seq<char>,
    i: int,
)
    requires
        tallies(before, types),
        0 <= i < before.len(),
        before[i].job_type@ == t,
        after.len() == before.len(),
        after[i].job_type@ == t,
        after[i].count == before[i].count + 1,
        forall|j: int| 0 <= j < before.len() && j != i ==> #[trigger] after[j] == before[j],
    ensures
        tallies(after, types.push(t)),
{
    let new_types = types.push(t);
    assert forall|j: int| 0 <= j < after.len() implies #[trigger] after[j].count as nat == occurrences(
        new_types,
        after[j].job_type@,
    ) by {
        lemma_occurrences_push(types, after[j].job_type@, t);
        if j != i {
            assert(after[j] == before[j]);
            assert(before[j].job_type@ != before[i].job_type@);
        }
    }
    assert forall|a: int, b: int| 0 <= a < b < after.len() implies #[trigger] after[a].job_type@
        != #[trigger] after[b].job_type@ by {
        if a != i {
            assert(after[a] == before[a]);
        }
        if b != i {
            assert(after[b] == before[b]);
        }
        assert(before[a].job_type@ != before[b].job_type@);
    }
    assert forall|j: int| 0 <= j < before.len() implies #[trigger] after[j].job_type@
        == before[j].job_type@ by {
        if j != i {
            assert(after[j] == before[j]);
        }
    }
    assert(has_type(after, t)) by {
        assert(after[i].job_type@ == t);
    }
    lemma_cover_same_types(before, after, types, t);
}

/// Counting a job of a type that the tally does not hold yet, as a new
/// entry of count one, keeps it a tally.
proof fn lemma_tally_new_type(
    before: Seq<JobTypeCount>,
    after: Seq<JobTypeCount>,
    types: Seq<Seq<char>>,
    t: Seq<char>,
)
    requires
        tallies(before, types),
        forall|j: int| 0 <= j < before.len() ==> #[trigger] before[j].job_type@ != t,
        after.len() == before.len() + 1,
        forall|j: int| 0 <= j < before.len() ==> #[trigger] after[j] == before[j],
        after[before.len() as int].job_type@ == t,
        after[before.len() as int].count == 1,
    ensures
        tallies(after, types.push(t)),
{
    let new_types = types.push(t);
    let n = before.len() as int;
    assert(occurrences(types, t) == 0) by {
        if occurrences(types, t) > 0 {
            lemma_occurrence_position(types, t);
            let k = choose|k: int| 0 <= k < types.len() && types[k] == t;
            assert(has_type(before, types[k]));
            let m = choose|m: int| 0 <= m < before.len() && #[trigger] before[m].job_type@ == types[k];
            assert(before[m].job_type@ != t);
        }
    }
    assert forall|j: int| 0 <= j < after.len() implies #[trigger] after[j].count as nat == occurrences(
        new_types,
        after[j].job_type@,
    ) by {
        lemma_occurrences_push(types, after[j].job_type@, t);
        if j < n {
            assert(after[j] == before[j]);
        }
    }
    assert forall|a: int, b: int| 0 <= a < b < after.len() implies #[trigger] after[a].job_type@
        != #[trigger] after[b].job_type@ by {
        assert(after[a] == before[a]);
        if b < n {
            assert(after[b] == before[b]);
            assert(before[a].job_type@ != before[b].job_type@);
        } else {
            assert(before[a].job_type@ != t);
        }
    }
    assert(has_type(after, t)) by {
        assert(after[n].job_type@ == t);
    }
    lemma_cover_same_types(before, after, types, t);
}

/// Adds one job of type `job_type` to the tally `counts`.
fn count_job_type(counts: &mut Vec<JobTypeCount>, job_type: &String, Ghost(types): Ghost<
    Seq<Seq<char>>,
>)
    requires
        tallies(old(counts)@, types),
        types.len() < u64::MAX,
    ensures
        tallies(final(counts)@, types.push(job_type@)),
{
    proof {
        lemma_occurrences_bound(types, job_type@);
    }
    let n = counts.len();
    let mut i: usize = 0;
    while i < n
        invariant
            n == counts.len(),
            counts@ == old(counts)@,
            tallies(counts@, types),
            types.len() < u64::MAX,
            occurrences(types, job_type@) <= types.len(),
            i <= n,
            forall|j: int| 0 <= j < i ==> #[trigger] counts@[j].job_type@ != job_type@,
        decreases n - i,
    {
        if same_text(counts[i].job_type.as_str(), job_type.as_str()) {
            let ghost before = counts@;
            let count = counts[i].count + 1;
            let name = counts[i].job_type.clone();
            counts.set(i, JobTypeCount { job_type: name, count });
            proof {
                lemma_tally_increment(before, counts@, types, job_type@, i as int);
            }
            return;
        }
        i = i + 1;
    }
    let ghost before = counts@;
    counts.push(JobTypeCount { job_type: job_type.clone(), count: 1 });
    proof {
        lemma_tally_new_type(before, counts@, types, job_type@);
    }
}

/// If `t` occurs in `types`, some position of `types` holds it.
proof fn lemma_occurrence_position(types: Seq<Seq<char>>, t: Seq<char>)
    requires
        occurrences(types, t) > 0,
    ensures
        exists|k: int| 0 <= k < types.len() && types[k] == t,
    decreases types.len(),
{
    if types.last() != t {
        lemma_occurrence_position(types.drop_last(), t);
        let k = choose|k: int| 0 <= k < types.drop_last().len() && types.drop_last()[k] == t;
        assert(types[k] == t);
    } else {
        assert(types[types.len() - 1] == t);
    }
}

/// Plans the next run of each completed recurring job, at the instant `now`
/// (microseconds).
///
/// With no jobs the run is refused with `NotFound` and the text
/// `nothing_to_reschedule_message()`. Otherwise the i-th new job is
/// `rescheduled_from` the i-th job, the ids are those of the jobs in their
/// order, and the counts tally the job types.
pub fn plan_reschedule(jobs: Vec<RecurringJob>, now: i64) -> (r: Result<ReschedulePlan, ServerError>)
    requires
        representable_micros(now as int),
    ensures
        jobs@.len() == 0 ==> (r matches Err(ServerError::NotFound(m)) && m@
            == nothing_to_reschedule_message()),
        jobs@.len() > 0 ==> (r matches Ok(plan) && {
            &&& plan.new_jobs@.len() == jobs@.len()
            &&& forall|i: int|
                0 <= i < jobs@.len() ==> rescheduled_from(
                    #[trigger] jobs@[i],
                    plan.new_jobs@[i],
                    now,
                )
            &&& plan.job_ids@ == jobs@.map_values(|j: RecurringJob| j.id)
            &&& tallies(plan.job_type_counts@, job_types(jobs@))
            &&& total_count(plan.job_type_counts@) == jobs@.len()
            &&& forall|i: int|
                0 <= i < jobs@.len() ==> (#[trigger] plan.new_jobs@[i]).priority == jobs@[i].priority
                    && plan.new_jobs@[i].max_retries == jobs@[i].max_retries
                    && plan.new_jobs@[i].job_type@ == jobs@[i].job_type@
                    && plan.new_jobs@[i].status == JobStatus::Pending
        }),
{
    if jobs.len() == 0 {
        return Err(ServerError::NotFound("No recurring jobs found to be rescheduled".to_string()));
    }
    let ghost all = jobs@;
    let mut job_ids: Vec<uuid::Uuid> = Vec::new();
    let mut new_jobs: Vec<CreateJob> = Vec::new();
    let mut counts: Vec<JobTypeCount> = Vec::new();
    proof {
        assert(job_types(all).take(0) =~= Seq::<Seq<char>>::empty());
    }
    for job in it: jobs.into_iter()
        invariant
            it.seq() == all,
            representable_micros(now as int),
            all.len() <= u64::MAX,
            new_jobs@.len() == it.index(),
            job_ids@.len() == it.index(),
            forall|i: int| 0 <= i < it.index() ==> rescheduled_from(#[trigger] all[i], new_jobs@[i], now),
            forall|i: int| 0 <= i < it.index() ==> #[trigger] job_ids@[i] == all[i].id,
            tallies(counts@, job_types(all).take(it.index() as int)),
    {
        let ghost idx = it.index();
        job_ids.push(job.id);
        let run_at = match cron_next_time(job.cron_expression.as_str(), now, false) {
            Ok(t) => t,
            Err(_) => now,
        };
        proof {
            assert(job_types(all).take(idx + 1) =~= job_types(all).take(idx as int).push(job.job_type@));
        }
        count_job_type(&mut counts, &job.job_type, Ghost(job_types(all).take(idx as int)));
        let parent_job_id = match job.parent_job_id {
            Some(parent) => parent,
            None => job.id,
        };
        new_jobs.push(CreateJob {
            job_type: job.job_type,
            payload: job.payload,
            status: JobStatus::Pending,
            priority: job.priority,
            max_retries: job.max_retries,
            created_at: now,
            run_at,
            run_mode: RunMode::Recurring,
            cron_expression: Some(job.cron_expression),
            parent_job_id: Some(parent_job_id),
        });
    }
    proof {
        assert(job_types(all).take(all.len() as int) =~= job_types(all));
        assert(job_ids@ =~= all.map_values(|j: RecurringJob| j.id));
        lemma_tally_counts_every_job(counts@, job_types(all));
    }
    Ok(ReschedulePlan { new_jobs, job_ids, job_type_counts: counts })
}


/// The sum of the counts of a tally.
pub open spec fn total_count(counts: Seq<JobTypeCount>) -> int
    decreases counts.len(),
{
    if counts.len() == 0 {
        0
    } else {
        total_count(counts.drop_last()) + counts.last().count
    }
}

/// `types` without the occurrences of `t`.
pub open spec fn without_type(types: Seq<Seq<char>>, t: Seq<char>) -> Seq<Seq<char>>
    decreases types.len(),
{
    if types.len() == 0 {
        types
    } else if types.last() == t {
        without_type(types.drop_last(), t)
    } else {
        without_type(types.drop_last(), t).push(types.last())
    }
}

proof fn lemma_without_type(types: Seq<Seq<char>>, t: Seq<char>)
    ensures
        without_type(types, t).len() + occurrences(types, t) == types.len(),
        forall|u: Seq<char>|
            #[trigger] occurrences(without_type(types, t), u) == if u == t {
                0
            } else {
                occurrences(types, u)
            },
        forall|k: int|
            0 <= k < without_type(types, t).len() ==> #[trigger] without_type(types, t)[k] != t
                && types.contains(without_type(types, t)[k]),
    decreases types.len(),
{
    if types.len() > 0 {
        let rest = types.drop_last();
        lemma_without_type(rest, t);
        let w = without_type(types, t);
        let wr = without_type(rest, t);
        assert forall|u: Seq<char>| #[trigger]
            occurrences(w, u) == if u == t {
                0
            } else {
                occurrences(types, u)
            } by {
            assert(occurrences(types, u) == occurrences(rest, u) + if types.last() == u {
                1nat
            } else {
                0nat
            });
            if types.last() != t {
                lemma_occurrences_push(wr, u, types.last());
            }
        }
        assert forall|k: int| 0 <= k < w.len() implies #[trigger] w[k] != t && types.contains(w[k]) by {
            if k < wr.len() {
                assert(w[k] == wr[k]);
                let j = choose|j: int| 0 <= j < rest.len() && rest[j] == wr[k];
                assert(types[j] == w[k]);
            } else {
                assert(w[k] == types[types.len() - 1]);
            }
        }
    }
}

/// Every rescheduled job is counted once: the counts of a tally of `types`
/// add up to the number of types in it.
pub proof fn lemma_tally_counts_every_job(counts: Seq<JobTypeCount>, types: Seq<Seq<char>>)
    requires
        tallies(counts, types),
    ensures
        total_count(counts) == types.len(),
    decreases counts.len(),
{
    if counts.len() == 0 {
        if types.len() > 0 {
            assert(has_type(counts, types[0]));
        }
    } else {
        let rest = counts.drop_last();
        let last = counts.last();
        let t = last.job_type@;
        let remaining = without_type(types, t);
        lemma_without_type(types, t);
        assert forall|i: int| 0 <= i < rest.len() implies #[trigger] rest[i].count as nat
            == occurrences(remaining, rest[i].job_type@) by {
            assert(rest[i] == counts[i]);
            assert(counts[i].job_type@ != counts[counts.len() - 1].job_type@);
        }
        assert forall|k: int| 0 <= k < remaining.len() implies #[trigger] has_type(
            rest,
            remaining[k],
        ) by {
            let j = choose|j: int| 0 <= j < types.len() && types[j] == remaining[k];
            assert(has_type(counts, types[j]));
            let i = choose|i: int| 0 <= i < counts.len() && #[trigger] counts[i].job_type@ == types[j];
            assert(i != counts.len() - 1);
            assert(rest[i].job_type@ == remaining[k]);
        }
        assert(distinct_types(rest)) by {
            assert forall|a: int, b: int| 0 <= a < b < rest.len() implies #[trigger] rest[a].job_type@
                != #[trigger] rest[b].job_type@ by {
                assert(counts[a].job_type@ != counts[b].job_type@);
            }
        }
        lemma_tally_counts_every_job(rest, remaining);
        assert(last.count as nat == occurrences(types, t));
    }
}

/// A rescheduled job keeps the priority, retry limit, type and payload of
/// the job it replaces, whatever that job's parent, and starts pending.
pub proof fn lemma_reschedule_keeps_job_settings(job: RecurringJob, child: CreateJob, now: i64)
    requires
        rescheduled_from(job, child, now),
    ensures
        child.priority == job.priority,
        child.max_retries == job.max_retries,
        child.job_type@ == job.job_type@,
        child.payload == job.payload,
        child.status == JobStatus::Pending,
        child.created_at == now,
{
}

/// Every job of a recurring chain points at the chain's first job: a job
/// rescheduled from `job`, once stored and read back as `next` (with any id),
/// has the same first job as `job`.
pub proof fn lemma_reschedule_keeps_chain_root(
    job: RecurringJob,
    child: CreateJob,
    now: i64,
    next: RecurringJob,
)
    requires
        rescheduled_from(job, child, now),
        next.parent_job_id == child.parent_job_id,
    ensures
        root_id(next) == root_id(job),
{
}

} // verus!
