//! The next run of a recurring job, from its cron expression.
use vstd::prelude::*;

use crate::server::error::ServerError;
use crate::time::{now_micros, representable_micros};

verus! {

/// A parsed cron schedule.
#[verifier::external_type_specification]
#[verifier::external_body]
pub struct ExCron(croner::Cron);

/// An error of the cron parser or of the search for an occurrence.
#[verifier::external_type_specification]
#[verifier::external_body]
pub struct ExCronError(croner::errors::CronError);

/// Whether croner's parser accepts the expression (a name for the outcome
/// of `<croner::Cron as FromStr>::from_str`).
pub uninterp spec fn cron_pattern_accepted(expr: Seq<char>) -> bool;

/// `<croner::Cron as FromStr>::from_str`. Claimed: it succeeds exactly on
/// the expressions that `cron_pattern_accepted` names; the schedule is
/// opaque.
#[verifier::external_body]
fn parse_cron(expr: &str) -> (r: Result<croner::Cron, croner::errors::CronError>)
    ensures
        r is Ok <==> cron_pattern_accepted(expr@),
{
    expr.parse::<croner::Cron>()
}

/// The next occurrence that croner finds for the schedule parsed from
/// `expr`, searching forward from the instant `after` (microseconds since
/// the epoch, UTC), including that second or not; `None` when the
/// expression does not parse or the search fails (a name for the outcome of
/// `Cron::find_next_occurrence` on the schedule that
/// `<Cron as FromStr>::from_str` gives for `expr`).
pub uninterp spec fn cron_next_spec(expr: Seq<char>, after: int, inclusive: bool) -> Option<int>;

/// `<croner::Cron as FromStr>::from_str` followed by
/// `croner::Cron::find_next_occurrence` on `DateTime<Utc>`, with instants
/// converted from and to microseconds. The schedule is opaque, so the search
/// is keyed on the expression text. Claimed: the outcome is the one that
/// `cron_next_spec` names (both calls are deterministic in the text, the
/// instant and the flag); an error comes only from a pattern that does not
/// parse or a failed search. And, as croner documents and its walk shows
/// (the start is cut to its whole second): a found occurrence is an instant
/// that `DateTime<Utc>` holds; an exclusive search starts from the next
/// second, so it finds a later instant; an inclusive one starts from the
/// second of `after`, so it finds one less than a second before `after` at
/// the earliest.
#[verifier::external_body]
fn search_next_occurrence(expr: &str, after: i64, inclusive: bool) -> (r: Result<
    i64,
    croner::errors::CronError,
>)
    requires
        representable_micros(after as int),
    ensures
        r is Ok <==> cron_next_spec(expr@, after as int, inclusive) is Some,
        r matches Ok(t) ==> cron_next_spec(expr@, after as int, inclusive) == Some(t as int),
        r is Ok ==> cron_pattern_accepted(expr@),
        r matches Ok(t) ==> representable_micros(t as int),
        r matches Ok(t) ==> !inclusive ==> t > after,
        r matches Ok(t) ==> inclusive ==> t + 1_000_000 > after,
{
    let cron = match expr.parse::<croner::Cron>() {
        Ok(c) => c,
        Err(e) => return Err(e),
    };
    let start = chrono::DateTime::from_timestamp_micros(after).unwrap();
    match cron.find_next_occurrence(&start, inclusive) {
        Ok(next) => Ok(next.timestamp_micros()),
        Err(e) => Err(e),
    }
}

/// The text of the error for an expression that does not parse.
pub open spec fn invalid_cron_message() -> Seq<char> {
    "Invalid cron expression for a recurring job."@
}

/// What `cron_next_time` answers: the next occurrence croner finds, or
/// `None` for an expression that croner does not accept (a `BadRequest`) or
/// whose search fails (an `Internal` error).
pub open spec fn next_time_spec(expr: Seq<char>, after: int, inclusive: bool) -> Option<int> {
    if cron_pattern_accepted(expr) {
        cron_next_spec(expr, after, inclusive)
    } else {
        None
    }
}

/// The next occurrence of the cron expression `expr` after the instant
/// `after` (microseconds), inclusive or not: the one that `cron_next_spec`
/// names.
///
/// An expression that croner does not accept is a `BadRequest` with the
/// text `invalid_cron_message()`; a failed search is an `Internal` error
/// with croner's text.
pub fn cron_next_time(expr: &str, after: i64, inclusive: bool) -> (r: Result<i64, ServerError>)
    requires
        representable_micros(after as int),
    ensures
        !cron_pattern_accepted(expr@) <==> (r matches Err(ServerError::BadRequest(m)) && m@
            == invalid_cron_message()),
        cron_pattern_accepted(expr@) ==> match cron_next_spec(expr@, after as int, inclusive) {
            Some(t) => r matches Ok(x) && x as int == t,
            None => r matches Err(ServerError::Internal(_)),
        },
        r matches Ok(t) ==> representable_micros(t as int),
        r matches Ok(t) ==> !inclusive ==> t > after,
        r matches Ok(t) ==> inclusive ==> t + 1_000_000 > after,
{
    match parse_cron(expr) {
        Ok(_) => {},
        Err(_) => {
            return Err(ServerError::BadRequest("Invalid cron expression for a recurring job.".to_string()));
        },
    }
    match search_next_occurrence(expr, after, inclusive) {
        Ok(t) => Ok(t),
        Err(e) => Err(ServerError::Internal(e.to_string())),
    }
}

/// The next occurrence of `expr` counted from the current time: what
/// `cron_next_time` answers for the instant the clock gives. The clock is
/// read here, so which instant that is is only known to lie at or after the
/// epoch; a system clock set before the epoch panics.
pub fn cron_parsed_to_time(expr: &str, inclusive: bool) -> (r: Result<i64, ServerError>)
    ensures
        !cron_pattern_accepted(expr@) <==> (r matches Err(ServerError::BadRequest(m)) && m@
            == invalid_cron_message()),
        exists|now: i64|
            0 <= now && representable_micros(now as int) && (cron_pattern_accepted(expr@) ==> match cron_next_spec(
                expr@,
                now as int,
                inclusive,
            ) {
                Some(t) => r matches Ok(x) && x as int == t,
                None => r matches Err(ServerError::Internal(_)),
            }),
        r matches Ok(t) ==> representable_micros(t as int),
{
    let now = now_micros();
    cron_next_time(expr, now, inclusive)
}

} // verus!
