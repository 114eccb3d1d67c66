//! What a client of the interface can rely on: how the rows before a request, the request, the answer
//! and the rows after it hang together.

use crate::api::cursor::cursor_place;
use crate::api::error::{
    error_body, law_errors_have_their_status_and_code, ApiError, ErrorBody,
};
use crate::api::health::{live, ready, Health};
use crate::api::jobs::{
    attempt_reports, finish_retry, get_job, is_listing, is_page, law_answers_say_what_is_reported,
    law_attempt_reports_say_what_the_rows_hold, law_pages_hold_the_first_of_the_listing,
    law_pages_hold_what_was_asked_for, law_refused_retries_say_why, law_reports_say_what_the_row_holds,
    law_retries_grant_what_was_asked_for, law_submissions_are_accepted_by_rule, list_dead_jobs,
    list_jobs, list_jobs_with_status, plan_retry, reported, retry_job, submit_job, AttemptSummary,
    JobDetail, JobSummary, ListJobsQuery, ListJobsResponse, RetryJobRequest, SubmitJobRequest,
    SubmitJobResponse,
};
use crate::db::attempts::AttemptRow;
use crate::db::effects::{
    law_attempts_are_listed_by_number, law_listings_go_by_age_then_identifier,
    law_listings_have_a_place_for_every_row, law_lookups_find_the_first_row,
    law_revival_puts_the_dead_job_back,
};
use crate::db::jobs::{JobRow, JobStore};
use crate::db::model::{at_most, attempt_keys, job_of, listed_keys, AttemptRecord, JobRecord};
use crate::db::operations::belongs;
use crate::db::order::{is_order, lemma_order_distinct, rows_at};
use crate::domain::{law_status_text_round_trip, JobStatus};
use crate::ids::uuid_text;
use crate::time::Timestamp;
use crate::validation::ChargePayload;
use vstd::prelude::*;

verus! {

/// The text is one of a status.
pub open spec fn known_status(status: Seq<char>) -> bool {
    status == "PENDING"@ || status == "RUNNING"@ || status == "SUCCEEDED"@ || status == "DEAD"@
}

/// The text, if there is one.
pub open spec fn text_in(s: Option<String>) -> Option<Seq<char>> {
    match s {
        Some(text) => Some(text@),
        None => None,
    }
}

/// The answer says of the job what its row holds.
pub open spec fn tells_of(summary: JobSummary, job: JobRecord) -> bool {
    &&& summary.id == job.id && summary.kind@ == job.kind && summary.payload@ == job.payload
    &&& summary.status is Pending <==> job.status == "PENDING"@
    &&& summary.status is Running <==> job.status == "RUNNING"@
    &&& summary.status is Succeeded <==> job.status == "SUCCEEDED"@
    &&& summary.status is Dead <==> job.status == "DEAD"@
    &&& summary.attempts == job.attempts && summary.max_attempts == job.max_attempts
    &&& summary.next_attempt_at == job.next_attempt_at
    &&& text_in(summary.last_error_code) == job.last_error_code
    &&& text_in(summary.last_error_message) == job.last_error_message
    &&& summary.created_at == job.created_at && summary.updated_at == job.updated_at
    &&& summary.started_at == job.started_at && summary.finished_at == job.finished_at
    &&& summary.version == job.version
}

/// The answer says of the attempt what its row holds.
pub open spec fn tells_of_attempt(summary: AttemptSummary, attempt: AttemptRecord) -> bool {
    &&& summary.attempt_number == attempt.attempt_number && summary.worker_id@ == attempt.worker_id
    &&& summary.started_at == attempt.started_at && summary.finished_at == attempt.finished_at
    &&& text_in(summary.outcome) == attempt.outcome
    &&& text_in(summary.error_code) == attempt.error_code
    &&& text_in(summary.error_message) == attempt.error_message
    &&& summary.scheduled_delay_ms == attempt.scheduled_delay_ms
    &&& summary.duration_ms == attempt.duration_ms
}

proof fn lemma_tells(summary: JobSummary, job: JobRecord)
    ensures
        job.report() is Some <==> known_status(job.status),
        job.report() == Some(summary@) ==> tells_of(summary, job),
{
    law_reports_say_what_the_row_holds(job);
    let attempt: AttemptSummary = arbitrary();
    law_answers_say_what_is_reported(summary, attempt);
}

/// The error has that status and that code.
pub open spec fn refused(e: ApiError, status: u16, code: Seq<char>) -> bool {
    e.status == status && e.code@ == code
}

/// A row is told of in full, unless its status is an unknown one.
pub proof fn law_rows_are_told_of(row: JobRow, r: Result<JobSummary, ApiError>)
    requires
        call_ensures(JobSummary::try_from, (row,), r),
    ensures
        r is Ok <==> known_status(row.status@),
        r matches Ok(summary) ==> tells_of(summary, row@),
        r matches Err(e) ==> refused(e, 500, "INTERNAL"@) && e.message@ == "internal error"@,
{
    law_reports_say_what_the_row_holds(row@);
    law_errors_have_their_status_and_code(seq![]);
    if r is Ok {
        lemma_tells(r->Ok_0, row@);
    }
}

/// So is the row of an attempt.
pub proof fn law_attempt_rows_are_told_of(row: AttemptRow, summary: AttemptSummary)
    requires
        call_ensures(AttemptSummary::from_row, (row,), summary),
    ensures
        tells_of_attempt(summary, row@),
{
    let job: JobSummary = arbitrary();
    law_answers_say_what_is_reported(job, summary);
    law_attempt_reports_say_what_the_rows_hold(seq![row@], 0);
    assert(reported(seq![row@])[0] == row@.report());
}

/// A submission that keeps the rules, under a new identifier, is accepted with 202: a job is added that
/// waits, is due at once and holds what was submitted. Any other leaves the table as it was.
pub proof fn law_submissions_add_jobs(
    store: &mut JobStore,
    body: &SubmitJobRequest,
    decoded: Result<ChargePayload, String>,
    id: u128,
    now: Timestamp,
    r: Result<(u16, SubmitJobResponse), ApiError>,
)
    requires
        call_ensures(submit_job, (store, body, decoded, id, now), r),
    ensures
        ({
            let proper = {
                &&& exists|i: int|
                    0 <= i < body.kind@.len() && !crate::text::white_space(#[trigger] body.kind@[i])
                &&& body.kind@.len() <= 64
                &&& 1 <= body.max_attempts <= 20
                &&& decoded matches Ok(payload) && {
                    &&& exists|i: int|
                        0 <= i < payload.customer_id@.len() && !crate::text::white_space(
                            #[trigger] payload.customer_id@[i],
                        )
                    &&& payload.customer_id@.len() <= 128
                    &&& payload.amount_cents > 0
                    &&& payload.currency@.len() == 3
                    &&& forall|i: int|
                        0 <= i < 3 ==> 'A' <= (#[trigger] payload.currency@[i]) <= 'Z'
                }
            };
            let taken = exists|i: int|
                0 <= i < old(store)@.jobs.len() && (#[trigger] old(store)@.jobs[i]).id == id;
            &&& !proper ==> (r matches Err(e) && refused(e, 400, "INVALID_ARGUMENT"@))
            &&& proper && taken ==> (r matches Err(e) && refused(e, 500, "INTERNAL"@))
            &&& r is Err ==> final(store)@ == old(store)@
            &&& proper && !taken ==> {
                let job = final(store)@.jobs.last();
                &&& final(store)@.attempts == old(store)@.attempts
                &&& final(store)@.jobs == old(store)@.jobs.push(job)
                &&& job.id == id && job.kind == body.kind@ && job.payload == body.payload@
                &&& job.max_attempts == body.max_attempts && job.attempts == 0
                &&& job.status == "PENDING"@
                &&& job.next_attempt_at == now && job.created_at == now && job.updated_at == now
                &&& job.lease_token is None && job.lease_expires_at is None
                &&& job.last_error_code is None && job.last_error_message is None
                &&& job.started_at is None && job.finished_at is None && job.version == 0
                &&& r matches Ok(answer) && {
                    &&& answer.0 == 202
                    &&& answer.1.id == id && answer.1.status is Pending && answer.1.attempts == 0
                    &&& answer.1.max_attempts == body.max_attempts && answer.1.created_at == now
                }
            }
        }),
{
    law_submissions_are_accepted_by_rule(*body, decoded);
    law_lookups_find_the_first_row(old(store)@.jobs, id);
    law_errors_have_their_status_and_code(seq![]);
}

/// Asking for a job tells what its row holds, together with all of its attempts, each once and in the
/// order of their numbers. A job that is not there is answered with 404.
pub proof fn law_jobs_are_told_of_with_their_attempts(
    store: &JobStore,
    id: u128,
    r: Result<JobDetail, ApiError>,
) -> (places: (int, Seq<int>))
    requires
        call_ensures(get_job, (store, id), r),
    ensures
        (forall|i: int| 0 <= i < store@.jobs.len() ==> (#[trigger] store@.jobs[i]).id != id) <==> (
        r matches Err(e) && refused(e, 404, "NOT_FOUND"@)),
        r matches Ok(detail) ==> {
            &&& 0 <= places.0 < store@.jobs.len()
            &&& store@.jobs[places.0].id == id
            &&& tells_of(detail.job, store@.jobs[places.0])
            &&& places.1.no_duplicates()
            &&& forall|k: int|
                0 <= k < store@.attempts.len() ==> (#[trigger] places.1.contains(k)
                    <==> store@.attempts[k].job_id == id)
            &&& detail.attempts.len() == places.1.len()
            &&& forall|p: int|
                0 <= p < places.1.len() ==> tells_of_attempt(
                    #[trigger] detail.attempts@[p],
                    store@.attempts[places.1[p]],
                )
            &&& forall|p: int, q: int|
                0 <= p < q < places.1.len() ==> store@.attempts[
                    #[trigger] places.1[p]].attempt_number <= store@.attempts[
                    #[trigger] places.1[q]].attempt_number
        },
        r matches Err(e) ==> refused(e, 404, "NOT_FOUND"@) || refused(e, 500, "INTERNAL"@),
{
    let jobs = store@.jobs;
    let attempts = store@.attempts;
    law_lookups_find_the_first_row(jobs, id);
    law_errors_have_their_status_and_code("job "@ + uuid_text(id) + " not found"@);
    if r is Ok {
        let detail = r->Ok_0;
        let i = lemma_row_of(jobs, id);
        lemma_tells(detail.job, jobs[i]);
        let order = choose|order: Seq<int>| #[trigger]
            is_order(attempt_keys(attempts, id), order) && attempt_reports(detail.attempts@)
                == reported(rows_at(attempts, order));
        law_attempts_are_listed_by_number(attempts, id, order);
        let rows = rows_at(attempts, order);
        assert(attempt_reports(detail.attempts@).len() == detail.attempts.len());
        assert(reported(rows).len() == rows.len());
        assert forall|p: int| 0 <= p < order.len() implies tells_of_attempt(
            #[trigger] detail.attempts@[p],
            attempts[order[p]],
        ) by {
            assert(attempt_reports(detail.attempts@)[p] == detail.attempts@[p]@);
            assert(reported(rows)[p] == rows[p].report());
            law_attempt_reports_say_what_the_rows_hold(rows, p);
            law_answers_say_what_is_reported(detail.job, detail.attempts@[p]);
            assert(rows[p] == attempts[order[p]]);
        }
        (i, order)
    } else {
        (0, seq![])
    }
}

/// The row that is found under the identifier.
proof fn lemma_row_of(jobs: Seq<JobRecord>, id: u128) -> (i: int)
    requires
        job_of(jobs, id) is Some,
    ensures
        0 <= i < jobs.len(),
        jobs[i].id == id,
        jobs[i] == job_of(jobs, id)->0,
        forall|k: int| 0 <= k < i ==> (#[trigger] jobs[k]).id != id,
    decreases jobs.len(),
{
    let rest = jobs.drop_first();
    if jobs.first().id == id {
        0
    } else {
        let i = lemma_row_of(rest, id);
        assert(rest[i] == jobs[i + 1]);
        assert forall|k: int| 0 <= k < i + 1 implies (#[trigger] jobs[k]).id != id by {
            if k > 0 {
                assert(rest[k - 1].id != id);
            }
        }
        i + 1
    }
}

/// How many jobs a page may hold.
pub open spec fn asked_size(query: ListJobsQuery) -> int {
    match query.limit {
        Some(n) => n as int,
        None => 50,
    }
}

/// The place that a page begins after.
pub open spec fn asked_place(query: ListJobsQuery) -> Option<(Timestamp, u128)> {
    match query.cursor {
        Some(cursor) => cursor_place(cursor@),
        None => None,
    }
}

/// The page holds the rows at the given places, which are the oldest of those that belong to the
/// listing, from the oldest on. A row that belongs and is missing is missing only because the page is
/// full. A cursor is given if and only if it is, and leads to its last job.
pub open spec fn holds_the_oldest(
    jobs: Seq<JobRecord>,
    status: Option<JobStatus>,
    query: ListJobsQuery,
    page: ListJobsResponse,
    places: Seq<int>,
) -> bool {
    let after = asked_place(query);
    &&& 1 <= asked_size(query) <= 200
    &&& query.cursor is Some ==> after is Some
    &&& places.no_duplicates()
    &&& page.items.len() == places.len() <= asked_size(query)
    &&& forall|k: int|
        0 <= k < places.len() ==> {
            &&& 0 <= #[trigger] places[k] < jobs.len()
            &&& belongs(jobs[places[k]], status, after)
            &&& tells_of(page.items@[k], jobs[places[k]])
        }
    &&& forall|i: int|
        0 <= i < jobs.len() && belongs(#[trigger] jobs[i], status, after) && !places.contains(i)
            ==> {
            &&& places.len() == asked_size(query)
            &&& forall|k: int|
                0 <= k < places.len() ==> {
                    let listed = jobs[#[trigger] places[k]];
                    &&& !jobs[i].created_at.before(listed.created_at)
                    &&& listed.created_at == jobs[i].created_at ==> listed.id <= jobs[i].id
                }
        }
    &&& forall|k: int, l: int|
        0 <= k < l < places.len() ==> {
            let first = jobs[#[trigger] places[k]];
            let other = jobs[#[trigger] places[l]];
            &&& !other.created_at.before(first.created_at)
            &&& first.created_at == other.created_at ==> first.id <= other.id
        }
    &&& page.next_cursor is Some <==> places.len() == asked_size(query)
    &&& page.next_cursor matches Some(cursor) ==> {
        let last = jobs[places.last()];
        -62_167_219_200 <= last.created_at.secs <= 253_402_300_799 ==> cursor_place(cursor@) == Some(
            (last.created_at, last.id),
        )
    }
}

proof fn lemma_listing(
    jobs: Seq<JobRecord>,
    status: Option<JobStatus>,
    query: ListJobsQuery,
    page: ListJobsResponse,
) -> (places: Seq<int>)
    requires
        is_listing(jobs, status, query, Ok(page)),
    ensures
        holds_the_oldest(jobs, status, query, page, places),
{
    law_pages_hold_what_was_asked_for(query);
    let after = asked_place(query);
    let size = asked_size(query);
    let order = choose|order: Seq<int>| #[trigger]
        is_order(listed_keys(jobs, status, after), order) && is_page(
            jobs,
            at_most(order, size),
            size,
            Ok(page),
        );
    law_pages_hold_the_first_of_the_listing(jobs, status, query, Ok(page), order);
    lemma_order_distinct(listed_keys(jobs, status, after), order);
    let n = page.items.len() as int;
    let places = order.take(n);
    assert forall|k: int| 0 <= k < places.len() implies {
        &&& 0 <= #[trigger] places[k] < jobs.len()
        &&& belongs(jobs[places[k]], status, after)
        &&& tells_of(page.items@[k], jobs[places[k]])
    } by {
        lemma_tells(page.items@[k], jobs[order[k]]);
        assert(order.contains(order[k]));
        law_listings_have_a_place_for_every_row(jobs, status, after, order, order[k]);
    }
    assert forall|i: int|
        0 <= i < jobs.len() && belongs(#[trigger] jobs[i], status, after) && !places.contains(
            i,
        ) implies {
        &&& places.len() == size
        &&& forall|k: int|
            0 <= k < places.len() ==> {
                let listed = jobs[#[trigger] places[k]];
                &&& !jobs[i].created_at.before(listed.created_at)
                &&& listed.created_at == jobs[i].created_at ==> listed.id <= jobs[i].id
            }
    } by {
        law_listings_have_a_place_for_every_row(jobs, status, after, order, i);
        let q = order.index_of(i);
        if q < n {
            assert(places[q] == i);
        }
        assert forall|k: int| 0 <= k < places.len() implies {
            let listed = jobs[#[trigger] places[k]];
            &&& !jobs[i].created_at.before(listed.created_at)
            &&& listed.created_at == jobs[i].created_at ==> listed.id <= jobs[i].id
        } by {
            law_listings_go_by_age_then_identifier(jobs, status, after, order, k, q);
        }
    }
    assert forall|k: int, l: int| 0 <= k < l < places.len() implies {
        let first = jobs[#[trigger] places[k]];
        let other = jobs[#[trigger] places[l]];
        &&& !other.created_at.before(first.created_at)
        &&& first.created_at == other.created_at ==> first.id <= other.id
    } by {
        law_listings_go_by_age_then_identifier(jobs, status, after, order, k, l);
    }
    places
}

/// A page of jobs holds the oldest of those that were asked for: of all jobs where no status is named,
/// and otherwise of those whose status has that text.
pub proof fn law_pages_hold_the_oldest_jobs(
    store: &JobStore,
    query: &ListJobsQuery,
    page: ListJobsResponse,
) -> (found: (Option<JobStatus>, Seq<int>))
    requires
        call_ensures(list_jobs, (store, query), Ok(page)),
    ensures
        query.status is None ==> found.0 is None,
        query.status matches Some(raw) ==> {
            ||| raw@ == "PENDING"@ && found.0 == Some(JobStatus::Pending)
            ||| raw@ == "RUNNING"@ && found.0 == Some(JobStatus::Running)
            ||| raw@ == "SUCCEEDED"@ && found.0 == Some(JobStatus::Succeeded)
            ||| raw@ == "DEAD"@ && found.0 == Some(JobStatus::Dead)
        },
        holds_the_oldest(store@.jobs, found.0, *query, page, found.1),
{
    match query.status {
        None => {
            let places = lemma_listing(store@.jobs, None, *query, page);
            (None, places)
        },
        Some(raw) => {
            let status = JobStatus::of_text(raw@)->0;
            law_status_text_round_trip(status, raw@);
            let places = lemma_listing(store@.jobs, Some(status), *query, page);
            (Some(status), places)
        },
    }
}

/// A page of dead jobs holds the oldest of the dead.
pub proof fn law_pages_hold_the_oldest_dead_jobs(
    store: &JobStore,
    query: &ListJobsQuery,
    page: ListJobsResponse,
) -> (places: Seq<int>)
    requires
        call_ensures(list_dead_jobs, (store, query), Ok(page)),
    ensures
        holds_the_oldest(store@.jobs, Some(JobStatus::Dead), *query, page, places),
{
    lemma_listing(store@.jobs, Some(JobStatus::Dead), *query, page)
}

/// A page of jobs of one status, or of all, holds the oldest of those.
pub proof fn law_pages_hold_the_oldest_of_a_status(
    store: &JobStore,
    status: Option<JobStatus>,
    query: &ListJobsQuery,
    page: ListJobsResponse,
) -> (places: Seq<int>)
    requires
        call_ensures(list_jobs_with_status, (store, status, query), Ok(page)),
    ensures
        holds_the_oldest(store@.jobs, status, *query, page, places),
{
    lemma_listing(store@.jobs, status, *query, page)
}

/// A page is refused with 400 if and only if it asks for fewer than 1 or more than 200 jobs, has a cursor
/// that leads nowhere, or names a status that there is not. It fails otherwise only over a row whose
/// status is an unknown one.
pub proof fn law_refused_pages_say_why(
    store: &JobStore,
    query: &ListJobsQuery,
    r: Result<ListJobsResponse, ApiError>,
)
    requires
        call_ensures(list_jobs, (store, query), r),
    ensures
        (r matches Err(e) && refused(e, 400, "INVALID_ARGUMENT"@)) <==> {
            ||| asked_size(*query) < 1
            ||| asked_size(*query) > 200
            ||| query.cursor is Some && asked_place(*query) is None
            ||| query.status matches Some(raw) && !known_status(raw@)
        },
        r matches Err(e) ==> refused(e, 400, "INVALID_ARGUMENT"@) || refused(e, 500, "INTERNAL"@)
            && exists|i: int|
            0 <= i < store@.jobs.len() && !known_status((#[trigger] store@.jobs[i]).status),
{
    let jobs = store@.jobs;
    law_pages_hold_what_was_asked_for(*query);
    law_errors_have_their_status_and_code(seq![]);
    law_status_text_round_trip(JobStatus::Pending, seq![]);
    let status = match query.status {
        None => None,
        Some(raw) => JobStatus::of_text(raw@),
    };
    if query.status is Some {
        let raw = query.status->0@;
        law_status_text_round_trip(JobStatus::Pending, raw);
        law_status_text_round_trip(JobStatus::Running, raw);
        law_status_text_round_trip(JobStatus::Succeeded, raw);
        law_status_text_round_trip(JobStatus::Dead, raw);
    }
    let named = query.status matches Some(raw) ==> known_status(raw@);
    let size = asked_size(*query);
    let after = asked_place(*query);
    if named && 1 <= size <= 200 && (query.cursor is Some ==> after is Some) {
        let order = choose|order: Seq<int>| #[trigger]
            is_order(listed_keys(jobs, status, after), order) && is_page(
                jobs,
                at_most(order, size),
                size,
                r,
            );
        let places = at_most(order, size);
        if r is Err {
            let k = choose|k: int|
                0 <= k < places.len() && (#[trigger] jobs[places[k]]).report() is None;
            let none: JobSummary = arbitrary();
            lemma_tells(none, jobs[places[k]]);
            assert(places[k] == order[k]);
            assert(!known_status(jobs[order[k]].status));
        }
    }
}

/// A retry is planned if and only if the job is there, is dead and, where a number of attempts is asked
/// for, that is one from 1 to 20 and greater than the attempts made so far. It is then allowed exactly
/// that number, or else five more than the attempts made so far.
pub proof fn law_planned_retries_grant_what_was_asked_for(
    id: u128,
    row: JobRow,
    body: Option<RetryJobRequest>,
    r: Result<i32, ApiError>,
)
    requires
        call_ensures(plan_retry, (id, &Some(row), body), r),
        row.attempts <= i32::MAX - 5,
    ensures
        ({
            let requested = match body {
                Some(b) => b.max_attempts,
                None => None,
            };
            &&& r is Ok <==> row.status@ == "DEAD"@ && (requested matches Some(n) ==> 1 <= n <= 20
                && n > row.attempts)
            &&& r matches Ok(granted) ==> {
                &&& requested matches Some(n) ==> granted == n
                &&& requested is None ==> granted == row.attempts + 5
            }
            &&& r matches Err(e) ==> if row.status@ == "DEAD"@ {
                refused(e, 400, "INVALID_ARGUMENT"@)
            } else if known_status(row.status@) {
                refused(e, 409, "INVALID_STATE"@)
            } else {
                refused(e, 500, "INTERNAL"@)
            }
        }),
{
    let requested = match body {
        Some(b) => b.max_attempts,
        None => None,
    };
    let s = crate::db::model::QueueState { jobs: seq![row@], attempts: seq![] };
    law_retries_grant_what_was_asked_for(s, 0, requested, row.created_at);
    law_refused_retries_say_why(id, Some(row@), requested);
}

/// There is no retry of a job that is not there.
pub proof fn law_missing_jobs_are_not_retried(
    id: u128,
    body: Option<RetryJobRequest>,
    r: Result<i32, ApiError>,
)
    requires
        call_ensures(plan_retry, (id, &None::<JobRow>, body), r),
    ensures
        r matches Err(e) && refused(e, 404, "NOT_FOUND"@),
{
    law_errors_have_their_status_and_code("job "@ + uuid_text(id) + " not found"@);
}

/// The end of a retry tells of the row that was put back, or that there was none.
pub proof fn law_finished_retries_are_told_of(
    id: u128,
    row: Option<JobRow>,
    r: Result<JobSummary, ApiError>,
)
    requires
        call_ensures(finish_retry, (id, row), r),
    ensures
        row is None ==> (r matches Err(e) && refused(e, 409, "INVALID_STATE"@)),
        row matches Some(found) ==> {
            &&& r is Ok <==> known_status(found.status@)
            &&& r matches Ok(summary) ==> tells_of(summary, found@)
        },
{
    if row is Some {
        let none: JobSummary = arbitrary();
        lemma_tells(none, row->0@);
        if r is Ok {
            lemma_tells(r->Ok_0, row->0@);
        }
    }
}

/// A retry that is granted puts the job back, due at once, with exactly the number of attempts that was
/// asked for, or five more than were made so far where none was. One that is refused changes nothing. No
/// other job is touched.
pub proof fn law_retried_jobs_have_what_was_asked_for(
    store: &mut JobStore,
    id: u128,
    body: Option<RetryJobRequest>,
    now: Timestamp,
    r: Result<JobSummary, ApiError>,
    i: int,
)
    requires
        call_ensures(retry_job, (store, id, body, now), r),
        0 <= i < old(store)@.jobs.len(),
        old(store)@.jobs[i].id == id,
        forall|k: int| 0 <= k < i ==> (#[trigger] old(store)@.jobs[k]).id != id,
        old(store)@.jobs[i].attempts <= i32::MAX - 5,
    ensures
        ({
            let requested = match body {
                Some(b) => b.max_attempts,
                None => None,
            };
            let before = old(store)@.jobs[i];
            let after = final(store)@.jobs[i];
            &&& r is Ok <==> before.status == "DEAD"@ && (requested matches Some(n) ==> 1 <= n <= 20
                && n > before.attempts)
            &&& r is Err ==> final(store)@ == old(store)@
            &&& r matches Ok(summary) ==> {
                &&& requested matches Some(n) ==> after.max_attempts == n
                &&& requested is None ==> after.max_attempts == before.attempts + 5
                &&& after.status == "PENDING"@ && after.attempts == before.attempts
                &&& after.next_attempt_at == now && after.updated_at == now
                &&& after.lease_token is None && after.lease_expires_at is None
                &&& after.last_error_code is None && after.last_error_message is None
                &&& after.finished_at is None && after.started_at == before.started_at
                &&& after.id == before.id && after.kind == before.kind && after.payload
                    == before.payload && after.created_at == before.created_at && after.version
                    == before.version
                &&& tells_of(summary, after)
            }
        }),
        final(store)@.attempts == old(store)@.attempts,
        final(store)@.jobs.len() == old(store)@.jobs.len(),
        forall|k: int|
            0 <= k < old(store)@.jobs.len() && (#[trigger] old(store)@.jobs[k]).id != id
                ==> final(store)@.jobs[k] == old(store)@.jobs[k],
{
    let s = old(store)@;
    let job = s.jobs[i];
    let requested = match body {
        Some(b) => b.max_attempts,
        None => None,
    };
    law_lookups_find_the_first_row(s.jobs, id);
    assert(job_of(s.jobs, id) == Some(job));
    law_retries_grant_what_was_asked_for(s, i, requested, now);
    if r is Ok {
        let granted = crate::api::jobs::retry_budget(id, Some(job), requested)->Ok_0 as i32;
        law_revival_puts_the_dead_job_back(s, id, granted, now, i);
        lemma_tells(r->Ok_0, job.revived(granted, now));
        assert(final(store)@.jobs[i] == job.revived(granted, now));
        assert forall|k: int| 0 <= k < s.jobs.len() && (#[trigger] s.jobs[k]).id != id implies final(store)@.jobs[k]
            == s.jobs[k] by {
            law_revival_puts_the_dead_job_back(s, id, granted, now, k);
        }
    }
}

/// A retry of a job that is not there is answered with 404, and changes nothing.
pub proof fn law_retries_of_missing_jobs_change_nothing(
    store: &mut JobStore,
    id: u128,
    body: Option<RetryJobRequest>,
    now: Timestamp,
    r: Result<JobSummary, ApiError>,
)
    requires
        call_ensures(retry_job, (store, id, body, now), r),
        forall|i: int| 0 <= i < old(store)@.jobs.len() ==> (#[trigger] old(store)@.jobs[i]).id != id,
    ensures
        r matches Err(e) && refused(e, 404, "NOT_FOUND"@),
        final(store)@ == old(store)@,
{
    law_lookups_find_the_first_row(old(store)@.jobs, id);
    law_errors_have_their_status_and_code("job "@ + uuid_text(id) + " not found"@);
}

/// The body of an error carries its code, its message and the identifier of the request.
pub proof fn law_error_bodies_say_what_went_wrong(
    err: ApiError,
    request_id: String,
    body: ErrorBody,
)
    requires
        call_ensures(error_body, (err, request_id), body),
    ensures
        body.error.code@ == err.code@,
        body.error.message@ == err.message@,
        body.error.request_id@ == request_id@,
{
}

/// The service is live whenever it answers, and ready if and only if its database can be reached.
pub proof fn law_readiness_follows_the_database(reachable: bool, alive: Health, prepared: Health)
    requires
        call_ensures(live, (), alive),
        call_ensures(ready, (reachable,), prepared),
    ensures
        alive.code == 200 && alive.status@ == "ok"@,
        reachable ==> prepared.code == 200 && prepared.status@ == "ok"@,
        !reachable ==> prepared.code == 503 && prepared.status@ == "unavailable"@,
        prepared.reason is None <==> reachable,
{
}

/// Each kind of error comes with its status and its code, and with the message that it was made of.
pub proof fn law_errors_are_what_they_are_called(message: String, e: ApiError)
    ensures
        call_ensures(ApiError::invalid_argument, (message,), e) ==> refused(
            e,
            400,
            "INVALID_ARGUMENT"@,
        ) && e.message@ == message@,
        call_ensures(ApiError::not_found, (message,), e) ==> refused(e, 404, "NOT_FOUND"@)
            && e.message@ == message@,
        call_ensures(ApiError::invalid_state, (message,), e) ==> refused(e, 409, "INVALID_STATE"@)
            && e.message@ == message@,
        call_ensures(ApiError::internal, (message,), e) ==> refused(e, 500, "INTERNAL"@)
            && e.message@ == message@,
{
}

} // verus!
