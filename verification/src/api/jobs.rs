//! Submitting, reading, listing and retrying jobs.

use crate::api::cursor::{cursor_place, cursor_text, decode_cursor, encode_cursor};
use crate::api::error::{ApiError, ApiFault};
use crate::db::attempts::{list_for_job, AttemptRow};
use crate::db::jobs::{
    get_job_by_id, insert_job, job_records, list_jobs as list_job_rows, retry_dead_job, JobRow,
    JobStore,
};
use crate::db::model::{
    at_most, attempt_keys, has_job, job_of, listed_keys, AttemptRecord, JobRecord, QueueState,
};
use crate::db::order::{is_order, lemma_order_unique, rows_at};
use crate::domain::JobStatus;
use crate::ids::{format_uuid, uuid_text};
use crate::text::{
    debug_quoted, decimal, decimal_text, join2, join3, opt_text, quoted, signed_decimal, signed_text,
};
use crate::time::Timestamp;
use crate::validation::{
    kind_fault, parse_charge_payload, payload_fault, validate_kind, validate_max_attempts,
    ChargePayload, ValidationError,
};
use vstd::prelude::*;

verus! {

pub const DEFAULT_MAX_ATTEMPTS: i32 = 5;

pub const DEFAULT_LIST_LIMIT: i64 = 50;

pub const MAX_LIST_LIMIT: i64 = 200;

/// How many attempts a retry grants that does not say how many.
pub const DEFAULT_RETRY_BUDGET_INCREMENT: i32 = 5;

/// The attempts that a submission is allowed if it does not say how many.
pub fn default_max_attempts() -> (n: i32)
    ensures
        n == 5,
{
    DEFAULT_MAX_ATTEMPTS
}

// ---------------------------------------------------------------------------------------------
// Requests and answers
// ---------------------------------------------------------------------------------------------

/// A job to be submitted. The payload is JSON text.
#[derive(Debug)]
pub struct SubmitJobRequest {
    pub kind: String,
    pub payload: String,
    pub max_attempts: i32,
}

#[derive(Debug, Clone, Copy)]
pub struct SubmitJobResponse {
    pub id: u128,
    pub status: JobStatus,
    pub attempts: i32,
    pub max_attempts: i32,
    pub created_at: Timestamp,
}

/// What the world may know of a job: everything but its lease.
#[derive(Debug)]
pub struct JobSummary {
    pub id: u128,
    pub kind: String,
    pub payload: String,
    pub status: JobStatus,
    pub attempts: i32,
    pub max_attempts: i32,
    pub next_attempt_at: Timestamp,
    pub last_error_code: Option<String>,
    pub last_error_message: Option<String>,
    pub created_at: Timestamp,
    pub updated_at: Timestamp,
    pub started_at: Option<Timestamp>,
    pub finished_at: Option<Timestamp>,
    pub version: i64,
}

/// What a [`JobSummary`] holds.
#[verifier::ext_equal]
pub struct JobReport {
    pub id: u128,
    pub kind: Seq<char>,
    pub payload: Seq<char>,
    pub status: JobStatus,
    pub attempts: i32,
    pub max_attempts: i32,
    pub next_attempt_at: Timestamp,
    pub last_error_code: Option<Seq<char>>,
    pub last_error_message: Option<Seq<char>>,
    pub created_at: Timestamp,
    pub updated_at: Timestamp,
    pub started_at: Option<Timestamp>,
    pub finished_at: Option<Timestamp>,
    pub version: i64,
}

impl View for JobSummary {
    type V = JobReport;

    open spec fn view(&self) -> JobReport {
        JobReport {
            id: self.id,
            kind: self.kind@,
            payload: self.payload@,
            status: self.status,
            attempts: self.attempts,
            max_attempts: self.max_attempts,
            next_attempt_at: self.next_attempt_at,
            last_error_code: opt_text(self.last_error_code),
            last_error_message: opt_text(self.last_error_message),
            created_at: self.created_at,
            updated_at: self.updated_at,
            started_at: self.started_at,
            finished_at: self.finished_at,
            version: self.version,
        }
    }
}

impl JobRecord {
    /// What is reported of a job; nothing if its status is not a known one.
    pub open spec fn report(self) -> Option<JobReport> {
        match JobStatus::of_text(self.status) {
            Some(status) => Some(
                JobReport {
                    id: self.id,
                    kind: self.kind,
                    payload: self.payload,
                    status,
                    attempts: self.attempts,
                    max_attempts: self.max_attempts,
                    next_attempt_at: self.next_attempt_at,
                    last_error_code: self.last_error_code,
                    last_error_message: self.last_error_message,
                    created_at: self.created_at,
                    updated_at: self.updated_at,
                    started_at: self.started_at,
                    finished_at: self.finished_at,
                    version: self.version,
                },
            ),
            None => None,
        }
    }
}

/// Reports do not betray leases: two jobs that differ in their lease alone are reported alike.
pub proof fn law_reports_do_not_betray_leases(a: JobRecord, b: JobRecord)
    requires
        b == (JobRecord {
            lease_token: b.lease_token,
            lease_expires_at: b.lease_expires_at,
            ..a
        }),
    ensures
        a.report() == b.report(),
{
}

impl JobSummary {
    /// The summary of a row; an internal error if the row holds an unknown status.
    pub fn try_from(row: JobRow) -> (r: Result<JobSummary, ApiError>)
        ensures
            match row@.report() {
                Some(report) => r matches Ok(summary) && summary@ == report,
                None => r matches Err(e) && e@ == ApiFault::repository(),
            },
    {
        match row.status() {
            Ok(status) => Ok(
                JobSummary {
                    id: row.id,
                    kind: row.kind,
                    payload: row.payload,
                    status,
                    attempts: row.attempts,
                    max_attempts: row.max_attempts,
                    next_attempt_at: row.next_attempt_at,
                    last_error_code: row.last_error_code,
                    last_error_message: row.last_error_message,
                    created_at: row.created_at,
                    updated_at: row.updated_at,
                    started_at: row.started_at,
                    finished_at: row.finished_at,
                    version: row.version,
                },
            ),
            Err(e) => Err(ApiError::from_repo_error(e)),
        }
    }
}

/// What the world may know of an attempt: everything but its lease token.
#[derive(Debug)]
pub struct AttemptSummary {
    pub attempt_number: i32,
    pub worker_id: String,
    pub started_at: Timestamp,
    pub finished_at: Option<Timestamp>,
    pub outcome: Option<String>,
    pub error_code: Option<String>,
    pub error_message: Option<String>,
    pub scheduled_delay_ms: Option<i64>,
    pub duration_ms: Option<i64>,
}

/// What an [`AttemptSummary`] holds.
#[verifier::ext_equal]
pub struct AttemptReport {
    pub attempt_number: i32,
    pub worker_id: Seq<char>,
    pub started_at: Timestamp,
    pub finished_at: Option<Timestamp>,
    pub outcome: Option<Seq<char>>,
    pub error_code: Option<Seq<char>>,
    pub error_message: Option<Seq<char>>,
    pub scheduled_delay_ms: Option<i64>,
    pub duration_ms: Option<i64>,
}

impl View for AttemptSummary {
    type V = AttemptReport;

    open spec fn view(&self) -> AttemptReport {
        AttemptReport {
            attempt_number: self.attempt_number,
            worker_id: self.worker_id@,
            started_at: self.started_at,
            finished_at: self.finished_at,
            outcome: opt_text(self.outcome),
            error_code: opt_text(self.error_code),
            error_message: opt_text(self.error_message),
            scheduled_delay_ms: self.scheduled_delay_ms,
            duration_ms: self.duration_ms,
        }
    }
}

impl AttemptRecord {
    /// What is reported of an attempt.
    pub open spec fn report(self) -> AttemptReport {
        AttemptReport {
            attempt_number: self.attempt_number,
            worker_id: self.worker_id,
            started_at: self.started_at,
            finished_at: self.finished_at,
            outcome: self.outcome,
            error_code: self.error_code,
            error_message: self.error_message,
            scheduled_delay_ms: self.scheduled_delay_ms,
            duration_ms: self.duration_ms,
        }
    }
}

impl AttemptSummary {
    pub fn from_row(row: AttemptRow) -> (summary: AttemptSummary)
        ensures
            summary@ == row@.report(),
    {
        AttemptSummary {
            attempt_number: row.attempt_number,
            worker_id: row.worker_id,
            started_at: row.started_at,
            finished_at: row.finished_at,
            outcome: row.outcome,
            error_code: row.error_code,
            error_message: row.error_message,
            scheduled_delay_ms: row.scheduled_delay_ms,
            duration_ms: row.duration_ms,
        }
    }
}

/// What the attempts of an answer hold.
pub open spec fn attempt_reports(summaries: Seq<AttemptSummary>) -> Seq<AttemptReport> {
    summaries.map_values(|s: AttemptSummary| s@)
}

/// What is reported of some attempts.
pub open spec fn reported(attempts: Seq<AttemptRecord>) -> Seq<AttemptReport> {
    attempts.map_values(|a: AttemptRecord| a.report())
}

/// A job with its attempts.
#[derive(Debug)]
pub struct JobDetail {
    pub job: JobSummary,
    pub attempts: Vec<AttemptSummary>,
}

#[derive(Debug)]
pub struct ListJobsQuery {
    pub status: Option<String>,
    pub limit: Option<i64>,
    pub cursor: Option<String>,
}

#[derive(Debug)]
pub struct ListJobsResponse {
    pub items: Vec<JobSummary>,
    /// Leads to the next page; `None` if this page was not full.
    pub next_cursor: Option<String>,
}

#[derive(Debug, Clone, Copy)]
pub struct RetryJobRequest {
    pub max_attempts: Option<i32>,
}

// ---------------------------------------------------------------------------------------------
// Submission
// ---------------------------------------------------------------------------------------------

/// What is wrong with a submission.
pub open spec fn submission_fault(
    body: SubmitJobRequest,
    decoded: Result<ChargePayload, String>,
) -> Option<ValidationError> {
    if kind_fault(body.kind@) is Some {
        kind_fault(body.kind@)
    } else if !(1 <= body.max_attempts <= 20) {
        Some(ValidationError::MaxAttemptsOutOfRange)
    } else {
        match decoded {
            Ok(payload) => payload_fault(payload),
            Err(detail) => Some(ValidationError::InvalidPayloadShape(detail)),
        }
    }
}

/// `POST /v1/jobs`: checks a submission and stores it under `id`. `decoded` is the payload read as a
/// charge. The answer has the status 202.
pub fn submit_job(
    store: &mut JobStore,
    body: &SubmitJobRequest,
    decoded: Result<ChargePayload, String>,
    id: u128,
    now: Timestamp,
) -> (r: Result<(u16, SubmitJobResponse), ApiError>)
    ensures
        match submission_fault(*body, decoded) {
            Some(fault) => {
                &&& r matches Err(e) && e@ == ApiFault::invalid_argument(fault.text())
                &&& *final(store) == *old(store)
            },
            None => if has_job(old(store)@.jobs, id) {
                &&& r matches Err(e) && e@ == ApiFault::repository()
                &&& *final(store) == *old(store)
            } else {
                let job = JobRecord::submitted(
                    id,
                    body.kind@,
                    body.payload@,
                    body.max_attempts,
                    now,
                );
                &&& final(store)@ == (QueueState { jobs: old(store)@.jobs.push(job), ..old(store)@ })
                &&& r == Ok::<(u16, SubmitJobResponse), ApiError>(
                    (
                        202,
                        SubmitJobResponse {
                            id,
                            status: JobStatus::Pending,
                            attempts: 0,
                            max_attempts: body.max_attempts,
                            created_at: now,
                        },
                    ),
                )
            },
        },
{
    match validate_kind(&body.kind) {
        Ok(()) => {},
        Err(e) => {
            return Err(ApiError::from_validation_error(e));
        },
    }
    match validate_max_attempts(body.max_attempts) {
        Ok(()) => {},
        Err(e) => {
            return Err(ApiError::from_validation_error(e));
        },
    }
    match parse_charge_payload(decoded) {
        Ok(_) => {},
        Err(e) => {
            return Err(ApiError::from_validation_error(e));
        },
    }
    let row = match insert_job(store, id, &body.kind, &body.payload, body.max_attempts, now) {
        Ok(row) => row,
        Err(e) => {
            return Err(ApiError::from_repo_error(e));
        },
    };
    proof {
        crate::db::soundness::lemma_status_texts();
        assert(store@ =~= (QueueState { jobs: old(store)@.jobs.push(row@), ..old(store)@ }));
    }
    let status = match row.status() {
        Ok(status) => status,
        Err(e) => {
            return Err(ApiError::from_repo_error(e));
        },
    };
    Ok(
        (
            202,
            SubmitJobResponse {
                id: row.id,
                status,
                attempts: row.attempts,
                max_attempts: row.max_attempts,
                created_at: row.created_at,
            },
        ),
    )
}

// ---------------------------------------------------------------------------------------------
// Reading
// ---------------------------------------------------------------------------------------------

pub open spec fn job_not_found(id: u128) -> ApiFault {
    ApiFault::not_found("job "@ + uuid_text(id) + " not found"@)
}

/// `GET /v1/jobs/{id}`: the job with its attempts, in the order of their numbers.
pub fn get_job(store: &JobStore, id: u128) -> (r: Result<JobDetail, ApiError>)
    ensures
        match job_of(store@.jobs, id) {
            None => r matches Err(e) && e@ == job_not_found(id),
            Some(job) => match job.report() {
                None => r matches Err(e) && e@ == ApiFault::repository(),
                Some(report) => r matches Ok(detail) && detail.job@ == report && exists|
                    order: Seq<int>,
                | #[trigger]
                    is_order(attempt_keys(store@.attempts, id), order) && attempt_reports(
                        detail.attempts@,
                    ) == reported(rows_at(store@.attempts, order)),
            },
        },
{
    let row = match get_job_by_id(store, id) {
        Some(row) => row,
        None => {
            return Err(ApiError::not_found(join3("job ", &format_uuid(id), " not found")));
        },
    };
    let rows = list_for_job(store, id);
    let job = JobSummary::try_from(row)?;
    let mut attempts: Vec<AttemptSummary> = Vec::new();
    let mut i: usize = 0;
    while i < rows.len()
        invariant
            i <= rows.len(),
            attempts.len() == i,
            forall|k: int| 0 <= k < i ==> (#[trigger] attempts@[k])@ == rows@[k]@.report(),
        decreases rows.len() - i,
    {
        attempts.push(AttemptSummary::from_row(rows[i].clone()));
        i = i + 1;
    }
    proof {
        let records = crate::db::attempts::attempt_records(rows@);
        let order = choose|order: Seq<int>| #[trigger]
            is_order(attempt_keys(store@.attempts, id), order) && records == rows_at(
                store@.attempts,
                order,
            );
        assert(attempt_reports(attempts@) =~= reported(records));
        assert(is_order(attempt_keys(store@.attempts, id), order));
    }
    Ok(JobDetail { job, attempts })
}

// ---------------------------------------------------------------------------------------------
// Listing
// ---------------------------------------------------------------------------------------------

impl ListJobsQuery {
    /// How many jobs a page holds.
    pub open spec fn page_size(self) -> int {
        match self.limit {
            Some(limit) => limit as int,
            None => 50,
        }
    }

    /// The place after which the page begins. `None` if the query has a cursor that names no place.
    pub open spec fn place(self) -> Option<Option<(Timestamp, u128)>> {
        match self.cursor {
            None => Some(None),
            Some(cursor) => match cursor_place(cursor@) {
                Some(place) => Some(Some(place)),
                None => None,
            },
        }
    }
}

/// What the items of a page hold.
pub open spec fn job_reports(items: Seq<JobSummary>) -> Seq<JobReport> {
    items.map_values(|s: JobSummary| s@)
}

/// What is reported of the jobs at the given places.
pub open spec fn reports_at(jobs: Seq<JobRecord>, places: Seq<int>) -> Seq<JobReport> {
    Seq::new(places.len(), |k: int| jobs[places[k]].report()->0)
}

/// The cursor names the place of the job, as long as that has a year of four digits.
pub open spec fn leads_to(cursor: Seq<char>, job: JobRecord) -> bool {
    job.created_at.in_four_digit_year() ==> cursor_place(cursor) == Some((job.created_at, job.id))
}

/// The answer that lists the jobs at the given places, where a full page has `size` of them.
pub open spec fn is_page(
    jobs: Seq<JobRecord>,
    places: Seq<int>,
    size: int,
    r: Result<ListJobsResponse, ApiError>,
) -> bool {
    if forall|k: int| 0 <= k < places.len() ==> (#[trigger] jobs[places[k]]).report() is Some {
        r matches Ok(page) && {
            &&& job_reports(page.items@) == reports_at(jobs, places)
            &&& opt_text(page.next_cursor) == if places.len() == size {
                let last = jobs[places.last()];
                Some(cursor_text(last.created_at, last.id))
            } else {
                None
            }
            &&& page.next_cursor matches Some(cursor) ==> leads_to(cursor@, jobs[places.last()])
        }
    } else {
        r matches Err(e) && e@ == ApiFault::repository()
    }
}

/// The answer to a listing of the jobs with the given status.
pub open spec fn is_listing(
    jobs: Seq<JobRecord>,
    status: Option<JobStatus>,
    query: ListJobsQuery,
    r: Result<ListJobsResponse, ApiError>,
) -> bool {
    if !(1 <= query.page_size() <= 200) {
        r matches Err(e) && e@ == ApiFault::invalid_argument(
            "limit must be between 1 and "@ + decimal(200),
        )
    } else {
        match query.place() {
            None => r matches Err(e) && e@ == ApiFault::invalid_argument("invalid cursor"@),
            Some(after) => exists|order: Seq<int>| #[trigger]
                is_order(listed_keys(jobs, status, after), order) && is_page(
                    jobs,
                    at_most(order, query.page_size()),
                    query.page_size(),
                    r,
                ),
        }
    }
}

/// `GET /v1/jobs`: a page of jobs, of one status or of all.
pub fn list_jobs(store: &JobStore, query: &ListJobsQuery) -> (r: Result<ListJobsResponse, ApiError>)
    requires
        forall|i: int| 0 <= i < store@.jobs.len() ==> (#[trigger] store@.jobs[i]).created_at.has_date(),
    ensures
        match query.status {
            None => is_listing(store@.jobs, None, *query, r),
            Some(raw) => match JobStatus::of_text(raw@) {
                Some(status) => is_listing(store@.jobs, Some(status), *query, r),
                None => r matches Err(e) && e@ == ApiFault::invalid_argument(
                    "invalid status "@ + debug_quoted(raw@),
                ),
            },
        },
{
    let status = match &query.status {
        Some(raw) => match JobStatus::parse_db_str(raw) {
            Some(status) => Some(status),
            None => {
                return Err(
                    ApiError::invalid_argument(join2("invalid status ", &quoted(raw))),
                );
            },
        },
        None => None,
    };
    list_jobs_with_status(store, status, query)
}

/// `GET /v1/dead-jobs`: the same as listing the dead jobs.
pub fn list_dead_jobs(store: &JobStore, query: &ListJobsQuery) -> (r: Result<
    ListJobsResponse,
    ApiError,
>)
    requires
        forall|i: int| 0 <= i < store@.jobs.len() ==> (#[trigger] store@.jobs[i]).created_at.has_date(),
    ensures
        is_listing(store@.jobs, Some(JobStatus::Dead), *query, r),
{
    list_jobs_with_status(store, Some(JobStatus::Dead), query)
}

pub fn list_jobs_with_status(
    store: &JobStore,
    status: Option<JobStatus>,
    query: &ListJobsQuery,
) -> (r: Result<ListJobsResponse, ApiError>)
    requires
        forall|i: int| 0 <= i < store@.jobs.len() ==> (#[trigger] store@.jobs[i]).created_at.has_date(),
    ensures
        is_listing(store@.jobs, status, *query, r),
{
    let limit: i64 = match query.limit {
        Some(limit) => limit,
        None => DEFAULT_LIST_LIMIT,
    };
    if limit < 1 || limit > MAX_LIST_LIMIT {
        return Err(
            ApiError::invalid_argument(
                join2("limit must be between 1 and ", &decimal_text(MAX_LIST_LIMIT as u64)),
            ),
        );
    }
    let after = match &query.cursor {
        Some(cursor) => Some(decode_cursor(cursor)?),
        None => None,
    };
    let rows = match list_job_rows(store, status, limit, after) {
        Ok(rows) => rows,
        Err(e) => {
            return Err(ApiError::from_repo_error(e));
        },
    };
    let ghost order = choose|order: Seq<int>| #[trigger]
        is_order(listed_keys(store@.jobs, status, after), order) && job_records(rows@) == rows_at(
            store@.jobs,
            at_most(order, limit as int),
        );
    let ghost places = at_most(order, limit as int);
    assert(job_records(rows@).len() == places.len());
    assert forall|k: int| 0 <= k < rows.len() implies (#[trigger] rows@[k])@
        == store@.jobs[places[k]] && 0 <= places[k] < store@.jobs.len() by {
        assert(job_records(rows@)[k] == rows@[k]@);
        assert(places[k] == order[k]);
    }
    let next_cursor = if rows.len() as u64 == limit as u64 {
        let last = &rows[rows.len() - 1];
        assert(last@ == store@.jobs[places.last()]);
        Some(encode_cursor(last.created_at, last.id))
    } else {
        None
    };
    let mut items: Vec<JobSummary> = Vec::new();
    let mut i: usize = 0;
    while i < rows.len()
        invariant
            i <= rows.len(),
            items.len() == i,
            rows.len() == places.len(),
            forall|k: int| 0 <= k < rows.len() ==> (#[trigger] rows@[k])@ == store@.jobs[places[k]],
            forall|k: int|
                0 <= k < i ==> store@.jobs[places[k]].report() == Some((#[trigger] items@[k])@),
            is_order(listed_keys(store@.jobs, status, after), order),
            places == at_most(order, limit as int),
            query.page_size() == limit,
            1 <= limit <= 200,
            query.place() == Some(after),
        decreases rows.len() - i,
    {
        assert(rows@[i as int]@ == store@.jobs[places[i as int]]);
        items.push(JobSummary::try_from(rows[i].clone())?);
        i = i + 1;
    }
    proof {
        assert forall|k: int| 0 <= k < places.len() implies (
        #[trigger] store@.jobs[places[k]]).report() is Some by {
            assert(store@.jobs[places[k]].report() == Some(items@[k]@));
        }
        assert(job_reports(items@) =~= reports_at(store@.jobs, places));
    }
    Ok(ListJobsResponse { items, next_cursor })
}

/// A listing of the jobs with one status lists no others.
pub proof fn law_listings_hold_what_was_asked_for(
    jobs: Seq<JobRecord>,
    status: JobStatus,
    query: ListJobsQuery,
    page: ListJobsResponse,
    k: int,
)
    requires
        is_listing(jobs, Some(status), query, Ok(page)),
        0 <= k < page.items.len(),
    ensures
        page.items@[k].status == status,
        page.items.len() <= query.page_size(),
{
    let size = query.page_size();
    let after = query.place()->0;
    let order = choose|order: Seq<int>| #[trigger]
        is_order(listed_keys(jobs, Some(status), after), order) && is_page(
            jobs,
            at_most(order, size),
            size,
            Ok(page),
        );
    let places = at_most(order, size);
    let keys = listed_keys(jobs, Some(status), after);
    let reports = job_reports(page.items@);
    assert(reports.len() == places.len());
    assert(reports[k] == page.items@[k]@);
    assert(places[k] == order[k]);
    assert(keys[order[k]] is Some);
    assert(jobs[places[k]].is(status));
    crate::domain::law_status_text_round_trip(status, jobs[places[k]].status);
}

/// Following the cursor of a page continues the listing: together the two pages list a run of it,
/// without a gap and without a repetition.
pub proof fn law_next_page_continues_the_listing(
    jobs: Seq<JobRecord>,
    status: Option<JobStatus>,
    query: ListJobsQuery,
    page: ListJobsResponse,
    next_query: ListJobsQuery,
    next_page: ListJobsResponse,
)
    requires
        forall|i: int, k: int|
            0 <= i < k < jobs.len() ==> (#[trigger] jobs[i]).id != (#[trigger] jobs[k]).id,
        forall|i: int| 0 <= i < jobs.len() ==> (#[trigger] jobs[i]).created_at.in_four_digit_year(),
        is_listing(jobs, status, query, Ok(page)),
        page.next_cursor is Some,
        next_query.cursor is Some,
        next_query.cursor->0@ == page.next_cursor->0@,
        is_listing(jobs, status, next_query, Ok(next_page)),
    ensures
        exists|order: Seq<int>, n: int| #[trigger]
            is_order(listed_keys(jobs, status, query.place()->0), order) && 0 <= n <= order.len()
                && job_reports(page.items@) + job_reports(next_page.items@) == reports_at(
                jobs,
                #[trigger] order.take(n),
            ),
{
    let size = query.page_size();
    let after = query.place()->0;
    let order = choose|order: Seq<int>| #[trigger]
        is_order(listed_keys(jobs, status, after), order) && is_page(
            jobs,
            at_most(order, size),
            size,
            Ok(page),
        );
    let places = at_most(order, size);
    assert(opt_text(page.next_cursor) is Some);
    let last = jobs[places.last()];
    assert(places.last() == order[size - 1]);
    assert(leads_to(page.next_cursor->0@, last));
    assert(next_query.place() == Some(Some((last.created_at, last.id))));
    let next_size = next_query.page_size();
    let rest = choose|rest: Seq<int>| #[trigger]
        is_order(listed_keys(jobs, status, Some((last.created_at, last.id))), rest) && is_page(
            jobs,
            at_most(rest, next_size),
            next_size,
            Ok(next_page),
        );
    crate::db::laws::law_pages_cover_the_listing(jobs, status, after, order, rest, size - 1);
    let next_places = at_most(rest, next_size);
    let n = (places.len() + next_places.len()) as int;
    assert(places + next_places =~= order.take(n));
    assert(job_reports(page.items@) + job_reports(next_page.items@) =~= reports_at(
        jobs,
        order.take(n),
    ));
}

/// What the items of some pages hold, one page after the other.
pub open spec fn all_reports(pages: Seq<ListJobsResponse>) -> Seq<JobReport>
    decreases pages.len(),
{
    if pages.len() == 0 {
        seq![]
    } else {
        all_reports(pages.drop_last()) + job_reports(pages.last().items@)
    }
}

/// `pages` answer `queries`, the first of which has no cursor, and each of the others the cursor of the
/// page before it. The sizes of the pages may differ.
pub open spec fn is_walk(
    jobs: Seq<JobRecord>,
    status: Option<JobStatus>,
    queries: Seq<ListJobsQuery>,
    pages: Seq<ListJobsResponse>,
) -> bool {
    &&& 0 < pages.len() == queries.len()
    &&& queries[0].cursor is None
    &&& forall|i: int|
        0 <= i < pages.len() ==> is_listing(jobs, status, #[trigger] queries[i], Ok(pages[i]))
    &&& forall|i: int|
        0 < i < pages.len() ==> {
            &&& (#[trigger] queries[i]).cursor is Some
            &&& pages[i - 1].next_cursor is Some
            &&& queries[i].cursor->0@ == pages[i - 1].next_cursor->0@
        }
}

/// Walking through the pages until there is no next one lists every job of the listing, each once and in
/// order. However far the walk has come, it has listed the first of them.
pub proof fn law_walking_the_pages_lists_everything(
    jobs: Seq<JobRecord>,
    status: Option<JobStatus>,
    queries: Seq<ListJobsQuery>,
    pages: Seq<ListJobsResponse>,
    order: Seq<int>,
)
    requires
        forall|i: int, k: int|
            0 <= i < k < jobs.len() ==> (#[trigger] jobs[i]).id != (#[trigger] jobs[k]).id,
        forall|i: int| 0 <= i < jobs.len() ==> (#[trigger] jobs[i]).created_at.in_four_digit_year(),
        is_walk(jobs, status, queries, pages),
        is_order(listed_keys(jobs, status, None), order),
    ensures
        all_reports(pages).len() <= order.len(),
        all_reports(pages) == reports_at(jobs, order.take(all_reports(pages).len() as int)),
        pages.last().next_cursor is None ==> all_reports(pages) == reports_at(jobs, order),
        pages.last().next_cursor matches Some(cursor) ==> {
            let n = all_reports(pages).len() as int;
            &&& n > 0
            &&& cursor_place(cursor@) == Some((jobs[order[n - 1]].created_at, jobs[order[n - 1]].id))
        },
    decreases pages.len(),
{
    let k = pages.len() - 1;
    let before = all_reports(pages.drop_last());
    let n = before.len() as int;
    let query = queries[k];
    let size = query.page_size();
    assert(is_listing(jobs, status, query, Ok(pages[k])));
    if k > 0 {
        assert forall|i: int| 0 <= i < k implies is_listing(
            jobs,
            status,
            #[trigger] queries.drop_last()[i],
            Ok(pages.drop_last()[i]),
        ) by {
            assert(queries[i] == queries.drop_last()[i]);
        }
        assert forall|i: int| 0 < i < k implies {
            &&& (#[trigger] queries.drop_last()[i]).cursor is Some
            &&& pages.drop_last()[i - 1].next_cursor is Some
            &&& queries.drop_last()[i].cursor->0@ == pages.drop_last()[i - 1].next_cursor->0@
        } by {
            assert(queries[i] == queries.drop_last()[i]);
        }
        law_walking_the_pages_lists_everything(
            jobs,
            status,
            queries.drop_last(),
            pages.drop_last(),
            order,
        );
        assert(pages.drop_last().last() == pages[k - 1]);
        assert(query.cursor is Some);
    } else {
        assert(pages.drop_last().len() == 0);
        assert(order.skip(0) =~= order);
    }
    let after = query.place()->0;
    let rest = choose|rest: Seq<int>| #[trigger]
        is_order(listed_keys(jobs, status, after), rest) && is_page(
            jobs,
            at_most(rest, size),
            size,
            Ok(pages[k]),
        );
    if k > 0 {
        let last = jobs[order[n - 1]];
        assert(after == Some((last.created_at, last.id)));
        crate::db::laws::law_pages_cover_the_listing(jobs, status, None, order, rest, n - 1);
    } else {
        assert(after is None);
        lemma_order_unique(listed_keys(jobs, status, None), order, rest);
    }
    assert(rest == order.skip(n));
    let places = at_most(rest, size);
    let m = n + places.len();
    let reports = job_reports(pages[k].items@);
    assert(reports == reports_at(jobs, places));
    assert(order.take(n) + places =~= order.take(m));
    assert(all_reports(pages) =~= reports_at(jobs, order.take(m)));
    if pages[k].next_cursor is None {
        assert(opt_text(pages[k].next_cursor) is None);
        assert(places.len() < size);
        assert(order.take(m) =~= order);
    } else {
        assert(opt_text(pages[k].next_cursor) is Some);
        assert(places.last() == order[m - 1]);
    }
}

// ---------------------------------------------------------------------------------------------
// Retrying
// ---------------------------------------------------------------------------------------------

/// Why a job cannot be retried, or how many attempts it may then have in all.
pub open spec fn retry_budget(id: u128, existing: Option<JobRecord>, requested: Option<i32>) -> Result<
    int,
    ApiFault,
> {
    match existing {
        None => Err(job_not_found(id)),
        Some(job) => match JobStatus::of_text(job.status) {
            None => Err(ApiFault::repository()),
            Some(status) => if status != JobStatus::Dead {
                Err(
                    ApiFault::invalid_state(
                        "job "@ + uuid_text(id) + " is "@ + status.db_text()
                            + ", not DEAD; only a DEAD job can be retried"@,
                    ),
                )
            } else {
                match requested {
                    None => Ok(job.attempts + 5),
                    Some(n) => if !(1 <= n <= 20) {
                        Err(ApiFault::invalid_argument(ValidationError::MaxAttemptsOutOfRange.text()))
                    } else if n <= job.attempts {
                        Err(
                            ApiFault::invalid_argument(
                                "max_attempts ("@ + signed_decimal(n as int)
                                    + ") must be greater than the job's existing attempts ("@
                                    + signed_decimal(job.attempts as int) + ")"@,
                            ),
                        )
                    } else {
                        Ok(n as int)
                    },
                }
            },
        },
    }
}

/// What a row says, if it was found.
pub open spec fn found_record(existing: Option<JobRow>) -> Option<JobRecord> {
    match existing {
        Some(row) => Some(row@),
        None => None,
    }
}

/// How many attempts a request for a retry asks for, if it does.
pub open spec fn requested_attempts(body: Option<RetryJobRequest>) -> Option<i32> {
    match body {
        Some(b) => b.max_attempts,
        None => None,
    }
}

/// The attempts of the job, if they are to be raised, can be raised. They are where the job is dead and
/// no number of attempts is asked for.
pub open spec fn raise_is_countable(existing: Option<JobRecord>, requested: Option<i32>) -> bool {
    match existing {
        Some(job) => JobStatus::of_text(job.status) == Some(JobStatus::Dead) && requested is None
            ==> job.attempts <= i32::MAX - 5,
        None => true,
    }
}

/// A retry that is granted leaves at least one attempt, and the job is due at once.
pub proof fn law_retried_jobs_are_due_at_once(
    id: u128,
    job: JobRecord,
    requested: Option<i32>,
    now: Timestamp,
)
    requires
        raise_is_countable(Some(job), requested),
        retry_budget(id, Some(job), requested) is Ok,
    ensures
        retry_budget(id, Some(job), requested)->Ok_0 > job.attempts,
        job.revived(retry_budget(id, Some(job), requested)->Ok_0 as i32, now).claimable(now),
{
}

pub open spec fn no_longer_dead(id: u128) -> ApiFault {
    ApiFault::invalid_state(
        "job "@ + uuid_text(id) + " was no longer DEAD by the time the retry was applied"@,
    )
}

/// The first step of a retry: whether the job, as it was found, may be retried, and with how many
/// attempts.
pub fn plan_retry(id: u128, existing: &Option<JobRow>, body: Option<RetryJobRequest>) -> (r: Result<
    i32,
    ApiError,
>)
    requires
        raise_is_countable(found_record(*existing), requested_attempts(body)),
    ensures
        match retry_budget(id, found_record(*existing), requested_attempts(body)) {
            Ok(n) => r matches Ok(m) && m == n,
            Err(fault) => r matches Err(e) && e@ == fault,
        },
{
    let existing = match existing {
        Some(row) => row,
        None => {
            return Err(ApiError::not_found(join3("job ", &format_uuid(id), " not found")));
        },
    };
    let status = match existing.status() {
        Ok(status) => status,
        Err(e) => {
            return Err(ApiError::from_repo_error(e));
        },
    };
    if status != JobStatus::Dead {
        return Err(
            ApiError::invalid_state(
                join3(
                    &join3("job ", &format_uuid(id), " is "),
                    status.as_db_str(),
                    ", not DEAD; only a DEAD job can be retried",
                ),
            ),
        );
    }
    let requested = match body {
        Some(b) => b.max_attempts,
        None => None,
    };
    match requested {
        Some(n) => {
            match validate_max_attempts(n) {
                Ok(()) => {},
                Err(e) => {
                    return Err(ApiError::from_validation_error(e));
                },
            }
            if n <= existing.attempts {
                return Err(
                    ApiError::invalid_argument(
                        join3(
                            &join3(
                                "max_attempts (",
                                &signed_text(n as i64),
                                ") must be greater than the job's existing attempts (",
                            ),
                            &signed_text(existing.attempts as i64),
                            ")",
                        ),
                    ),
                );
            }
            Ok(n)
        },
        None => Ok(existing.attempts + DEFAULT_RETRY_BUDGET_INCREMENT),
    }
}

/// The last step of a retry: the answer, given the job that was put back. There is none if somebody
/// else was faster.
pub fn finish_retry(id: u128, row: Option<JobRow>) -> (r: Result<JobSummary, ApiError>)
    ensures
        match row {
            None => r matches Err(e) && e@ == no_longer_dead(id),
            Some(row) => match row@.report() {
                Some(report) => r matches Ok(summary) && summary@ == report,
                None => r matches Err(e) && e@ == ApiFault::repository(),
            },
        },
{
    match row {
        Some(row) => JobSummary::try_from(row),
        None => Err(
            ApiError::invalid_state(
                join3(
                    "job ",
                    &format_uuid(id),
                    " was no longer DEAD by the time the retry was applied",
                ),
            ),
        ),
    }
}

/// `POST /v1/jobs/{id}/retry`: puts a dead job back into the queue.
pub fn retry_job(
    store: &mut JobStore,
    id: u128,
    body: Option<RetryJobRequest>,
    now: Timestamp,
) -> (r: Result<JobSummary, ApiError>)
    requires
        raise_is_countable(job_of(old(store)@.jobs, id), requested_attempts(body)),
    ensures
        ({
            let existing = job_of(old(store)@.jobs, id);
            match retry_budget(id, existing, requested_attempts(body)) {
                Ok(n) => {
                    &&& final(store)@ == old(store)@.after_revival(id, n as i32, now)
                    &&& r matches Ok(summary) && Some(summary@) == existing->0.revived(
                        n as i32,
                        now,
                    ).report()
                },
                Err(fault) => {
                    &&& r matches Err(e) && e@ == fault
                    &&& *final(store) == *old(store)
                },
            }
        }),
{
    let existing = get_job_by_id(store, id);
    let max_attempts: i32 = plan_retry(id, &existing, body)?;
    let ghost found = job_of(store@.jobs, id);
    let row = retry_dead_job(store, id, max_attempts, now);
    proof {
        crate::db::soundness::lemma_status_texts();
        crate::domain::law_status_text_round_trip(JobStatus::Dead, found->0.status);
        let i = lemma_first_job(old(store)@.jobs, id);
        assert(old(store)@.jobs[i].is_dead(id));
        assert(row is Some && row->0@ == found->0.revived(max_attempts, now));
    }
    finish_retry(id, row)
}

/// The job found under an identifier is the first one that has it.
proof fn lemma_first_job(jobs: Seq<JobRecord>, id: u128) -> (i: int)
    requires
        job_of(jobs, id) is Some,
    ensures
        0 <= i < jobs.len(),
        jobs[i].id == id,
        jobs[i] == job_of(jobs, id)->0,
        forall|k: int| 0 <= k < i ==> (#[trigger] jobs[k]).id != id,
    decreases jobs.len(),
{
    if jobs.first().id == id {
        0
    } else {
        let rest = jobs.drop_first();
        let i = lemma_first_job(rest, id);
        assert forall|k: int| 0 <= k < i + 1 implies (#[trigger] jobs[k]).id != id by {
            if k > 0 {
                assert(jobs[k] == rest[k - 1]);
            }
        }
        i + 1
    }
}

// ---------------------------------------------------------------------------------------------
// What the answers mean
// ---------------------------------------------------------------------------------------------

/// A report says what the row holds, with its status in place of the text of it. A row is reported if
/// and only if its status is a known one.
pub proof fn law_reports_say_what_the_row_holds(job: JobRecord)
    ensures
        job.report() is Some <==> job.status == "PENDING"@ || job.status == "RUNNING"@ || job.status
            == "SUCCEEDED"@ || job.status == "DEAD"@,
        job.report() matches Some(report) ==> {
            &&& report.id == job.id && report.kind == job.kind && report.payload == job.payload
            &&& report.status is Pending <==> job.status == "PENDING"@
            &&& report.status is Running <==> job.status == "RUNNING"@
            &&& report.status is Succeeded <==> job.status == "SUCCEEDED"@
            &&& report.status is Dead <==> job.status == "DEAD"@
            &&& report.attempts == job.attempts && report.max_attempts == job.max_attempts
            &&& report.next_attempt_at == job.next_attempt_at
            &&& report.last_error_code == job.last_error_code
            &&& report.last_error_message == job.last_error_message
            &&& report.created_at == job.created_at && report.updated_at == job.updated_at
            &&& report.started_at == job.started_at && report.finished_at == job.finished_at
            &&& report.version == job.version
        },
{
    crate::domain::law_status_text_round_trip(JobStatus::Pending, job.status);
    crate::domain::law_status_text_round_trip(JobStatus::Running, job.status);
    crate::domain::law_status_text_round_trip(JobStatus::Succeeded, job.status);
    crate::domain::law_status_text_round_trip(JobStatus::Dead, job.status);
}

/// An answer says what its report says.
pub proof fn law_answers_say_what_is_reported(summary: JobSummary, attempt: AttemptSummary)
    ensures
        ({
            let report = summary@;
            &&& report.id == summary.id && report.kind == summary.kind@ && report.payload
                == summary.payload@
            &&& report.status == summary.status
            &&& report.attempts == summary.attempts && report.max_attempts == summary.max_attempts
            &&& report.next_attempt_at == summary.next_attempt_at
            &&& summary.last_error_code is None <==> report.last_error_code is None
            &&& summary.last_error_code matches Some(s) ==> report.last_error_code == Some(s@)
            &&& summary.last_error_message is None <==> report.last_error_message is None
            &&& summary.last_error_message matches Some(s) ==> report.last_error_message == Some(
                s@,
            )
            &&& report.created_at == summary.created_at && report.updated_at == summary.updated_at
            &&& report.started_at == summary.started_at && report.finished_at
                == summary.finished_at
            &&& report.version == summary.version
        }),
        ({
            let report = attempt@;
            &&& report.attempt_number == attempt.attempt_number && report.worker_id
                == attempt.worker_id@
            &&& report.started_at == attempt.started_at && report.finished_at
                == attempt.finished_at
            &&& attempt.outcome is None <==> report.outcome is None
            &&& attempt.outcome matches Some(s) ==> report.outcome == Some(s@)
            &&& attempt.error_code is None <==> report.error_code is None
            &&& attempt.error_code matches Some(s) ==> report.error_code == Some(s@)
            &&& attempt.error_message is None <==> report.error_message is None
            &&& attempt.error_message matches Some(s) ==> report.error_message == Some(s@)
            &&& report.scheduled_delay_ms == attempt.scheduled_delay_ms
            &&& report.duration_ms == attempt.duration_ms
        }),
{
}

/// A report of an attempt says what the row holds, apart from the identifiers and the lease.
pub proof fn law_attempt_reports_say_what_the_rows_hold(attempts: Seq<AttemptRecord>, k: int)
    requires
        0 <= k < attempts.len(),
    ensures
        reported(attempts).len() == attempts.len(),
        ({
            let row = attempts[k];
            let report = reported(attempts)[k];
            &&& report.attempt_number == row.attempt_number && report.worker_id == row.worker_id
            &&& report.started_at == row.started_at && report.finished_at == row.finished_at
            &&& report.outcome == row.outcome
            &&& report.error_code == row.error_code && report.error_message == row.error_message
            &&& report.scheduled_delay_ms == row.scheduled_delay_ms && report.duration_ms
                == row.duration_ms
        }),
{
}

/// A submission is accepted if and only if its kind is not blank and has at most 64 characters, it asks
/// for 1 to 20 attempts, and its payload is a charge: a customer that is not blank and has at most 128
/// characters, a positive amount, and three capital letters for the currency.
pub proof fn law_submissions_are_accepted_by_rule(
    body: SubmitJobRequest,
    decoded: Result<ChargePayload, String>,
)
    ensures
        submission_fault(body, decoded) is None <==> {
            &&& exists|i: int|
                0 <= i < body.kind@.len() && !crate::text::white_space(#[trigger] body.kind@[i])
            &&& body.kind@.len() <= 64
            &&& 1 <= body.max_attempts <= 20
            &&& decoded matches Ok(payload) && {
                &&& exists|i: int|
                    0 <= i < payload.customer_id@.len() && !crate::text::white_space(
                        #[trigger] payload.customer_id@[i],
                    )
                &&& payload.customer_id@.len() <= 128
                &&& payload.amount_cents > 0
                &&& payload.currency@.len() == 3
                &&& forall|i: int|
                    0 <= i < 3 ==> 'A' <= (#[trigger] payload.currency@[i]) <= 'Z'
            }
        },
{
    if decoded is Ok {
        crate::validation::law_payloads_are_accepted_by_rule(decoded->Ok_0);
    }
    if crate::text::blank(body.kind@) {
        assert forall|i: int| 0 <= i < body.kind@.len() implies crate::text::white_space(
            #[trigger] body.kind@[i],
        ) by {}
    }
}

/// How many jobs a page may hold: as many as asked for, or fifty.
pub proof fn law_pages_hold_what_was_asked_for(query: ListJobsQuery)
    ensures
        query.limit matches Some(n) ==> query.page_size() == n,
        query.limit is None ==> query.page_size() == 50,
        query.cursor is None ==> query.place() == Some(None::<(Timestamp, u128)>),
        query.cursor matches Some(cursor) ==> {
            &&& cursor_place(cursor@) is None ==> query.place() is None
            &&& cursor_place(cursor@) matches Some(place) ==> query.place() == Some(Some(place))
        },
{
}

/// A page holds the first jobs of the listing that begins where it begins: as many as there are, up to
/// the limit. It has a cursor if and only if it is full, and the cursor leads to its last job. A limit
/// outside of 1 to 200, and a cursor that names no place, are the client's fault.
pub proof fn law_pages_hold_the_first_of_the_listing(
    jobs: Seq<JobRecord>,
    status: Option<JobStatus>,
    query: ListJobsQuery,
    r: Result<ListJobsResponse, ApiError>,
    order: Seq<int>,
)
    requires
        is_listing(jobs, status, query, r),
        query.cursor is None ==> is_order(listed_keys(jobs, status, None), order),
        query.cursor matches Some(cursor) ==> (cursor_place(cursor@) matches Some(place)
            ==> is_order(listed_keys(jobs, status, Some(place)), order)),
    ensures
        ({
            let size = match query.limit {
                Some(n) => n as int,
                None => 50,
            };
            let lost = query.cursor matches Some(cursor) && cursor_place(cursor@) is None;
            let n = if order.len() < size { order.len() as int } else { size };
            if size < 1 || size > 200 || lost {
                r matches Err(e) && e.status == 400 && e.code@ == "INVALID_ARGUMENT"@
            } else if exists|k: int|
                0 <= k < n && (#[trigger] jobs[order[k]]).report() is None {
                r matches Err(e) && e.status == 500
            } else {
                r matches Ok(page) && {
                    &&& page.items.len() == n
                    &&& forall|k: int|
                        0 <= k < n ==> jobs[order[k]].report() == Some((#[trigger] page.items@[k])@)
                    &&& page.next_cursor is Some <==> n == size
                    &&& page.next_cursor matches Some(cursor) ==> {
                        let last = jobs[order[n - 1]];
                        -62_167_219_200 <= last.created_at.secs <= 253_402_300_799 ==> cursor_place(
                            cursor@,
                        ) == Some((last.created_at, last.id))
                    }
                }
            }
        }),
{
    let size = query.page_size();
    if 1 <= size <= 200 && query.place() is Some {
        let after = query.place()->0;
        let chosen = choose|o: Seq<int>| #[trigger]
            is_order(listed_keys(jobs, status, after), o) && is_page(
                jobs,
                at_most(o, size),
                size,
                r,
            );
        lemma_order_unique(listed_keys(jobs, status, after), chosen, order);
        let places = at_most(order, size);
        let n = places.len() as int;
        assert forall|k: int| 0 <= k < n implies places[k] == order[k] by {}
        if exists|k: int| 0 <= k < n && (#[trigger] jobs[order[k]]).report() is None {
            let k = choose|k: int| 0 <= k < n && (#[trigger] jobs[order[k]]).report() is None;
            assert(jobs[places[k]].report() is None);
        } else {
            assert forall|k: int| 0 <= k < places.len() implies (
            #[trigger] jobs[places[k]]).report() is Some by {
                assert(jobs[order[k]].report() is Some);
            }
            let page = r->Ok_0;
            let reports = job_reports(page.items@);
            assert(reports.len() == n);
            assert forall|k: int| 0 <= k < n implies jobs[order[k]].report() == Some((
            #[trigger] page.items@[k])@) by {
                assert(reports[k] == page.items@[k]@);
                assert(jobs[places[k]].report() is Some);
            }
            assert(page.next_cursor is Some <==> opt_text(page.next_cursor) is Some);
        }
    }
}

/// A retry is granted if and only if the job is dead and, where a number of attempts is asked for, that
/// is one from 1 to 20 and greater than the attempts made so far. The job is then allowed exactly the
/// number asked for, or else five more than the attempts made so far.
pub proof fn law_retries_grant_what_was_asked_for(
    s: QueueState,
    i: int,
    requested: Option<i32>,
    now: Timestamp,
)
    requires
        0 <= i < s.jobs.len(),
        requested is None ==> s.jobs[i].attempts <= i32::MAX - 5,
    ensures
        ({
            let job = s.jobs[i];
            let budget = retry_budget(job.id, Some(job), requested);
            let revived = s.after_revival(job.id, budget->Ok_0 as i32, now).jobs[i];
            &&& budget is Ok <==> job.status == "DEAD"@ && (requested matches Some(n) ==> 1 <= n
                <= 20 && n > job.attempts)
            &&& budget is Ok ==> {
                &&& requested matches Some(n) ==> budget == Ok::<int, ApiFault>(n as int)
                    && revived.max_attempts == n
                &&& requested is None ==> budget == Ok::<int, ApiFault>(job.attempts + 5)
                    && revived.max_attempts == job.attempts + 5
                &&& revived.attempts == job.attempts
                &&& revived.status == "PENDING"@
                &&& revived.next_attempt_at == now
            }
        }),
{
    let job = s.jobs[i];
    crate::domain::law_status_text_round_trip(JobStatus::Dead, job.status);
}

/// Why a retry is refused: there is no such job; its status is not a known one; it is not dead; or the
/// number of attempts asked for is out of range or not greater than the attempts made so far.
pub proof fn law_refused_retries_say_why(id: u128, existing: Option<JobRecord>, requested: Option<i32>)
    ensures
        ({
            let budget = retry_budget(id, existing, requested);
            match existing {
                None => budget matches Err(fault) && fault.status == 404 && fault.code
                    == "NOT_FOUND"@,
                Some(job) => {
                    let known = job.status == "PENDING"@ || job.status == "RUNNING"@ || job.status
                        == "SUCCEEDED"@ || job.status == "DEAD"@;
                    &&& !known ==> (budget matches Err(fault) && fault.status == 500)
                    &&& known && job.status != "DEAD"@ ==> (budget matches Err(fault)
                        && fault.status == 409 && fault.code == "INVALID_STATE"@)
                    &&& job.status == "DEAD"@ && (requested matches Some(n) && !(1 <= n <= 20 && n
                        > job.attempts)) ==> (budget matches Err(fault) && fault.status == 400
                        && fault.code == "INVALID_ARGUMENT"@)
                },
            }
        }),
{
    if existing is Some {
        let job = existing->0;
        crate::domain::law_status_text_round_trip(JobStatus::Pending, job.status);
        crate::domain::law_status_text_round_trip(JobStatus::Running, job.status);
        crate::domain::law_status_text_round_trip(JobStatus::Succeeded, job.status);
        crate::domain::law_status_text_round_trip(JobStatus::Dead, job.status);
    }
}

/// What a request asks for is what stands in its body; without a body it asks for nothing.
pub proof fn law_requests_ask_for_what_they_say(body: RetryJobRequest)
    ensures
        requested_attempts(Some(body)) == body.max_attempts,
        requested_attempts(None) is None,
{
}

} // verus!
