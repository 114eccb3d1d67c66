//! What requests to the queue are answered.

use reliableq::api::cursor::{decode_cursor, encode_cursor, split_at_bar};
use reliableq::api::error::{error_body, ApiError};
use reliableq::api::health::{live, ready};
use reliableq::api::jobs::{
    default_max_attempts, finish_retry, get_job, list_dead_jobs, list_jobs, plan_retry, retry_job,
    submit_job, ListJobsQuery, RetryJobRequest, SubmitJobRequest, SubmitJobResponse,
};
use reliableq::db::attempts::AttemptRow;
use reliableq::db::jobs::{claim_pending_jobs, get_job_by_id, insert_job, JobStore, RepoError};
use reliableq::db::model::FreshIds;
use reliableq::domain::JobStatus;
use reliableq::time::{Duration, Timestamp};
use reliableq::validation::{ChargePayload, ValidationError};
use uuid::Uuid;

const PAYLOAD: &str = r#"{"customer_id":"c1","amount_cents":5000,"currency":"INR"}"#;

fn new_id() -> u128 {
    Uuid::new_v4().as_u128()
}

fn at(ms: i64) -> Timestamp {
    Timestamp {
        secs: 1_700_000_000 + ms / 1000,
        nanos: (ms % 1000) as u32 * 1_000_000,
    }
}

fn valid_submission() -> SubmitJobRequest {
    SubmitJobRequest {
        kind: "charge".to_string(),
        payload: PAYLOAD.to_string(),
        max_attempts: 5,
    }
}

fn valid_payload() -> ChargePayload {
    ChargePayload {
        customer_id: "c1".to_string(),
        amount_cents: 5000,
        currency: "INR".to_string(),
    }
}

fn submit(
    store: &mut JobStore,
    body: &SubmitJobRequest,
    payload: ChargePayload,
    now: Timestamp,
) -> Result<(u16, SubmitJobResponse), ApiError> {
    submit_job(store, body, Ok(payload), new_id(), now)
}

fn query(status: Option<&str>, limit: Option<i64>, cursor: Option<&str>) -> ListJobsQuery {
    ListJobsQuery {
        status: status.map(str::to_string),
        limit,
        cursor: cursor.map(str::to_string),
    }
}

#[test]
fn submit_returns_202_with_pending_job() {
    let mut store = JobStore::new();
    let (status, body) = submit(&mut store, &valid_submission(), valid_payload(), at(0)).unwrap();

    assert_eq!(status, 202);
    assert_eq!(body.status, JobStatus::Pending);
    assert_eq!(body.attempts, 0);
    assert_eq!(body.max_attempts, 5);
    assert_eq!(body.created_at, at(0));
    assert_eq!(default_max_attempts(), 5);
}

#[test]
fn submit_is_visible_immediately_after_response() {
    let mut store = JobStore::new();
    let (_, submitted) = submit(&mut store, &valid_submission(), valid_payload(), at(0)).unwrap();

    let fetched = get_job(&store, submitted.id).unwrap();
    assert_eq!(fetched.job.id, submitted.id);
    assert_eq!(fetched.job.status, JobStatus::Pending);
    assert!(fetched.attempts.is_empty());
    assert_eq!(fetched.job.payload, PAYLOAD);
}

#[test]
fn submit_rejects_empty_kind() {
    let mut store = JobStore::new();
    let mut body = valid_submission();
    body.kind = String::new();
    let err = submit(&mut store, &body, valid_payload(), at(0)).unwrap_err();

    assert_eq!(err.status, 400);
    assert_eq!(err.code, "INVALID_ARGUMENT");
    assert_eq!(err.message, "kind must not be empty");
    assert!(store.jobs.is_empty());
    let body = error_body(err, "req-1".to_string());
    assert_eq!(body.error.code, "INVALID_ARGUMENT");
    assert_eq!(body.error.message, "kind must not be empty");
    assert_eq!(body.error.request_id, "req-1");
}

#[test]
fn submit_rejects_non_positive_amount() {
    let mut store = JobStore::new();
    let mut payload = valid_payload();
    payload.amount_cents = 0;
    let err = submit(&mut store, &valid_submission(), payload, at(0)).unwrap_err();

    assert_eq!(err.status, 400);
    assert_eq!(err.code, "INVALID_ARGUMENT");
}

#[test]
fn submit_rejects_invalid_currency() {
    let mut store = JobStore::new();
    let mut payload = valid_payload();
    payload.currency = "inr".to_string();
    let err = submit(&mut store, &valid_submission(), payload, at(0)).unwrap_err();
    assert_eq!(err.status, 400);
}

#[test]
fn submit_rejects_max_attempts_out_of_range() {
    let mut store = JobStore::new();
    let mut body = valid_submission();
    body.max_attempts = 0;
    let err = submit(&mut store, &body, valid_payload(), at(0)).unwrap_err();
    assert_eq!(err.status, 400);
}

#[test]
fn submit_rejects_an_undecodable_payload_and_hides_store_errors() {
    let mut store = JobStore::new();
    let undecodable = Err("missing field `currency`".to_string());
    let err = submit_job(&mut store, &valid_submission(), undecodable, 1, at(0)).unwrap_err();
    assert_eq!(
        err.message,
        "payload does not match the expected charge shape: missing field `currency`"
    );
    submit_job(&mut store, &valid_submission(), Ok(valid_payload()), 1, at(0)).unwrap();
    let err = submit_job(&mut store, &valid_submission(), Ok(valid_payload()), 1, at(0))
        .unwrap_err();
    assert_eq!((err.status, err.code), (500, "INTERNAL"));
    assert_eq!(err.message, "internal error");
}

#[test]
fn get_missing_job_returns_404() {
    let store = JobStore::new();
    let id = Uuid::new_v4();
    let err = get_job(&store, id.as_u128()).unwrap_err();

    assert_eq!(err.status, 404);
    assert_eq!(err.code, "NOT_FOUND");
    assert_eq!(err.message, format!("job {id} not found"));
}

#[test]
fn a_job_is_shown_with_its_attempts() {
    let mut store = JobStore::new();
    insert_job(&mut store, 1, "charge", PAYLOAD, 5, at(0)).unwrap();
    for n in 0..2 {
        let fresh = vec![FreshIds {
            lease_token: new_id(),
            attempt_id: new_id(),
        }];
        let lease = Duration::from_millis(1);
        claim_pending_jobs(&mut store, "w", 1, &lease, at(10 * n), &fresh).unwrap();
    }
    let detail = get_job(&store, 1).unwrap();
    assert_eq!(detail.job.status, JobStatus::Running);
    assert_eq!(detail.attempts.len(), 2);
    assert_eq!(detail.attempts[0].attempt_number, 1);
    assert_eq!(detail.attempts[0].outcome.as_deref(), Some("LEASE_LOST"));
    assert_eq!(detail.attempts[1].attempt_number, 2);
    assert_eq!(detail.attempts[1].worker_id, "w");
}

#[test]
fn a_job_with_an_unknown_status_is_an_internal_error() {
    let mut store = JobStore::new();
    insert_job(&mut store, 1, "charge", PAYLOAD, 5, at(0)).unwrap();
    store.jobs[0].status = "BOGUS".to_string();
    for err in [
        get_job(&store, 1).map(|_| ()).unwrap_err(),
        list_jobs(&store, &query(None, None, None))
            .map(|_| ())
            .unwrap_err(),
        retry_job(&mut store, 1, None, at(1)).map(|_| ()).unwrap_err(),
    ] {
        assert_eq!((err.status, err.message.as_str()), (500, "internal error"));
    }
}

#[test]
fn list_filters_by_status_and_paginates() {
    let mut store = JobStore::new();
    for n in 0..3 {
        submit(&mut store, &valid_submission(), valid_payload(), at(2 * n)).unwrap();
    }

    let page1 = list_jobs(&store, &query(Some("PENDING"), Some(2), None)).unwrap();
    assert_eq!(page1.items.len(), 2);
    let cursor = page1.next_cursor.expect("more pages remain");

    let page2 = list_jobs(&store, &query(Some("PENDING"), Some(2), Some(&cursor))).unwrap();
    assert_eq!(page2.items.len(), 1);
    assert!(page2.next_cursor.is_none());
    assert_eq!(page1.items[0].created_at, at(0));
    assert_eq!(page1.items[1].created_at, at(2));
    assert_eq!(page2.items[0].created_at, at(4));
}

#[test]
fn walking_the_pages_lists_every_job_once() {
    let mut store = JobStore::new();
    // Some of them are as old as others.
    for n in 0..7 {
        submit(&mut store, &valid_submission(), valid_payload(), at(n / 3)).unwrap();
    }
    let mut expected: Vec<(Timestamp, u128)> =
        store.jobs.iter().map(|job| (job.created_at, job.id)).collect();
    expected.sort_by_key(|(created_at, id)| (created_at.secs, created_at.nanos, *id));

    for limit in 1..=7 {
        let mut seen = Vec::new();
        let mut cursor: Option<String> = None;
        loop {
            let page = list_jobs(&store, &query(None, Some(limit), cursor.as_deref())).unwrap();
            seen.extend(page.items.iter().map(|item| (item.created_at, item.id)));
            match page.next_cursor {
                Some(next) => cursor = Some(next),
                None => break,
            }
        }
        assert_eq!(seen, expected, "pages of {limit}");
    }
}

#[test]
fn list_rejects_invalid_status() {
    let store = JobStore::new();
    let err = list_jobs(&store, &query(Some("NOT_A_STATUS"), None, None)).unwrap_err();

    assert_eq!(err.status, 400);
    assert_eq!(err.code, "INVALID_ARGUMENT");
    assert_eq!(err.message, "invalid status \"NOT_A_STATUS\"");
}

#[test]
fn list_rejects_limit_over_max() {
    let store = JobStore::new();
    let err = list_jobs(&store, &query(None, Some(500), None)).unwrap_err();
    assert_eq!(err.status, 400);
    assert_eq!(err.message, "limit must be between 1 and 200");
    assert!(list_jobs(&store, &query(None, Some(0), None)).is_err());
    assert!(list_jobs(&store, &query(None, Some(200), None)).is_ok());
}

#[test]
fn list_rejects_invalid_cursors() {
    let store = JobStore::new();
    for cursor in ["%%%", "", "bm8tYmFy", "fHw"] {
        let err = list_jobs(&store, &query(None, None, Some(cursor))).unwrap_err();
        assert_eq!(err.message, "invalid cursor", "{cursor:?}");
    }
}

fn make_dead_job(store: &mut JobStore, max_attempts: i32, attempts: i32) -> u128 {
    let id = new_id();
    insert_job(store, id, "charge", PAYLOAD, max_attempts, at(0)).expect("insert");
    let last = store.jobs.len() - 1;
    let row = &mut store.jobs[last];
    row.status = "DEAD".to_string();
    row.attempts = attempts;
    row.finished_at = Some(at(1));
    row.last_error_code = Some("PERMANENT".to_string());
    row.last_error_message = Some("rejected".to_string());
    id
}

#[test]
fn retry_resets_a_dead_job_to_pending() {
    let mut store = JobStore::new();
    let id = make_dead_job(&mut store, 5, 5);

    let body = retry_job(&mut store, id, None, at(2)).unwrap();

    assert_eq!(body.status, JobStatus::Pending);
    assert_eq!(body.id, id);
    assert_eq!(
        body.max_attempts, 10,
        "default retry budget increment is +5 over existing attempts"
    );
    assert!(body.last_error_code.is_none());
    assert!(body.finished_at.is_none());
}

#[test]
fn retry_accepts_an_explicit_max_attempts_override() {
    let mut store = JobStore::new();
    let id = make_dead_job(&mut store, 3, 3);

    let request = RetryJobRequest {
        max_attempts: Some(20),
    };
    let body = retry_job(&mut store, id, Some(request), at(2)).unwrap();
    assert_eq!(body.max_attempts, 20);
}

#[test]
fn retry_rejects_max_attempts_not_exceeding_existing_attempts() {
    let mut store = JobStore::new();
    let id = make_dead_job(&mut store, 5, 5);

    let request = RetryJobRequest {
        max_attempts: Some(5),
    };
    let err = retry_job(&mut store, id, Some(request), at(2)).unwrap_err();

    assert_eq!(err.status, 400);
    assert_eq!(err.code, "INVALID_ARGUMENT");
    assert_eq!(
        err.message,
        "max_attempts (5) must be greater than the job's existing attempts (5)"
    );
    let request = RetryJobRequest {
        max_attempts: Some(21),
    };
    let err = retry_job(&mut store, id, Some(request), at(2)).unwrap_err();
    assert_eq!(err.message, "max_attempts must be between 1 and 20");
}

#[test]
fn retry_on_non_dead_job_returns_409() {
    let mut store = JobStore::new();
    let (_, submitted) = submit(&mut store, &valid_submission(), valid_payload(), at(0)).unwrap();

    let err = retry_job(&mut store, submitted.id, None, at(1)).unwrap_err();

    assert_eq!(err.status, 409);
    assert_eq!(err.code, "INVALID_STATE");
    assert_eq!(
        err.message,
        format!(
            "job {} is PENDING, not DEAD; only a DEAD job can be retried",
            Uuid::from_u128(submitted.id)
        )
    );
}

#[test]
fn retry_on_missing_job_returns_404() {
    let mut store = JobStore::new();
    let err = retry_job(&mut store, new_id(), None, at(0)).unwrap_err();
    assert_eq!(err.status, 404);
}

#[test]
fn retry_preserves_attempt_history() {
    let mut store = JobStore::new();
    let id = make_dead_job(&mut store, 1, 1);
    store.attempts.push(AttemptRow {
        id: new_id(),
        job_id: id,
        attempt_number: 1,
        worker_id: "w1".to_string(),
        lease_token: None,
        started_at: at(0),
        finished_at: Some(at(1)),
        outcome: Some("DEAD".to_string()),
        error_code: None,
        error_message: None,
        scheduled_delay_ms: None,
        duration_ms: None,
    });

    let request = RetryJobRequest { max_attempts: None };
    retry_job(&mut store, id, Some(request), at(2)).unwrap();

    assert_eq!(
        store.attempts.iter().filter(|a| a.job_id == id).count(),
        1,
        "retry must not delete attempt history"
    );
}

#[test]
fn attempts_need_not_be_countable_where_they_are_not_raised() {
    // A job that is not dead.
    let mut store = JobStore::new();
    let submitted = submit(&mut store, &valid_submission(), valid_payload(), at(0)).unwrap().1;
    store.jobs[0].attempts = i32::MAX;
    let err = retry_job(&mut store, submitted.id, None, at(1)).unwrap_err();
    assert_eq!((err.status, err.code), (409, "INVALID_STATE"));

    // A number of attempts that is asked for.
    let mut store = JobStore::new();
    let id = make_dead_job(&mut store, 5, 5);
    store.jobs[0].attempts = i32::MAX;
    let request = RetryJobRequest {
        max_attempts: Some(20),
    };
    let err = retry_job(&mut store, id, Some(request), at(2)).unwrap_err();
    assert_eq!(
        err.message,
        "max_attempts (20) must be greater than the job's existing attempts (2147483647)"
    );

    // The most that can be raised.
    store.jobs[0].attempts = i32::MAX - 5;
    let existing = get_job_by_id(&store, id);
    assert_eq!(plan_retry(id, &existing, None).unwrap(), i32::MAX);
}

#[test]
fn a_retry_that_comes_too_late_is_a_conflict() {
    let mut store = JobStore::new();
    let id = make_dead_job(&mut store, 5, 5);
    let existing = get_job_by_id(&store, id);
    assert_eq!(plan_retry(id, &existing, None).unwrap(), 10);
    // Somebody else retried it in between.
    let err = finish_retry(id, None).unwrap_err();
    assert_eq!((err.status, err.code), (409, "INVALID_STATE"));
    assert_eq!(
        err.message,
        format!(
            "job {} was no longer DEAD by the time the retry was applied",
            Uuid::from_u128(id)
        )
    );
}

#[test]
fn dead_jobs_endpoint_only_returns_dead_jobs() {
    let mut store = JobStore::new();
    let dead_id = make_dead_job(&mut store, 5, 5);
    submit(&mut store, &valid_submission(), valid_payload(), at(1)).unwrap();

    let body = list_dead_jobs(&store, &query(None, None, None)).unwrap();
    assert_eq!(body.items.len(), 1);
    assert_eq!(body.items[0].id, dead_id);
    assert_eq!(body.items[0].status, JobStatus::Dead);
    let same = list_jobs(&store, &query(Some("DEAD"), None, None)).unwrap();
    assert_eq!(same.items.len(), 1);
    assert_eq!(same.items[0].id, dead_id);
}

#[test]
fn cursors_lead_back_to_their_place() {
    for place in [
        (at(0), 0),
        (at(1234), u128::MAX),
        (
            Timestamp {
                secs: -62_167_219_200,
                nanos: 1,
            },
            7,
        ),
        (
            Timestamp {
                secs: 253_402_300_799,
                nanos: 999_999_999,
            },
            7,
        ),
        // During a leap second.
        (
            Timestamp {
                secs: 1_483_228_799,
                nanos: 1_500_000_000,
            },
            7,
        ),
    ] {
        let cursor = encode_cursor(place.0, place.1);
        assert_eq!(decode_cursor(&cursor).unwrap(), place);
    }
}

#[test]
fn the_text_of_a_cursor() {
    // "2023-11-14T22:13:20+00:00|00000000-0000-0000-0000-000000000007"
    assert_eq!(
        encode_cursor(at(0), 7),
        "MjAyMy0xMS0xNFQyMjoxMzoyMCswMDowMHwwMDAwMDAwMC0wMDAwLTAwMDAtMDAwMC0wMDAwMDAwMDAwMDc"
    );
}

#[test]
fn a_year_of_five_digits_has_a_cursor_that_leads_nowhere() {
    let far = Timestamp {
        secs: 253_402_300_800,
        nanos: 0,
    };
    let cursor = encode_cursor(far, 1);
    assert_eq!(decode_cursor(&cursor).unwrap_err().message, "invalid cursor");
}

#[test]
fn cursors_of_bytes_that_are_not_text_are_invalid() {
    // The bytes ff fe.
    assert_eq!(decode_cursor("__4").unwrap_err().message, "invalid cursor");
}

#[test]
fn texts_are_split_at_the_first_bar() {
    assert_eq!(
        split_at_bar("a|b|c"),
        Some(("a".to_string(), "b|c".to_string()))
    );
    assert_eq!(split_at_bar("|"), Some((String::new(), String::new())));
    assert_eq!(split_at_bar("abc"), None);
}

#[test]
fn live_does_not_require_database() {
    let health = live();
    assert_eq!(health.code, 200);
    assert_eq!(health.status, "ok");
    assert_eq!(health.reason, None);
}

#[test]
fn ready_reports_unavailable_when_database_unreachable() {
    let health = ready(false);
    assert_eq!(health.code, 503);
    assert_eq!(health.status, "unavailable");
    assert_eq!(health.reason, Some("database unreachable"));
}

#[test]
fn ready_reports_ok_when_database_reachable() {
    assert_eq!(ready(true).code, 200);
}

#[test]
fn errors_have_stable_codes() {
    let seen = |e: ApiError| (e.status, e.code, e.message);
    let m = || "m".to_string();
    assert_eq!(
        seen(ApiError::invalid_argument(m())),
        (400, "INVALID_ARGUMENT", m())
    );
    assert_eq!(seen(ApiError::not_found(m())), (404, "NOT_FOUND", m()));
    assert_eq!(
        seen(ApiError::invalid_state(m())),
        (409, "INVALID_STATE", m())
    );
    assert_eq!(seen(ApiError::internal(m())), (500, "INTERNAL", m()));
    assert_eq!(seen(ApiError::new(418, "TEAPOT", m())), (418, "TEAPOT", m()));
    assert_eq!(
        seen(ApiError::from_repo_error(RepoError::Inconsistent(m()))),
        (500, "INTERNAL", "internal error".to_string())
    );
    assert_eq!(
        seen(ApiError::from_validation_error(ValidationError::EmptyKind)),
        (400, "INVALID_ARGUMENT", "kind must not be empty".to_string())
    );
}
