//! Jobs and their attempts in the store.

use std::collections::HashSet;

use reliableq::db::attempts::list_for_job;
use reliableq::db::jobs::{
    self, claim_pending_jobs, finalize_dead, finalize_retry_scheduled, finalize_success,
    get_job_by_id, insert_job, renew_lease, retry_dead_job, ClaimedJob, JobRow, JobStore, RepoError,
};
use reliableq::db::model::FreshIds;
use reliableq::domain::JobStatus;
use reliableq::time::{Duration, Timestamp};
use uuid::Uuid;

const PAYLOAD: &str = r#"{"customer_id":"c1","amount_cents":500,"currency":"INR"}"#;

fn new_id() -> u128 {
    Uuid::new_v4().as_u128()
}

/// `ms` milliseconds after the beginning of the test.
fn at(ms: i64) -> Timestamp {
    Timestamp {
        secs: 1_700_000_000 + ms / 1000,
        nanos: (ms % 1000) as u32 * 1_000_000,
    }
}

fn insert(store: &mut JobStore, id: u128, max_attempts: i32, now: Timestamp) -> JobRow {
    insert_job(store, id, "charge", PAYLOAD, max_attempts, now).expect("insert")
}

fn fresh(n: usize) -> Vec<FreshIds> {
    (0..n)
        .map(|_| FreshIds {
            lease_token: new_id(),
            attempt_id: new_id(),
        })
        .collect()
}

fn claim(
    store: &mut JobStore,
    worker: &str,
    limit: i64,
    lease: Duration,
    now: Timestamp,
) -> Vec<ClaimedJob> {
    let ids = fresh(store.jobs.len());
    claim_pending_jobs(store, worker, limit, &lease, now, &ids).expect("claim")
}

fn job(store: &JobStore, id: u128) -> JobRow {
    get_job_by_id(store, id).expect("job exists")
}

#[test]
fn insert_and_get_round_trip() {
    let mut store = JobStore::new();
    let id = new_id();
    let inserted = insert(&mut store, id, 5, at(0));

    assert_eq!(inserted.id, id);
    assert_eq!(inserted.status().unwrap(), JobStatus::Pending);
    assert_eq!(inserted.attempts, 0);
    assert_eq!(inserted.max_attempts, 5);
    assert!(inserted.lease_token.is_none());
    assert!(inserted.finished_at.is_none());

    let fetched = job(&store, id);
    assert_eq!(fetched.id, id);
    assert_eq!(fetched.kind, "charge");
    assert_eq!(fetched.payload, PAYLOAD);
    assert_eq!(fetched.next_attempt_at, at(0));
    assert_eq!(fetched.version, 0);
}

#[test]
fn get_missing_job_returns_none() {
    let store = JobStore::new();
    let missing = get_job_by_id(&store, new_id());
    assert!(missing.is_none());
}

#[test]
fn an_identifier_is_taken_once() {
    let mut store = JobStore::new();
    insert(&mut store, 7, 5, at(0));
    let again = insert_job(&mut store, 7, "charge", PAYLOAD, 5, at(1));
    assert!(matches!(again, Err(RepoError::Database(_))));
    assert_eq!(store.jobs.len(), 1);
}

#[test]
fn list_jobs_paginates_in_created_order() {
    let mut store = JobStore::new();
    let mut ids = Vec::new();
    for n in 0..5 {
        let id = new_id();
        insert(&mut store, id, 5, at(2 * n));
        ids.push(id);
    }

    let first_page = jobs::list_jobs(&store, Some(JobStatus::Pending), 2, None).expect("page 1");
    assert_eq!(first_page.len(), 2);
    assert_eq!(first_page[0].id, ids[0]);
    assert_eq!(first_page[1].id, ids[1]);

    let cursor = (first_page[1].created_at, first_page[1].id);
    let second_page =
        jobs::list_jobs(&store, Some(JobStatus::Pending), 2, Some(cursor)).expect("page 2");
    assert_eq!(second_page.len(), 2);
    assert_eq!(second_page[0].id, ids[2]);
    assert_eq!(second_page[1].id, ids[3]);
}

#[test]
fn listing_breaks_ties_by_identifier_and_refuses_negative_limits() {
    let mut store = JobStore::new();
    for id in [30, 10, 20] {
        insert(&mut store, id, 5, at(0));
    }
    let ids: Vec<u128> = jobs::list_jobs(&store, None, 10, None)
        .unwrap()
        .iter()
        .map(|row| row.id)
        .collect();
    assert_eq!(ids, [10, 20, 30]);
    let after: Vec<u128> = jobs::list_jobs(&store, None, 10, Some((at(0), 10)))
        .unwrap()
        .iter()
        .map(|row| row.id)
        .collect();
    assert_eq!(after, [20, 30]);
    assert!(jobs::list_jobs(&store, None, 0, None).unwrap().is_empty());
    assert!(matches!(
        jobs::list_jobs(&store, None, -1, None),
        Err(RepoError::Database(_))
    ));
    assert!(jobs::list_jobs(&store, Some(JobStatus::Dead), 10, None)
        .unwrap()
        .is_empty());
}

#[test]
fn claim_only_returns_due_pending_jobs() {
    let mut store = JobStore::new();
    let due_id = new_id();
    insert(&mut store, due_id, 5, at(0));

    let future_id = new_id();
    insert(&mut store, future_id, 5, at(0));
    store.jobs[1].next_attempt_at = at(3_600_000);

    let claimed = claim(&mut store, "worker-1", 10, Duration::from_secs(30), at(0));

    assert_eq!(claimed.len(), 1);
    assert_eq!(claimed[0].job.id, due_id);
    assert_eq!(claimed[0].attempt_number, 1);
    assert_eq!(claimed[0].job.status().unwrap(), JobStatus::Running);
    assert!(claimed[0].job.lease_token.is_some());
    assert_eq!(claimed[0].job.lease_expires_at, Some(at(30_000)));
    assert_eq!(claimed[0].job.started_at, Some(at(0)));
    assert!(!claimed[0].was_reclaimed);
}

#[test]
fn claim_never_returns_the_same_job_to_two_concurrent_claimants() {
    let mut store = JobStore::new();
    for _ in 0..20 {
        insert(&mut store, new_id(), 5, at(0));
    }

    let a = claim(&mut store, "worker-a", 15, Duration::from_secs(30), at(0));
    let b = claim(&mut store, "worker-b", 15, Duration::from_secs(30), at(0));

    let a_ids: HashSet<_> = a.iter().map(|c| c.job.id).collect();
    let b_ids: HashSet<_> = b.iter().map(|c| c.job.id).collect();
    assert!(
        a_ids.is_disjoint(&b_ids),
        "two workers must not claim the same job"
    );
    assert_eq!(
        a.len() + b.len(),
        20,
        "every job must be claimed exactly once"
    );
}

#[test]
fn claims_go_by_due_time_then_by_age() {
    let mut store = JobStore::new();
    for (id, created, due) in [(1, 0, 50), (2, 10, 40), (3, 5, 40), (4, 20, 20)] {
        insert(&mut store, id, 5, at(created));
        let last = store.jobs.len() - 1;
        store.jobs[last].next_attempt_at = at(due);
    }
    let ids: Vec<u128> = claim(&mut store, "w", 3, Duration::from_secs(30), at(100))
        .iter()
        .map(|c| c.job.id)
        .collect();
    assert_eq!(ids, [4, 3, 2]);
    assert_eq!(job(&store, 1).status().unwrap(), JobStatus::Pending);
}

#[test]
fn a_claim_is_refused_as_a_whole() {
    let mut store = JobStore::new();
    insert(&mut store, 1, 5, at(0));
    let ids = fresh(1);
    let lease = Duration::from_secs(30);
    assert!(matches!(
        claim_pending_jobs(&mut store, "w", -1, &lease, at(0), &ids),
        Err(RepoError::Database(_))
    ));
    let endless = Duration::from_secs(u64::MAX);
    assert!(matches!(
        claim_pending_jobs(&mut store, "w", 1, &endless, at(0), &ids),
        Err(RepoError::Database(_))
    ));
    assert_eq!(job(&store, 1).status().unwrap(), JobStatus::Pending);
    assert!(store.attempts.is_empty());
    assert!(claim(&mut store, "w", 0, lease, at(0)).is_empty());
}

#[test]
fn claim_creates_a_matching_attempt_row() {
    let mut store = JobStore::new();
    let id = new_id();
    insert(&mut store, id, 5, at(0));

    let claimed = claim(&mut store, "worker-1", 10, Duration::from_secs(30), at(0));
    assert_eq!(claimed.len(), 1);

    let attempts = list_for_job(&store, id);
    assert_eq!(attempts.len(), 1);
    assert_eq!(attempts[0].attempt_number, 1);
    assert_eq!(attempts[0].worker_id, "worker-1");
    assert_eq!(attempts[0].lease_token, claimed[0].job.lease_token);
    assert_eq!(
        attempts[0].outcome, None,
        "outcome is set only at finalization"
    );
}

#[test]
fn finalize_success_transitions_job_and_attempt() {
    let mut store = JobStore::new();
    let id = new_id();
    insert(&mut store, id, 5, at(0));
    let claimed = claim(&mut store, "worker-1", 10, Duration::from_secs(30), at(0));
    let lease_token = claimed[0].job.lease_token.expect("lease token present");

    let ok = finalize_success(&mut store, id, lease_token, 42, at(42));
    assert!(ok);

    let job = job(&store, id);
    assert_eq!(job.status().unwrap(), JobStatus::Succeeded);
    assert!(job.lease_token.is_none());
    assert!(job.lease_expires_at.is_none());
    assert_eq!(job.finished_at, Some(at(42)));

    let attempts = list_for_job(&store, id);
    assert_eq!(attempts[0].outcome.as_deref(), Some("SUCCEEDED"));
    assert_eq!(attempts[0].duration_ms, Some(42));
    assert_eq!(attempts[0].finished_at, Some(at(42)));

    // An attempt ends once.
    assert!(!finalize_success(&mut store, id, lease_token, 42, at(43)));
}

#[test]
fn finalize_dead_transitions_job_and_records_error() {
    let mut store = JobStore::new();
    let id = new_id();
    insert(&mut store, id, 5, at(0));
    let claimed = claim(&mut store, "worker-1", 10, Duration::from_secs(30), at(0));
    let lease_token = claimed[0].job.lease_token.expect("lease token present");

    let ok = finalize_dead(&mut store, id, lease_token, "PERMANENT", "rejected", 7, at(7));
    assert!(ok);

    let job = job(&store, id);
    assert_eq!(job.status().unwrap(), JobStatus::Dead);
    assert_eq!(job.last_error_code.as_deref(), Some("PERMANENT"));
    assert_eq!(job.last_error_message.as_deref(), Some("rejected"));
    assert!(job.lease_token.is_none());
    assert!(job.finished_at.is_some());
    let attempts = list_for_job(&store, id);
    assert_eq!(attempts[0].outcome.as_deref(), Some("DEAD"));
    assert_eq!(attempts[0].error_code.as_deref(), Some("PERMANENT"));
    assert_eq!(attempts[0].duration_ms, Some(7));
}

#[test]
fn stale_lease_token_cannot_finalize() {
    let mut store = JobStore::new();
    let id = new_id();
    insert(&mut store, id, 5, at(0));
    claim(&mut store, "worker-1", 10, Duration::from_secs(30), at(0));

    let stale_token = new_id();
    let ok = finalize_success(&mut store, id, stale_token, 1, at(1));
    assert!(
        !ok,
        "a stale/wrong lease token must not be able to finalize"
    );
    assert!(!finalize_dead(&mut store, id, stale_token, "X", "x", 1, at(1)));
    assert!(!finalize_retry_scheduled(
        &mut store,
        id,
        stale_token,
        &Duration::zero(),
        "X",
        "x",
        1,
        at(1)
    )
    .unwrap());
    assert!(!renew_lease(&mut store, id, stale_token, &Duration::from_secs(9), at(1)).unwrap());

    let job = job(&store, id);
    assert_eq!(
        job.status().unwrap(),
        JobStatus::Running,
        "job must remain untouched by the rejected finalize"
    );
    assert_eq!(job.lease_expires_at, Some(at(30_000)));
}

#[test]
fn dead_jobs_are_not_claimable() {
    let mut store = JobStore::new();
    let id = new_id();
    insert(&mut store, id, 1, at(0));
    let claimed = claim(&mut store, "worker-1", 10, Duration::from_secs(30), at(0));
    let lease_token = claimed[0].job.lease_token.expect("lease token present");
    assert!(finalize_dead(&mut store, id, lease_token, "PERMANENT", "no", 1, at(1)));

    let reclaimed = claim(&mut store, "worker-2", 10, Duration::from_secs(30), at(1));
    assert!(
        reclaimed.iter().all(|c| c.job.id != id),
        "a DEAD job must never be claimable"
    );
}

#[test]
fn status_parses_via_typed_error_not_panic() {
    let mut store = JobStore::new();
    let mut row = insert(&mut store, new_id(), 5, at(0));
    match row.status() {
        Ok(JobStatus::Pending) => {}
        other => panic!("expected Ok(Pending), got {other:?}"),
    }
    row.status = "BOGUS".to_string();
    match row.status() {
        Err(RepoError::Inconsistent(message)) => {
            assert_eq!(message, "unexpected job status \"BOGUS\"")
        }
        other => panic!("expected an inconsistency, got {other:?}"),
    }
}

#[test]
fn finalize_retry_scheduled_reschedules_and_clears_lease() {
    let mut store = JobStore::new();
    let id = new_id();
    insert(&mut store, id, 5, at(0));
    let claimed = claim(&mut store, "worker-1", 10, Duration::from_secs(30), at(0));
    let lease_token = claimed[0].job.lease_token.expect("lease token");

    let ok = finalize_retry_scheduled(
        &mut store,
        id,
        lease_token,
        &Duration::from_secs(30),
        "TRANSIENT",
        "simulated 503",
        5,
        at(5),
    )
    .expect("finalize retry");
    assert!(ok);

    let job = job(&store, id);
    assert_eq!(job.status().unwrap(), JobStatus::Pending);
    assert!(job.lease_token.is_none());
    assert_eq!(job.last_error_code.as_deref(), Some("TRANSIENT"));
    assert!(
        job.next_attempt_at > job.created_at,
        "next_attempt_at must be pushed into the future by the scheduled delay"
    );
    assert_eq!(job.next_attempt_at, at(30_005));

    let attempts = list_for_job(&store, id);
    assert_eq!(attempts[0].outcome.as_deref(), Some("RETRY_SCHEDULED"));
    assert_eq!(attempts[0].scheduled_delay_ms, Some(30_000));
    assert_eq!(attempts[0].error_message.as_deref(), Some("simulated 503"));

    // Not before its time.
    assert!(claim(&mut store, "w", 10, Duration::from_secs(30), at(30_004)).is_empty());
    assert_eq!(
        claim(&mut store, "w", 10, Duration::from_secs(30), at(30_005)).len(),
        1
    );
}

#[test]
fn a_delay_beyond_all_time_is_refused() {
    let mut store = JobStore::new();
    insert(&mut store, 1, 5, at(0));
    let token = claim(&mut store, "w", 1, Duration::from_secs(30), at(0))[0]
        .job
        .lease_token
        .unwrap();
    let endless = Duration::from_secs(u64::MAX);
    assert!(matches!(
        finalize_retry_scheduled(&mut store, 1, token, &endless, "X", "x", 1, at(1)),
        Err(RepoError::Database(_))
    ));
    assert!(matches!(
        renew_lease(&mut store, 1, token, &endless, at(1)),
        Err(RepoError::Database(_))
    ));
    assert_eq!(job(&store, 1).status().unwrap(), JobStatus::Running);
}

#[test]
fn zero_delay_retry_scheduling_makes_a_job_immediately_reclaimable() {
    let mut store = JobStore::new();
    let id = new_id();
    insert(&mut store, id, 5, at(0));
    let claimed = claim(&mut store, "worker-a", 10, Duration::from_secs(30), at(0));
    let lease_token = claimed[0].job.lease_token.expect("lease token");

    finalize_retry_scheduled(
        &mut store,
        id,
        lease_token,
        &Duration::zero(),
        "TRANSIENT",
        "simulated",
        1,
        at(1),
    )
    .expect("finalize retry with zero delay");

    let reclaimed = claim(&mut store, "worker-b", 10, Duration::from_secs(30), at(1));
    assert_eq!(
        reclaimed.len(),
        1,
        "a zero-delay retry is due again with no backoff at all"
    );
}

#[test]
fn expired_lease_is_reclaimable_by_a_new_worker() {
    let mut store = JobStore::new();
    let id = new_id();
    insert(&mut store, id, 5, at(0));

    let claimed_a = claim(&mut store, "worker-a", 10, Duration::from_millis(1), at(0));
    assert_eq!(claimed_a.len(), 1);

    let claimed_b = claim(&mut store, "worker-b", 10, Duration::from_secs(30), at(20));
    assert_eq!(
        claimed_b.len(),
        1,
        "an expired RUNNING lease must be reclaimable by a new worker"
    );
    assert_eq!(claimed_b[0].job.id, id);
    assert_eq!(
        claimed_b[0].attempt_number, 2,
        "reclaiming must record a new, incremented attempt"
    );
    assert_ne!(
        claimed_b[0].job.lease_token, claimed_a[0].job.lease_token,
        "reclaim must issue a fresh lease token"
    );
    assert!(claimed_b[0].was_reclaimed);
    assert_eq!(claimed_b[0].job.started_at, Some(at(0)));
}

#[test]
fn a_lease_holds_until_its_very_end() {
    let mut store = JobStore::new();
    insert(&mut store, 1, 5, at(0));
    claim(&mut store, "a", 1, Duration::from_secs(1), at(0));
    assert!(claim(&mut store, "b", 1, Duration::from_secs(1), at(999)).is_empty());
    assert_eq!(
        claim(&mut store, "b", 1, Duration::from_secs(1), at(1000)).len(),
        1
    );
}

#[test]
fn reclaim_marks_the_abandoned_attempt_as_lease_lost() {
    let mut store = JobStore::new();
    let id = new_id();
    insert(&mut store, id, 5, at(0));
    claim(&mut store, "worker-a", 10, Duration::from_millis(1), at(0));
    claim(&mut store, "worker-b", 10, Duration::from_secs(30), at(20));

    let attempts = list_for_job(&store, id);
    assert_eq!(attempts[0].attempt_number, 1);
    assert_eq!(attempts[0].outcome.as_deref(), Some("LEASE_LOST"));
    assert_eq!(attempts[0].finished_at, Some(at(20)));
    assert_eq!(attempts[1].attempt_number, 2);
    assert_eq!(attempts[1].outcome, None);
}

#[test]
fn attempts_are_closed_once_their_lease_has_run_out() {
    let mut store = JobStore::new();
    insert(&mut store, 1, 5, at(0));
    insert(&mut store, 2, 5, at(1));
    claim(&mut store, "a", 1, Duration::from_millis(10), at(1));
    claim(&mut store, "b", 1, Duration::from_millis(30), at(1));

    jobs::close_lost_attempts(&mut store, &at(20));
    let lost = &list_for_job(&store, 1)[0];
    assert_eq!(lost.outcome.as_deref(), Some("LEASE_LOST"));
    assert_eq!(lost.finished_at, Some(at(20)));
    assert_eq!(list_for_job(&store, 2)[0].outcome, None);
    // The job itself is left to the next claim, and an attempt is closed only once.
    assert_eq!(job(&store, 1).status().unwrap(), JobStatus::Running);
    jobs::close_lost_attempts(&mut store, &at(25));
    assert_eq!(list_for_job(&store, 1)[0].finished_at, Some(at(20)));
}

#[test]
fn an_attempt_is_lost_even_where_its_job_is_passed_over() {
    let mut store = JobStore::new();
    insert(&mut store, 1, 5, at(0));
    insert(&mut store, 2, 5, at(1));
    let first = claim(&mut store, "a", 2, Duration::from_millis(1), at(1));
    let second_token = first[1].job.lease_token.unwrap();
    // Only one of the two abandoned jobs is taken over.
    assert_eq!(claim(&mut store, "b", 1, Duration::from_secs(30), at(50)).len(), 1);
    assert_eq!(
        list_for_job(&store, 2)[0].outcome.as_deref(),
        Some("LEASE_LOST")
    );
    // The other one still belongs to its first holder.
    assert!(finalize_success(&mut store, 2, second_token, 1, at(51)));
    assert_eq!(
        list_for_job(&store, 2)[0].outcome.as_deref(),
        Some("SUCCEEDED")
    );
}

#[test]
fn stale_worker_cannot_finalize_after_reclaim() {
    let mut store = JobStore::new();
    let id = new_id();
    insert(&mut store, id, 5, at(0));
    let claimed_a = claim(&mut store, "worker-a", 10, Duration::from_millis(1), at(0));
    let stale_token = claimed_a[0].job.lease_token.expect("lease token");

    let claimed_b = claim(&mut store, "worker-b", 10, Duration::from_secs(30), at(20));
    let current_token = claimed_b[0].job.lease_token.expect("lease token");
    assert_ne!(stale_token, current_token);

    let stale_ok = finalize_success(&mut store, id, stale_token, 5, at(25));
    assert!(
        !stale_ok,
        "worker A's stale lease token must not be able to finalize"
    );

    let current_ok = finalize_success(&mut store, id, current_token, 5, at(26));
    assert!(
        current_ok,
        "worker B, the current owner, must be able to finalize"
    );
    assert_eq!(job(&store, id).status().unwrap(), JobStatus::Succeeded);
}

#[test]
fn two_workers_racing_to_reclaim_dont_double_claim() {
    let mut store = JobStore::new();
    let id = new_id();
    insert(&mut store, id, 5, at(0));
    claim(&mut store, "worker-a", 10, Duration::from_millis(1), at(0));

    let b = claim(&mut store, "worker-b", 10, Duration::from_secs(30), at(20));
    let c = claim(&mut store, "worker-c", 10, Duration::from_secs(30), at(20));
    assert_eq!(
        b.len() + c.len(),
        1,
        "exactly one of two racing reclaimers should win"
    );
}

#[test]
fn expired_lease_with_exhausted_budget_becomes_dead_not_stranded() {
    let mut store = JobStore::new();
    let id = new_id();
    // The single claim below already consumes the entire budget.
    insert(&mut store, id, 1, at(0));
    claim(&mut store, "worker-a", 10, Duration::from_millis(1), at(0));

    let claimed = claim(&mut store, "worker-b", 10, Duration::from_secs(30), at(20));
    assert!(
        claimed.is_empty(),
        "an exhausted job must not be claimable again"
    );

    let job = job(&store, id);
    assert_eq!(
        job.status().unwrap(),
        JobStatus::Dead,
        "it must be DEAD, not left stranded RUNNING with an expired lease"
    );
    assert!(job.lease_token.is_none());
    assert!(job.finished_at.is_some());
    assert_eq!(
        job.last_error_code.as_deref(),
        Some("LEASE_EXPIRED_BUDGET_EXHAUSTED")
    );
    assert_eq!(
        job.last_error_message.as_deref(),
        Some("lease expired after exhausting max_attempts with no successful finalize")
    );
}

#[test]
fn a_renewed_lease_lasts_longer() {
    let mut store = JobStore::new();
    insert(&mut store, 1, 5, at(0));
    let token = claim(&mut store, "a", 1, Duration::from_secs(1), at(0))[0]
        .job
        .lease_token
        .unwrap();
    assert!(renew_lease(&mut store, 1, token, &Duration::from_secs(1), at(900)).unwrap());
    assert!(claim(&mut store, "b", 1, Duration::from_secs(1), at(1500)).is_empty());
    assert_eq!(job(&store, 1).lease_expires_at, Some(at(1900)));
    assert_eq!(job(&store, 1).attempts, 1);
}

#[test]
fn a_retried_job_goes_on_counting() {
    let mut store = JobStore::new();
    insert(&mut store, 1, 1, at(0));
    let token = claim(&mut store, "a", 1, Duration::from_secs(30), at(0))[0]
        .job
        .lease_token
        .unwrap();
    assert!(retry_dead_job(&mut store, 1, 6, at(1)).is_none(), "not DEAD yet");
    assert!(finalize_dead(&mut store, 1, token, "PERMANENT", "no", 1, at(1)));

    let revived = retry_dead_job(&mut store, 1, 6, at(2)).expect("revived");
    assert_eq!(revived.status().unwrap(), JobStatus::Pending);
    assert_eq!(revived.attempts, 1);
    assert_eq!(revived.max_attempts, 6);
    assert_eq!(revived.next_attempt_at, at(2));
    assert!(revived.last_error_code.is_none());
    assert!(revived.finished_at.is_none());

    let again = claim(&mut store, "b", 1, Duration::from_secs(30), at(2));
    assert_eq!(again[0].attempt_number, 2);
    assert!(!again[0].was_reclaimed);
    let numbers: Vec<i32> = list_for_job(&store, 1)
        .iter()
        .map(|a| a.attempt_number)
        .collect();
    assert_eq!(numbers, [1, 2]);
    assert!(retry_dead_job(&mut store, 99, 6, at(3)).is_none());
}

#[test]
fn a_job_succeeds_at_most_once_and_stays_within_its_budget() {
    let mut store = JobStore::new();
    insert(&mut store, 1, 3, at(0));
    let mut tokens = Vec::new();
    for n in 0..5 {
        for c in claim(&mut store, "w", 1, Duration::from_millis(1), at(10 * n)) {
            tokens.push(c.job.lease_token.unwrap());
        }
    }
    assert_eq!(tokens.len(), 3);
    for token in tokens {
        finalize_success(&mut store, 1, token, 1, at(100));
    }
    let row = job(&store, 1);
    assert_eq!(row.attempts, 3);
    assert_eq!(row.status().unwrap(), JobStatus::Dead);
    let successes = list_for_job(&store, 1)
        .iter()
        .filter(|a| a.outcome.as_deref() == Some("SUCCEEDED"))
        .count();
    assert_eq!(successes, 0);
}

#[test]
fn a_job_moves_along_the_state_machine() {
    let mut store = JobStore::new();
    insert(&mut store, 1, 2, at(0));
    let mut seen = vec![job(&store, 1).status().unwrap()];

    let first = claim(&mut store, "worker-a", 1, Duration::from_secs(30), at(0));
    seen.push(job(&store, 1).status().unwrap());
    let token = first[0].job.lease_token.unwrap();
    let delay = Duration::from_secs(1);
    finalize_retry_scheduled(&mut store, 1, token, &delay, "TRANSIENT", "503", 5, at(10)).unwrap();
    seen.push(job(&store, 1).status().unwrap());

    claim(&mut store, "worker-b", 1, Duration::from_secs(1), at(2000));
    seen.push(job(&store, 1).status().unwrap());
    claim(&mut store, "worker-c", 1, Duration::from_secs(1), at(4000));
    seen.push(job(&store, 1).status().unwrap());

    retry_dead_job(&mut store, 1, 3, at(5000)).unwrap();
    seen.push(job(&store, 1).status().unwrap());
    let last = claim(&mut store, "worker-d", 1, Duration::from_secs(1), at(5000));
    let token = last[0].job.lease_token.unwrap();
    assert!(finalize_success(&mut store, 1, token, 5, at(5500)));
    seen.push(job(&store, 1).status().unwrap());

    assert_eq!(
        seen,
        [
            JobStatus::Pending,
            JobStatus::Running,
            JobStatus::Pending,
            JobStatus::Running,
            JobStatus::Dead,
            JobStatus::Pending,
            JobStatus::Succeeded,
        ]
    );
    assert_eq!(job(&store, 1).payload, PAYLOAD);
}
