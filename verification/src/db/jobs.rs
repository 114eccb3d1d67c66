//! The rows of jobs, and the operations by which workers and operators move them on.
//!
//! Claiming covers due pending jobs and running jobs whose lease has run out: abandoned attempts
//! are closed as `LEASE_LOST`, jobs without an attempt left become `DEAD` instead of being
//! stranded, and the rest go to the claiming worker under a fresh lease token. `retry_dead_job`
//! is the only way back from `DEAD`.

use crate::db::attempts::{attempt_records, AttemptRow};
use crate::db::model::{
    at_most, claim_keys, has_job, is_claim_order, job_of, list_key, listed_keys, AttemptRecord,
    ClaimTerms, FreshIds, JobRecord, QueueState,
};
use crate::db::order::{is_order, lemma_order_distinct, ordered, places, rows_at, SortKey};
use crate::domain::{AttemptOutcome, JobStatus};
use crate::text::{copy_text, debug_quoted, join2, opt_text, quoted, same_text};
use crate::time::{Duration, Timestamp};
use vstd::prelude::*;

verus! {

#[derive(Debug)]
pub enum RepoError {
    /// The store refused the statement.
    Database(String),
    /// The store holds what the rules of the queue do not allow.
    Inconsistent(String),
}

/// A row of the `jobs` table. The payload is JSON text.
#[derive(Debug)]
pub struct JobRow {
    pub id: u128,
    pub kind: String,
    pub payload: String,
    pub status: String,
    pub attempts: i32,
    pub max_attempts: i32,
    pub next_attempt_at: Timestamp,
    pub lease_token: Option<u128>,
    pub lease_expires_at: Option<Timestamp>,
    pub last_error_code: Option<String>,
    pub last_error_message: Option<String>,
    pub created_at: Timestamp,
    pub updated_at: Timestamp,
    pub started_at: Option<Timestamp>,
    pub finished_at: Option<Timestamp>,
    pub version: i64,
}

impl View for JobRow {
    type V = JobRecord;

    open spec fn view(&self) -> JobRecord {
        JobRecord {
            id: self.id,
            kind: self.kind@,
            payload: self.payload@,
            status: self.status@,
            attempts: self.attempts,
            max_attempts: self.max_attempts,
            next_attempt_at: self.next_attempt_at,
            lease_token: self.lease_token,
            lease_expires_at: self.lease_expires_at,
            last_error_code: opt_text(self.last_error_code),
            last_error_message: opt_text(self.last_error_message),
            created_at: self.created_at,
            updated_at: self.updated_at,
            started_at: self.started_at,
            finished_at: self.finished_at,
            version: self.version,
        }
    }
}

impl Clone for JobRow {
    fn clone(&self) -> (row: Self)
        ensures
            row@ == self@,
    {
        JobRow {
            id: self.id,
            kind: self.kind.clone(),
            payload: self.payload.clone(),
            status: self.status.clone(),
            attempts: self.attempts,
            max_attempts: self.max_attempts,
            next_attempt_at: self.next_attempt_at,
            lease_token: self.lease_token,
            lease_expires_at: self.lease_expires_at,
            last_error_code: copy_text(&self.last_error_code),
            last_error_message: copy_text(&self.last_error_message),
            created_at: self.created_at,
            updated_at: self.updated_at,
            started_at: self.started_at,
            finished_at: self.finished_at,
            version: self.version,
        }
    }
}

/// What the rows of a job table hold.
pub open spec fn job_records(rows: Seq<JobRow>) -> Seq<JobRecord> {
    rows.map_values(|row: JobRow| row@)
}

/// Rows of the `jobs` and `job_attempts` tables.
#[derive(Debug)]
pub struct JobStore {
    pub jobs: Vec<JobRow>,
    pub attempts: Vec<AttemptRow>,
}

impl View for JobStore {
    type V = QueueState;

    open spec fn view(&self) -> QueueState {
        QueueState {
            jobs: job_records(self.jobs@),
            attempts: attempt_records(self.attempts@),
        }
    }
}

impl JobStore {
    /// A store without rows.
    pub fn new() -> (store: JobStore)
        ensures
            store@ == (QueueState { jobs: seq![], attempts: seq![] }),
    {
        let store = JobStore { jobs: Vec::new(), attempts: Vec::new() };
        assert(store@ =~= (QueueState { jobs: seq![], attempts: seq![] }));
        store
    }
}

impl JobRow {
    /// The status that the stored text stands for. A text that is none of the known ones is
    /// reported, not guessed at.
    pub fn status(&self) -> (r: Result<JobStatus, RepoError>)
        ensures
            match r {
                Ok(status) => JobStatus::of_text(self.status@) == Some(status),
                Err(RepoError::Inconsistent(message)) => JobStatus::of_text(self.status@) is None
                    && message@ == "unexpected job status "@ + debug_quoted(self.status@),
                Err(RepoError::Database(_)) => false,
            },
    {
        match JobStatus::parse_db_str(&self.status) {
            Some(status) => Ok(status),
            None => Err(
                RepoError::Inconsistent(join2("unexpected job status ", &quoted(&self.status))),
            ),
        }
    }

    fn is(&self, status: JobStatus) -> (r: bool)
        ensures
            r == self@.is(status),
    {
        same_text(&self.status, status.as_db_str())
    }

    fn is_expired(&self, now: &Timestamp) -> (r: bool)
        ensures
            r == self@.expired(*now),
    {
        match self.lease_expires_at {
            Some(end) => self.is(JobStatus::Running) && !now.is_before(&end),
            None => false,
        }
    }

    fn is_claimable(&self, now: &Timestamp) -> (r: bool)
        ensures
            r == self@.claimable(*now),
    {
        self.attempts < self.max_attempts && (self.is_expired(now) || (self.is(JobStatus::Pending)
            && !now.is_before(&self.next_attempt_at)))
    }

    fn list_key(&self) -> (key: SortKey)
        ensures
            key == self@.list_key(),
    {
        list_key_of(self.created_at, self.id)
    }

    fn claim_key(&self) -> (key: SortKey)
        ensures
            key == self@.claim_key(),
    {
        SortKey {
            first: self.next_attempt_at.secs,
            second: self.next_attempt_at.nanos,
            third: self.created_at.secs,
            fourth: self.created_at.nanos,
            fifth: 0,
        }
    }

    fn is_leased_to(&self, id: u128, token: u128) -> (r: bool)
        ensures
            r == self@.leased_to(id, token),
    {
        self.id == id && self.lease_token == Some(token) && self.is(JobStatus::Running)
    }
}

impl JobRow {
    fn mark_claimed(&mut self, token: u128, lease_end: Timestamp, now: Timestamp)
        requires
            old(self).attempts < i32::MAX,
        ensures
            final(self)@ == old(self)@.claimed(token, lease_end, now),
    {
        self.status = JobStatus::Running.to_string();
        self.attempts = self.attempts + 1;
        self.lease_token = Some(token);
        self.lease_expires_at = Some(lease_end);
        if self.started_at.is_none() {
            self.started_at = Some(now);
        }
        self.updated_at = now;
    }

    fn mark_abandoned_for_good(&mut self, now: Timestamp)
        ensures
            final(self)@ == old(self)@.abandoned_for_good(now),
    {
        self.status = JobStatus::Dead.to_string();
        self.lease_token = None;
        self.lease_expires_at = None;
        self.last_error_code = Some("LEASE_EXPIRED_BUDGET_EXHAUSTED".to_string());
        self.last_error_message = Some(
            "lease expired after exhausting max_attempts with no successful finalize".to_string(),
        );
        self.finished_at = Some(now);
        self.updated_at = now;
    }
}

impl JobRow {
    fn revive(&mut self, max_attempts: i32, now: Timestamp)
        ensures
            final(self)@ == old(self)@.revived(max_attempts, now),
    {
        self.status = JobStatus::Pending.to_string();
        self.next_attempt_at = now;
        self.lease_token = None;
        self.lease_expires_at = None;
        self.last_error_code = None;
        self.last_error_message = None;
        self.finished_at = None;
        self.max_attempts = max_attempts;
        self.updated_at = now;
    }

    fn renew(&mut self, lease_end: Timestamp, now: Timestamp)
        ensures
            final(self)@ == old(self)@.renewed(lease_end, now),
    {
        self.lease_expires_at = Some(lease_end);
        self.updated_at = now;
    }
}

fn list_key_of(created_at: Timestamp, id: u128) -> (key: SortKey)
    ensures
        key == list_key(created_at, id),
{
    SortKey { first: created_at.secs, second: created_at.nanos, third: 0, fourth: 0, fifth: id }
}

/// A job that a worker has claimed.
#[derive(Debug, Clone)]
pub struct ClaimedJob {
    pub job: JobRow,
    /// The number of the attempt that the claim began.
    pub attempt_number: i32,
    /// The job was taken over from a worker whose lease had run out.
    pub was_reclaimed: bool,
}

/// Adds a job, pending and due at once. Refuses an identifier that is already taken.
pub fn insert_job(
    store: &mut JobStore,
    id: u128,
    kind: &str,
    payload: &str,
    max_attempts: i32,
    now: Timestamp,
) -> (r: Result<JobRow, RepoError>)
    ensures
        match r {
            Ok(row) => {
                &&& !has_job(old(store)@.jobs, id)
                &&& row@ == JobRecord::submitted(id, kind@, payload@, max_attempts, now)
                &&& final(store)@.jobs == old(store)@.jobs.push(row@)
                &&& final(store)@.attempts == old(store)@.attempts
            },
            Err(e) => {
                &&& e is Database
                &&& has_job(old(store)@.jobs, id)
                &&& *final(store) == *old(store)
            },
        },
{
    let mut i: usize = 0;
    while i < store.jobs.len()
        invariant
            *store == *old(store),
            i <= store.jobs.len(),
            forall|j: int| 0 <= j < i ==> (#[trigger] store@.jobs[j]).id != id,
        decreases store.jobs.len() - i,
    {
        assert(store@.jobs[i as int] == store.jobs@[i as int]@);
        if store.jobs[i].id == id {
            return Err(RepoError::Database("duplicate job id".to_string()));
        }
        i = i + 1;
    }
    let row = JobRow {
        id,
        kind: kind.to_string(),
        payload: payload.to_string(),
        status: JobStatus::Pending.to_string(),
        attempts: 0,
        max_attempts,
        next_attempt_at: now,
        lease_token: None,
        lease_expires_at: None,
        last_error_code: None,
        last_error_message: None,
        created_at: now,
        updated_at: now,
        started_at: None,
        finished_at: None,
        version: 0,
    };
    let copy = row.clone();
    store.jobs.push(row);
    assert(store@.jobs =~= old(store)@.jobs.push(copy@));
    Ok(copy)
}

/// Looks a job up by its identifier.
pub fn get_job_by_id(store: &JobStore, id: u128) -> (r: Option<JobRow>)
    ensures
        match r {
            Some(row) => job_of(store@.jobs, id) == Some(row@),
            None => job_of(store@.jobs, id) is None,
        },
{
    let mut i: usize = 0;
    assert(store@.jobs.skip(0) =~= store@.jobs);
    while i < store.jobs.len()
        invariant
            i <= store.jobs.len(),
            job_of(store@.jobs, id) == job_of(store@.jobs.skip(i as int), id),
        decreases store.jobs.len() - i,
    {
        assert(store@.jobs.skip(i as int).first() == store.jobs@[i as int]@);
        if store.jobs[i].id == id {
            return Some(store.jobs[i].clone());
        }
        assert(store@.jobs.skip(i as int).drop_first() =~= store@.jobs.skip(i + 1));
        i = i + 1;
    }
    None
}

/// A page of jobs: those with the given status, ordered by age and identifier, starting after the
/// given place, at most `limit` of them. A negative limit is refused.
pub fn list_jobs(
    store: &JobStore,
    status: Option<JobStatus>,
    limit: i64,
    after: Option<(Timestamp, u128)>,
) -> (r: Result<Vec<JobRow>, RepoError>)
    ensures
        match r {
            Ok(rows) => {
                &&& limit >= 0
                &&& exists|order: Seq<int>| #[trigger]
                    is_order(listed_keys(store@.jobs, status, after), order) && job_records(rows@)
                        == rows_at(store@.jobs, at_most(order, limit as int))
            },
            Err(e) => e is Database && limit < 0,
        },
{
    if limit < 0 {
        return Err(RepoError::Database("LIMIT must not be negative".to_string()));
    }
    let mut keys: Vec<Option<SortKey>> = Vec::new();
    let mut i: usize = 0;
    while i < store.jobs.len()
        invariant
            i <= store.jobs.len(),
            keys@ == listed_keys(store@.jobs, status, after).take(i as int),
        decreases store.jobs.len() - i,
    {
        let row = &store.jobs[i];
        assert(store@.jobs[i as int] == row@);
        let key = row.list_key();
        let wanted = match status {
            Some(s) => row.is(s),
            None => true,
        };
        let beyond = match after {
            Some(place) => list_key_of(place.0, place.1).is_before(&key),
            None => true,
        };
        keys.push(if wanted && beyond { Some(key) } else { None });
        assert(keys@ =~= listed_keys(store@.jobs, status, after).take(i + 1));
        i = i + 1;
    }
    assert(keys@ =~= listed_keys(store@.jobs, status, after));
    let order = ordered(&keys);
    let ghost at = places(order@);
    let mut rows: Vec<JobRow> = Vec::new();
    let mut k: usize = 0;
    while k < order.len() && (k as u64) < (limit as u64)
        invariant
            k <= order.len(),
            0 <= limit,
            k <= limit,
            at == places(order@),
            is_order(listed_keys(store@.jobs, status, after), at),
            rows.len() == k,
            forall|p: int| 0 <= p < k ==> (#[trigger] rows@[p])@ == store@.jobs[at[p]],
        decreases order.len() - k,
    {
        assert(0 <= at[k as int] < store@.jobs.len());
        rows.push(store.jobs[order[k]].clone());
        k = k + 1;
    }
    assert(job_records(rows@) =~= rows_at(store@.jobs, at_most(at, limit as int)));
    Ok(rows)
}

/// Closes the open attempts of the jobs whose lease has run out: whatever becomes of the job, from
/// the point of view of such an attempt its lease was lost.
pub fn close_lost_attempts(store: &mut JobStore, now: &Timestamp)
    ensures
        final(store)@.jobs == old(store)@.jobs,
        final(store).jobs == old(store).jobs,
        final(store)@.attempts == old(store)@.attempts_after_expiry(*now),
{
    let mut i: usize = 0;
    while i < store.attempts.len()
        invariant
            i <= store.attempts.len(),
            store.jobs == old(store).jobs,
            store.attempts.len() == old(store).attempts.len(),
            forall|k: int|
                0 <= k < i ==> (#[trigger] store.attempts@[k])@ == old(
                    store,
                )@.attempts_after_expiry(*now)[k],
            forall|k: int|
                i <= k < store.attempts.len() ==> #[trigger] store.attempts@[k] == old(
                    store,
                ).attempts@[k],
        decreases store.attempts.len() - i,
    {
        let lost = store.attempts[i].outcome.is_none() && lease_ran_out(
            &store.jobs,
            store.attempts[i].job_id,
            now,
        );
        if lost {
            store.attempts[i].mark_lost(*now);
        }
        i = i + 1;
    }
    assert(store@.attempts =~= old(store)@.attempts_after_expiry(*now));
}

/// Whether the job `job_id` has run out of its lease.
fn lease_ran_out(jobs: &Vec<JobRow>, job_id: u128, now: &Timestamp) -> (r: bool)
    ensures
        r == (exists|i: int|
            0 <= i < jobs.len() && (#[trigger] job_records(jobs@)[i]).id == job_id && job_records(
                jobs@,
            )[i].expired(*now)),
{
    let mut i: usize = 0;
    while i < jobs.len()
        invariant
            i <= jobs.len(),
            forall|k: int|
                0 <= k < i ==> !((#[trigger] job_records(jobs@)[k]).id == job_id && job_records(
                    jobs@,
                )[k].expired(*now)),
        decreases jobs.len() - i,
    {
        assert(job_records(jobs@)[i as int] == jobs@[i as int]@);
        if jobs[i].id == job_id && jobs[i].is_expired(now) {
            return true;
        }
        i = i + 1;
    }
    false
}

/// Gives up the jobs that have run out of both their lease and their attempts: nothing could claim
/// them any more.
fn give_up_exhausted(store: &mut JobStore, now: &Timestamp)
    ensures
        final(store).attempts == old(store).attempts,
        final(store).jobs.len() == old(store).jobs.len(),
        forall|k: int|
            0 <= k < old(store).jobs.len() ==> (#[trigger] final(store).jobs@[k])@
                == old(store).jobs@[k]@.given_up(*now),
{
    let mut i: usize = 0;
    while i < store.jobs.len()
        invariant
            i <= store.jobs.len(),
            store.attempts == old(store).attempts,
            store.jobs.len() == old(store).jobs.len(),
            forall|k: int|
                0 <= k < i ==> (#[trigger] store.jobs@[k])@ == old(store).jobs@[k]@.given_up(*now),
            forall|k: int|
                i <= k < store.jobs.len() ==> #[trigger] store.jobs@[k] == old(store).jobs@[k],
        decreases store.jobs.len() - i,
    {
        if store.jobs[i].is_expired(now) && store.jobs[i].attempts >= store.jobs[i].max_attempts {
            store.jobs[i].mark_abandoned_for_good(*now);
        }
        i = i + 1;
    }
}

/// The places of the claimable jobs, those to be taken first in front.
fn claim_order(jobs: &Vec<JobRow>, now: &Timestamp) -> (order: Vec<usize>)
    ensures
        is_claim_order(job_records(jobs@), *now, places(order@)),
{
    let mut keys: Vec<Option<SortKey>> = Vec::new();
    let mut i: usize = 0;
    while i < jobs.len()
        invariant
            i <= jobs.len(),
            keys@ == claim_keys(job_records(jobs@), *now).take(i as int),
        decreases jobs.len() - i,
    {
        let row = &jobs[i];
        assert(job_records(jobs@)[i as int] == row@);
        keys.push(if row.is_claimable(now) { Some(row.claim_key()) } else { None });
        assert(keys@ =~= claim_keys(job_records(jobs@), *now).take(i + 1));
        i = i + 1;
    }
    assert(keys@ =~= claim_keys(job_records(jobs@), *now));
    ordered(&keys)
}

/// Takes up to `limit` jobs for a worker: due pending ones, and running ones whose lease has run
/// out. Refuses a negative limit and a lease whose end cannot be expressed; the store is then
/// unchanged.
pub fn claim_pending_jobs(
    store: &mut JobStore,
    worker_id: &str,
    limit: i64,
    lease_duration: &Duration,
    now: Timestamp,
    fresh: &Vec<FreshIds>,
) -> (r: Result<Vec<ClaimedJob>, RepoError>)
    requires
        limit <= fresh.len() || old(store)@.jobs.len() <= fresh.len(),
    ensures
        match r {
            Ok(claimed) => {
                &&& limit >= 0
                &&& now.later(lease_duration@) is Some
                &&& exists|order: Seq<int>| #[trigger]
                    is_claim_order(old(store)@.jobs, now, order) && {
                        let chosen = at_most(order, limit as int);
                        let terms = ClaimTerms {
                            worker_id: worker_id@,
                            lease_end: now.later(lease_duration@)->0,
                            now,
                            fresh: fresh@,
                        };
                        &&& final(store)@ == old(store)@.after_claim(chosen, terms)
                        &&& claimed.len() == chosen.len()
                        &&& forall|k: int|
                            0 <= k < claimed.len() ==> claimed_from(
                                #[trigger] claimed@[k],
                                old(store)@,
                                final(store)@,
                                chosen[k],
                            )
                    }
            },
            Err(e) => {
                &&& e is Database
                &&& limit < 0 || now.later(lease_duration@) is None
                &&& *final(store) == *old(store)
            },
        },
{
    if limit < 0 {
        return Err(RepoError::Database("LIMIT must not be negative".to_string()));
    }
    let lease_end = match now.checked_add(lease_duration) {
        Some(end) => end,
        None => {
            return Err(RepoError::Database("timestamp out of range".to_string()));
        },
    };
    let order = claim_order(&store.jobs, &now);
    let ghost at = places(order@);
    let ghost chosen = at_most(at, limit as int);
    let ghost terms = ClaimTerms { worker_id: worker_id@, lease_end, now, fresh: fresh@ };
    let ghost before = old(store)@;
    proof {
        lemma_order_distinct(claim_keys(before.jobs, now), at);
    }
    close_lost_attempts(store, &now);
    let ghost closed = store@.attempts;
    give_up_exhausted(store, &now);
    let mut claimed: Vec<ClaimedJob> = Vec::new();
    let mut k: usize = 0;
    while k < order.len() && (k as u64) < (limit as u64)
        invariant
            k <= order.len(),
            0 <= k <= limit,
            limit <= fresh.len() || before.jobs.len() <= fresh.len(),
            before == old(store)@,
            at == places(order@),
            chosen == at_most(at, limit as int),
            terms == (ClaimTerms { worker_id: worker_id@, lease_end, now, fresh: fresh@ }),
            closed == before.attempts_after_expiry(now),
            is_claim_order(before.jobs, now, at),
            at.no_duplicates(),
            at.len() <= before.jobs.len(),
            store.jobs.len() == before.jobs.len(),
            forall|p: int|
                0 <= p < k ==> job_records(store.jobs@)[#[trigger] at[p]]
                    == before.jobs[at[p]].claimed(fresh@[p].lease_token, lease_end, now),
            forall|i: int|
                0 <= i < before.jobs.len() && !at.take(k as int).contains(i)
                    ==> #[trigger] job_records(store.jobs@)[i] == before.jobs[i].given_up(now),
            attempt_records(store.attempts@) == closed + Seq::new(
                k as nat,
                |p: int| before.new_attempt(chosen, terms, p),
            ),
            claimed.len() == k,
            forall|p: int|
                0 <= p < k ==> {
                    &&& (#[trigger] claimed@[p]).job@ == before.jobs[at[p]].claimed(
                        fresh@[p].lease_token,
                        lease_end,
                        now,
                    )
                    &&& claimed@[p].attempt_number == claimed@[p].job.attempts
                    &&& claimed@[p].was_reclaimed == before.jobs[at[p]].is(JobStatus::Running)
                },
        decreases order.len() - k,
    {
        let i: usize = order[k];
        assert(at[k as int] == i);
        assert(before.jobs[i as int].claimable(now));
        assert(!at.take(k as int).contains(i as int)) by {
            if at.take(k as int).contains(i as int) {
                let p = choose|p: int| 0 <= p < k && at.take(k as int)[p] == i;
                assert(at[p] == at[k as int]);
            }
        }
        let ghost rows = store.jobs@;
        assert(job_records(rows)[i as int] == rows[i as int]@);
        let was_reclaimed = store.jobs[i].is(JobStatus::Running);
        store.jobs[i].mark_claimed(fresh[k].lease_token, lease_end, now);
        let job = store.jobs[i].clone();
        let attempt = AttemptRow::started(
            fresh[k].attempt_id,
            job.id,
            job.attempts,
            worker_id,
            fresh[k].lease_token,
            now,
        );
        let ghost attempts = store.attempts@;
        store.attempts.push(attempt);
        proof {
            let after = job_records(store.jobs@);
            assert(after =~= job_records(rows).update(i as int, job@));
            assert forall|p: int| 0 <= p < k + 1 implies after[#[trigger] at[p]]
                == before.jobs[at[p]].claimed(fresh@[p].lease_token, lease_end, now) by {
                assert(p != k ==> at[p] != at[k as int]);
            }
            assert forall|n: int|
                0 <= n < before.jobs.len() && !at.take(k + 1).contains(
                    n,
                ) implies #[trigger] after[n] == before.jobs[n].given_up(now) by {
                assert(at.take(k + 1)[k as int] == i);
                assert forall|p: int| 0 <= p < k implies at.take(k as int)[p] != n by {
                    assert(at.take(k + 1)[p] == at.take(k as int)[p]);
                }
            }
            assert(chosen[k as int] == at[k as int]);
            assert(attempt_records(store.attempts@) =~= closed + Seq::new(
                (k + 1) as nat,
                |p: int| before.new_attempt(chosen, terms, p),
            )) by {
                assert(attempt_records(store.attempts@) =~= attempt_records(attempts).push(attempt@));
            }
        }
        let attempt_number: i32 = job.attempts;
        claimed.push(ClaimedJob { job, attempt_number, was_reclaimed });
        k = k + 1;
    }
    proof {
        assert(chosen =~= at.take(k as int));
        let after = before.after_claim(chosen, terms);
        assert forall|i: int| 0 <= i < before.jobs.len() implies #[trigger] after.jobs[i]
            == job_records(store.jobs@)[i] by {
            if chosen.contains(i) {
                let p = chosen.index_of(i);
                assert(at[p] == i);
            }
        }
        assert(store@ =~= after);
        assert forall|p: int| 0 <= p < claimed.len() implies claimed_from(
            #[trigger] claimed@[p],
            before,
            store@,
            chosen[p],
        ) by {
            assert(chosen[p] == at[p]);
        }
        assert(is_claim_order(before.jobs, now, at));
    }
    Ok(claimed)
}

/// `claimed` reports row `i`, as it was before a claim and as it is afterwards.
pub open spec fn claimed_from(
    claimed: ClaimedJob,
    before: QueueState,
    after: QueueState,
    i: int,
) -> bool {
    &&& claimed.job@ == after.jobs[i]
    &&& claimed.attempt_number == after.jobs[i].attempts
    &&& claimed.was_reclaimed == before.jobs[i].is(JobStatus::Running)
}

/// How a worker ends its attempt.
enum Ending<'a> {
    Success,
    Retry { next: Timestamp, scheduled_delay_ms: i64, error_code: &'a str, error_message: &'a str },
    Death { error_code: &'a str, error_message: &'a str },
}

impl<'a> Ending<'a> {
    spec fn job(self, j: JobRecord, now: Timestamp) -> JobRecord {
        match self {
            Ending::Success => j.succeeded(now),
            Ending::Retry { next, error_code, error_message, .. } => j.rescheduled(
                next,
                error_code@,
                error_message@,
                now,
            ),
            Ending::Death { error_code, error_message } => j.dead(
                error_code@,
                error_message@,
                now,
            ),
        }
    }

    spec fn attempt(self, a: AttemptRecord, duration_ms: i64, now: Timestamp) -> AttemptRecord {
        match self {
            Ending::Success => a.succeeded(duration_ms, now),
            Ending::Retry { scheduled_delay_ms, error_code, error_message, .. } => a.rescheduled(
                scheduled_delay_ms,
                error_code@,
                error_message@,
                duration_ms,
                now,
            ),
            Ending::Death { error_code, error_message } => a.dead(
                error_code@,
                error_message@,
                duration_ms,
                now,
            ),
        }
    }

    fn end_job(&self, row: &mut JobRow, now: Timestamp)
        ensures
            final(row)@ == self.job(old(row)@, now),
    {
        row.lease_token = None;
        row.lease_expires_at = None;
        row.updated_at = now;
        match self {
            Ending::Success => {
                row.status = JobStatus::Succeeded.to_string();
                row.last_error_code = None;
                row.last_error_message = None;
                row.finished_at = Some(now);
            },
            Ending::Retry { next, error_code, error_message, .. } => {
                row.status = JobStatus::Pending.to_string();
                row.next_attempt_at = *next;
                row.last_error_code = Some((*error_code).to_string());
                row.last_error_message = Some((*error_message).to_string());
            },
            Ending::Death { error_code, error_message } => {
                row.status = JobStatus::Dead.to_string();
                row.last_error_code = Some((*error_code).to_string());
                row.last_error_message = Some((*error_message).to_string());
                row.finished_at = Some(now);
            },
        }
    }

    fn end_attempt(&self, row: &mut AttemptRow, duration_ms: i64, now: Timestamp)
        ensures
            final(row)@ == self.attempt(old(row)@, duration_ms, now),
    {
        row.finished_at = Some(now);
        row.duration_ms = Some(duration_ms);
        match self {
            Ending::Success => {
                row.outcome = Some(AttemptOutcome::Succeeded.as_db_str().to_string());
            },
            Ending::Retry { scheduled_delay_ms, error_code, error_message, .. } => {
                row.outcome = Some(AttemptOutcome::RetryScheduled.as_db_str().to_string());
                row.error_code = Some((*error_code).to_string());
                row.error_message = Some((*error_message).to_string());
                row.scheduled_delay_ms = Some(*scheduled_delay_ms);
            },
            Ending::Death { error_code, error_message } => {
                row.outcome = Some(AttemptOutcome::Dead.as_db_str().to_string());
                row.error_code = Some((*error_code).to_string());
                row.error_message = Some((*error_message).to_string());
            },
        }
    }
}

/// Ends the attempt of the holder of `token`, if that is the holder of the lease.
fn finalize(
    store: &mut JobStore,
    job_id: u128,
    token: u128,
    ending: &Ending<'_>,
    duration_ms: i64,
    now: Timestamp,
) -> (held: bool)
    ensures
        held == old(store)@.lease_held(job_id, token),
        final(store)@ == old(store)@.finalized(
            job_id,
            token,
            |j: JobRecord| ending.job(j, now),
            |a: AttemptRecord| ending.attempt(a, duration_ms, now),
        ),
{
    let ghost before = old(store)@;
    let mut held = false;
    let mut i: usize = 0;
    while i < store.jobs.len()
        invariant
            i <= store.jobs.len(),
            before == old(store)@,
            store.attempts == old(store).attempts,
            store.jobs.len() == before.jobs.len(),
            held == (exists|n: int|
                0 <= n < i && (#[trigger] before.jobs[n]).leased_to(job_id, token)),
            forall|n: int|
                0 <= n < i ==> (#[trigger] store.jobs@[n])@ == if before.jobs[n].leased_to(
                    job_id,
                    token,
                ) {
                    ending.job(before.jobs[n], now)
                } else {
                    before.jobs[n]
                },
            forall|n: int|
                i <= n < before.jobs.len() ==> (#[trigger] store.jobs@[n])@ == before.jobs[n],
        decreases store.jobs.len() - i,
    {
        assert(store.jobs@[i as int]@ == before.jobs[i as int]);
        if store.jobs[i].is_leased_to(job_id, token) {
            ending.end_job(&mut store.jobs[i], now);
            held = true;
        }
        i = i + 1;
    }
    if !held {
        assert(store@ =~= before);
        return false;
    }
    let mut k: usize = 0;
    let ghost jobs = store@.jobs;
    while k < store.attempts.len()
        invariant
            k <= store.attempts.len(),
            before == old(store)@,
            store@.jobs == jobs,
            store.attempts.len() == before.attempts.len(),
            forall|n: int|
                0 <= n < k ==> (#[trigger] store.attempts@[n])@
                    == if before.attempts[n].under_lease(job_id, token) {
                    ending.attempt(before.attempts[n], duration_ms, now)
                } else {
                    before.attempts[n]
                },
            forall|n: int|
                k <= n < before.attempts.len() ==> (#[trigger] store.attempts@[n])@
                    == before.attempts[n],
        decreases store.attempts.len() - k,
    {
        assert(store.attempts@[k as int]@ == before.attempts[k as int]);
        if store.attempts[k].job_id == job_id && store.attempts[k].lease_token == Some(token) {
            ending.end_attempt(&mut store.attempts[k], duration_ms, now);
        }
        k = k + 1;
    }
    assert(store@ =~= before.finalized(
        job_id,
        token,
        |j: JobRecord| ending.job(j, now),
        |a: AttemptRecord| ending.attempt(a, duration_ms, now),
    ));
    true
}

/// Ends an attempt that succeeded. Returns `false`, and changes nothing, if the caller does not
/// hold the lease (any more).
pub fn finalize_success(
    store: &mut JobStore,
    job_id: u128,
    lease_token: u128,
    duration_ms: i64,
    now: Timestamp,
) -> (held: bool)
    ensures
        held == old(store)@.lease_held(job_id, lease_token),
        final(store)@ == old(store)@.after_success(job_id, lease_token, duration_ms, now),
{
    let held = finalize(store, job_id, lease_token, &Ending::Success, duration_ms, now);
    assert(store@ =~= old(store)@.after_success(job_id, lease_token, duration_ms, now));
    held
}

/// Ends an attempt that failed in a way worth retrying: the job goes back to the queue, to be tried
/// again after `delay`. Returns `false`, and changes nothing, if the caller does not hold the lease.
/// Refuses a delay that leads beyond what can be expressed.
pub fn finalize_retry_scheduled(
    store: &mut JobStore,
    job_id: u128,
    lease_token: u128,
    delay: &Duration,
    error_code: &str,
    error_message: &str,
    duration_ms: i64,
    now: Timestamp,
) -> (r: Result<bool, RepoError>)
    ensures
        match r {
            Ok(held) => {
                &&& held == old(store)@.lease_held(job_id, lease_token)
                &&& now.later(delay@) is Some
                &&& final(store)@ == old(store)@.after_reschedule(
                    job_id,
                    lease_token,
                    now.later(delay@)->0,
                    delay_millis(delay@),
                    error_code@,
                    error_message@,
                    duration_ms,
                    now,
                )
            },
            Err(e) => {
                &&& e is Database
                &&& now.later(delay@) is None
                &&& *final(store) == *old(store)
            },
        },
{
    let next = match now.checked_add(delay) {
        Some(next) => next,
        None => {
            return Err(RepoError::Database("timestamp out of range".to_string()));
        },
    };
    let millis: u128 = delay.nearest_millis();
    let scheduled_delay_ms: i64 = if millis <= i64::MAX as u128 {
        millis as i64
    } else {
        i64::MAX
    };
    let ending = Ending::Retry { next, scheduled_delay_ms, error_code, error_message };
    let held = finalize(store, job_id, lease_token, &ending, duration_ms, now);
    assert(store@ =~= old(store)@.after_reschedule(
        job_id,
        lease_token,
        next,
        scheduled_delay_ms,
        error_code@,
        error_message@,
        duration_ms,
        now,
    ));
    Ok(held)
}

/// A delay in whole milliseconds, to the nearest one, as far as the column can hold it.
pub open spec fn delay_millis(delay: nat) -> i64 {
    let millis = (delay + 500_000) / 1_000_000;
    if millis <= i64::MAX {
        millis as i64
    } else {
        i64::MAX
    }
}

/// Ends an attempt that failed for good, or that was the last one allowed. Returns `false`, and
/// changes nothing, if the caller does not hold the lease.
pub fn finalize_dead(
    store: &mut JobStore,
    job_id: u128,
    lease_token: u128,
    error_code: &str,
    error_message: &str,
    duration_ms: i64,
    now: Timestamp,
) -> (held: bool)
    ensures
        held == old(store)@.lease_held(job_id, lease_token),
        final(store)@ == old(store)@.after_death(
            job_id,
            lease_token,
            error_code@,
            error_message@,
            duration_ms,
            now,
        ),
{
    let ending = Ending::Death { error_code, error_message };
    let held = finalize(store, job_id, lease_token, &ending, duration_ms, now);
    assert(store@ =~= old(store)@.after_death(
        job_id,
        lease_token,
        error_code@,
        error_message@,
        duration_ms,
        now,
    ));
    held
}

/// Puts a dead job back into the queue, with `new_max_attempts` attempts allowed in all. Its
/// identifier, its attempts so far and their history stay as they are. Returns the first job that
/// was put back; `None`, and the store unchanged, if there is no dead job of that identifier.
pub fn retry_dead_job(
    store: &mut JobStore,
    job_id: u128,
    new_max_attempts: i32,
    now: Timestamp,
) -> (r: Option<JobRow>)
    ensures
        final(store)@ == old(store)@.after_revival(job_id, new_max_attempts, now),
        match r {
            Some(row) => exists|i: int|
                0 <= i < old(store)@.jobs.len() && #[trigger] old(store)@.jobs[i].is_dead(job_id)
                    && (forall|k: int|
                    0 <= k < i ==> !#[trigger] old(store)@.jobs[k].is_dead(job_id)) && row@ == old(
                    store,
                )@.jobs[i].revived(new_max_attempts, now),
            None => {
                &&& forall|i: int|
                    0 <= i < old(store)@.jobs.len() ==> !#[trigger] old(store)@.jobs[i].is_dead(
                        job_id,
                    )
                &&& final(store)@ == old(store)@
            },
        },
{
    let ghost before = old(store)@;
    let mut revived: Option<JobRow> = None;
    let ghost mut first: int = 0;
    let mut i: usize = 0;
    while i < store.jobs.len()
        invariant
            i <= store.jobs.len(),
            before == old(store)@,
            store.attempts == old(store).attempts,
            store.jobs.len() == before.jobs.len(),
            match revived {
                Some(row) => {
                    &&& 0 <= first < i
                    &&& before.jobs[first].is_dead(job_id)
                    &&& forall|k: int|
                        0 <= k < first ==> !#[trigger] before.jobs[k].is_dead(job_id)
                    &&& row@ == before.jobs[first].revived(new_max_attempts, now)
                },
                None => forall|k: int| 0 <= k < i ==> !#[trigger] before.jobs[k].is_dead(job_id),
            },
            forall|n: int|
                0 <= n < i ==> (#[trigger] store.jobs@[n])@ == if before.jobs[n].is_dead(job_id) {
                    before.jobs[n].revived(new_max_attempts, now)
                } else {
                    before.jobs[n]
                },
            forall|n: int|
                i <= n < before.jobs.len() ==> (#[trigger] store.jobs@[n])@ == before.jobs[n],
        decreases store.jobs.len() - i,
    {
        assert(store.jobs@[i as int]@ == before.jobs[i as int]);
        if store.jobs[i].id == job_id && store.jobs[i].is(JobStatus::Dead) {
            store.jobs[i].revive(new_max_attempts, now);
            if revived.is_none() {
                revived = Some(store.jobs[i].clone());
                proof {
                    first = i as int;
                }
            }
        }
        i = i + 1;
    }
    assert(store@ =~= before.after_revival(job_id, new_max_attempts, now));
    assert(revived is None ==> store@ =~= before);
    revived
}

/// Extends the lease of a running job. Returns `false`, and changes nothing, if the caller does not
/// hold the lease: the work must then stop. Refuses a lease whose end cannot be expressed.
pub fn renew_lease(
    store: &mut JobStore,
    job_id: u128,
    lease_token: u128,
    lease_duration: &Duration,
    now: Timestamp,
) -> (r: Result<bool, RepoError>)
    ensures
        match r {
            Ok(held) => {
                &&& held == old(store)@.lease_held(job_id, lease_token)
                &&& now.later(lease_duration@) is Some
                &&& final(store)@ == old(store)@.after_renewal(
                    job_id,
                    lease_token,
                    now.later(lease_duration@)->0,
                    now,
                )
            },
            Err(e) => {
                &&& e is Database
                &&& now.later(lease_duration@) is None
                &&& *final(store) == *old(store)
            },
        },
{
    let lease_end = match now.checked_add(lease_duration) {
        Some(end) => end,
        None => {
            return Err(RepoError::Database("timestamp out of range".to_string()));
        },
    };
    let ghost before = old(store)@;
    let mut held = false;
    let mut i: usize = 0;
    while i < store.jobs.len()
        invariant
            i <= store.jobs.len(),
            before == old(store)@,
            store.attempts == old(store).attempts,
            store.jobs.len() == before.jobs.len(),
            held == (exists|n: int|
                0 <= n < i && (#[trigger] before.jobs[n]).leased_to(job_id, lease_token)),
            forall|n: int|
                0 <= n < i ==> (#[trigger] store.jobs@[n])@ == if before.jobs[n].leased_to(
                    job_id,
                    lease_token,
                ) {
                    before.jobs[n].renewed(lease_end, now)
                } else {
                    before.jobs[n]
                },
            forall|n: int|
                i <= n < before.jobs.len() ==> (#[trigger] store.jobs@[n])@ == before.jobs[n],
        decreases store.jobs.len() - i,
    {
        assert(store.jobs@[i as int]@ == before.jobs[i as int]);
        if store.jobs[i].is_leased_to(job_id, lease_token) {
            store.jobs[i].renew(lease_end, now);
            held = true;
        }
        i = i + 1;
    }
    assert(store@ =~= before.after_renewal(job_id, lease_token, lease_end, now));
    Ok(held)
}

} // verus!
