//! The mathematical model of the stored jobs: records, and what each operation makes of them.

use crate::db::order::{is_order, SortKey};
use crate::domain::{AttemptOutcome, JobStatus};
use crate::time::Timestamp;
use vstd::prelude::*;

verus! {

/// What a row of the `jobs` table holds.
#[verifier::ext_equal]
pub struct JobRecord {
    pub id: u128,
    pub kind: Seq<char>,
    pub payload: Seq<char>,
    pub status: Seq<char>,
    pub attempts: i32,
    pub max_attempts: i32,
    pub next_attempt_at: Timestamp,
    pub lease_token: Option<u128>,
    pub lease_expires_at: Option<Timestamp>,
    pub last_error_code: Option<Seq<char>>,
    pub last_error_message: Option<Seq<char>>,
    pub created_at: Timestamp,
    pub updated_at: Timestamp,
    pub started_at: Option<Timestamp>,
    pub finished_at: Option<Timestamp>,
    pub version: i64,
}

/// What a row of the `job_attempts` table holds.
#[verifier::ext_equal]
pub struct AttemptRecord {
    pub id: u128,
    pub job_id: u128,
    pub attempt_number: i32,
    pub worker_id: Seq<char>,
    pub lease_token: Option<u128>,
    pub started_at: Timestamp,
    pub finished_at: Option<Timestamp>,
    pub outcome: Option<Seq<char>>,
    pub error_code: Option<Seq<char>>,
    pub error_message: Option<Seq<char>>,
    pub scheduled_delay_ms: Option<i64>,
    pub duration_ms: Option<i64>,
}

/// The two tables.
#[verifier::ext_equal]
pub struct QueueState {
    pub jobs: Seq<JobRecord>,
    pub attempts: Seq<AttemptRecord>,
}

/// The table in which every row that satisfies `p` is replaced by what `f` makes of it.
pub open spec fn update_where<A>(rows: Seq<A>, p: spec_fn(A) -> bool, f: spec_fn(A) -> A) -> Seq<A> {
    rows.map_values(|row: A| if p(row) { f(row) } else { row })
}

/// The first job with the given identifier.
pub open spec fn job_of(jobs: Seq<JobRecord>, id: u128) -> Option<JobRecord>
    decreases jobs.len(),
{
    if jobs.len() == 0 {
        None
    } else if jobs.first().id == id {
        Some(jobs.first())
    } else {
        job_of(jobs.drop_first(), id)
    }
}

pub open spec fn has_job(jobs: Seq<JobRecord>, id: u128) -> bool {
    exists|i: int| 0 <= i < jobs.len() && (#[trigger] jobs[i]).id == id
}

impl JobRecord {
    pub open spec fn is(self, status: JobStatus) -> bool {
        self.status == status.db_text()
    }

    /// The job runs, but its lease has run out.
    pub open spec fn expired(self, now: Timestamp) -> bool {
        &&& self.is(JobStatus::Running)
        &&& self.lease_expires_at is Some
        &&& !now.before(self.lease_expires_at->0)
    }

    /// The job waits, and its time has come.
    pub open spec fn due(self, now: Timestamp) -> bool {
        self.is(JobStatus::Pending) && !now.before(self.next_attempt_at)
    }

    pub open spec fn exhausted(self) -> bool {
        self.attempts >= self.max_attempts
    }

    /// A worker may take the job: it is due or abandoned, and has an attempt left.
    pub open spec fn claimable(self, now: Timestamp) -> bool {
        (self.due(now) || self.expired(now)) && !self.exhausted()
    }

    /// The holder of `token` owns the job `id`.
    pub open spec fn leased_to(self, id: u128, token: u128) -> bool {
        self.id == id && self.is(JobStatus::Running) && self.lease_token == Some(token)
    }

    /// The job `id`, given up.
    pub open spec fn is_dead(self, id: u128) -> bool {
        self.id == id && self.is(JobStatus::Dead)
    }

    /// A new job, due at once.
    pub open spec fn submitted(
        id: u128,
        kind: Seq<char>,
        payload: Seq<char>,
        max_attempts: i32,
        now: Timestamp,
    ) -> JobRecord {
        JobRecord {
            id,
            kind,
            payload,
            status: JobStatus::Pending.db_text(),
            attempts: 0,
            max_attempts,
            next_attempt_at: now,
            lease_token: None,
            lease_expires_at: None,
            last_error_code: None,
            last_error_message: None,
            created_at: now,
            updated_at: now,
            started_at: None,
            finished_at: None,
            version: 0,
        }
    }

    /// The job under a fresh lease, with one attempt more.
    pub open spec fn claimed(self, token: u128, lease_end: Timestamp, now: Timestamp) -> JobRecord {
        JobRecord {
            status: JobStatus::Running.db_text(),
            attempts: (self.attempts + 1) as i32,
            lease_token: Some(token),
            lease_expires_at: Some(lease_end),
            started_at: if self.started_at is Some {
                self.started_at
            } else {
                Some(now)
            },
            updated_at: now,
            ..self
        }
    }

    /// The job whose lease ran out on its last attempt.
    pub open spec fn abandoned_for_good(self, now: Timestamp) -> JobRecord {
        JobRecord {
            status: JobStatus::Dead.db_text(),
            lease_token: None,
            lease_expires_at: None,
            last_error_code: Some("LEASE_EXPIRED_BUDGET_EXHAUSTED"@),
            last_error_message: Some(
                "lease expired after exhausting max_attempts with no successful finalize"@,
            ),
            finished_at: Some(now),
            updated_at: now,
            ..self
        }
    }

    /// The job, given up if it has run out of both its lease and its attempts.
    pub open spec fn given_up(self, now: Timestamp) -> JobRecord {
        if self.expired(now) && self.exhausted() {
            self.abandoned_for_good(now)
        } else {
            self
        }
    }

    pub open spec fn succeeded(self, now: Timestamp) -> JobRecord {
        JobRecord {
            status: JobStatus::Succeeded.db_text(),
            lease_token: None,
            lease_expires_at: None,
            last_error_code: None,
            last_error_message: None,
            finished_at: Some(now),
            updated_at: now,
            ..self
        }
    }

    /// The job back in the queue, to be tried again at `next`.
    pub open spec fn rescheduled(
        self,
        next: Timestamp,
        error_code: Seq<char>,
        error_message: Seq<char>,
        now: Timestamp,
    ) -> JobRecord {
        JobRecord {
            status: JobStatus::Pending.db_text(),
            lease_token: None,
            lease_expires_at: None,
            next_attempt_at: next,
            last_error_code: Some(error_code),
            last_error_message: Some(error_message),
            updated_at: now,
            ..self
        }
    }

    pub open spec fn dead(
        self,
        error_code: Seq<char>,
        error_message: Seq<char>,
        now: Timestamp,
    ) -> JobRecord {
        JobRecord {
            status: JobStatus::Dead.db_text(),
            lease_token: None,
            lease_expires_at: None,
            last_error_code: Some(error_code),
            last_error_message: Some(error_message),
            finished_at: Some(now),
            updated_at: now,
            ..self
        }
    }

    /// A dead job put back into the queue by an operator. Its attempts stay counted.
    pub open spec fn revived(self, max_attempts: i32, now: Timestamp) -> JobRecord {
        JobRecord {
            status: JobStatus::Pending.db_text(),
            next_attempt_at: now,
            lease_token: None,
            lease_expires_at: None,
            last_error_code: None,
            last_error_message: None,
            finished_at: None,
            max_attempts,
            updated_at: now,
            ..self
        }
    }

    pub open spec fn renewed(self, lease_end: Timestamp, now: Timestamp) -> JobRecord {
        JobRecord { lease_expires_at: Some(lease_end), updated_at: now, ..self }
    }

    /// Jobs are claimed by the time they became due, then by age.
    pub open spec fn claim_key(self) -> SortKey {
        SortKey {
            first: self.next_attempt_at.secs,
            second: self.next_attempt_at.nanos,
            third: self.created_at.secs,
            fourth: self.created_at.nanos,
            fifth: 0,
        }
    }

    /// Jobs are listed by age, then by identifier.
    pub open spec fn list_key(self) -> SortKey {
        list_key(self.created_at, self.id)
    }
}

pub open spec fn list_key(created_at: Timestamp, id: u128) -> SortKey {
    SortKey { first: created_at.secs, second: created_at.nanos, third: 0, fourth: 0, fifth: id }
}

impl AttemptRecord {
    pub open spec fn open_attempt(self) -> bool {
        self.outcome is None
    }

    pub open spec fn under_lease(self, job_id: u128, token: u128) -> bool {
        self.job_id == job_id && self.lease_token == Some(token)
    }

    /// The attempt that begins when a job is claimed.
    pub open spec fn started(
        id: u128,
        job_id: u128,
        attempt_number: i32,
        worker_id: Seq<char>,
        token: u128,
        now: Timestamp,
    ) -> AttemptRecord {
        AttemptRecord {
            id,
            job_id,
            attempt_number,
            worker_id,
            lease_token: Some(token),
            started_at: now,
            finished_at: None,
            outcome: None,
            error_code: None,
            error_message: None,
            scheduled_delay_ms: None,
            duration_ms: None,
        }
    }

    pub open spec fn lost(self, now: Timestamp) -> AttemptRecord {
        AttemptRecord {
            outcome: Some(AttemptOutcome::LeaseLost.db_text()),
            finished_at: Some(now),
            ..self
        }
    }

    pub open spec fn succeeded(self, duration_ms: i64, now: Timestamp) -> AttemptRecord {
        AttemptRecord {
            outcome: Some(AttemptOutcome::Succeeded.db_text()),
            finished_at: Some(now),
            duration_ms: Some(duration_ms),
            ..self
        }
    }

    pub open spec fn rescheduled(
        self,
        scheduled_delay_ms: i64,
        error_code: Seq<char>,
        error_message: Seq<char>,
        duration_ms: i64,
        now: Timestamp,
    ) -> AttemptRecord {
        AttemptRecord {
            outcome: Some(AttemptOutcome::RetryScheduled.db_text()),
            finished_at: Some(now),
            error_code: Some(error_code),
            error_message: Some(error_message),
            scheduled_delay_ms: Some(scheduled_delay_ms),
            duration_ms: Some(duration_ms),
            ..self
        }
    }

    pub open spec fn dead(
        self,
        error_code: Seq<char>,
        error_message: Seq<char>,
        duration_ms: i64,
        now: Timestamp,
    ) -> AttemptRecord {
        AttemptRecord {
            outcome: Some(AttemptOutcome::Dead.db_text()),
            finished_at: Some(now),
            error_code: Some(error_code),
            error_message: Some(error_message),
            duration_ms: Some(duration_ms),
            ..self
        }
    }

    /// Attempts are listed by their number.
    pub open spec fn number_key(self) -> SortKey {
        SortKey { first: self.attempt_number as i64, second: 0, third: 0, fourth: 0, fifth: 0 }
    }
}

/// The identifiers that a claim uses up: one pair for each job it takes.
#[derive(Debug, Clone, Copy)]
pub struct FreshIds {
    pub lease_token: u128,
    pub attempt_id: u128,
}

/// What a claim is made with, apart from the tables.
pub struct ClaimTerms {
    pub worker_id: Seq<char>,
    pub lease_end: Timestamp,
    pub now: Timestamp,
    pub fresh: Seq<FreshIds>,
}

/// The claimable rows with their keys.
pub open spec fn claim_keys(jobs: Seq<JobRecord>, now: Timestamp) -> Seq<Option<SortKey>> {
    jobs.map_values(
        |j: JobRecord|
            if j.claimable(now) {
                Some(j.claim_key())
            } else {
                None
            },
    )
}

/// `order` lists the claimable rows, the ones to be taken first in front.
pub open spec fn is_claim_order(jobs: Seq<JobRecord>, now: Timestamp, order: Seq<int>) -> bool {
    is_order(claim_keys(jobs, now), order)
}

/// The first `limit` elements, or all of them if there are fewer.
pub open spec fn at_most<A>(s: Seq<A>, limit: int) -> Seq<A> {
    if limit < s.len() {
        s.take(limit)
    } else {
        s
    }
}

impl QueueState {
    /// Some job of the table is `job_id` and has run out of its lease.
    pub open spec fn lease_ran_out(self, job_id: u128, now: Timestamp) -> bool {
        exists|i: int|
            0 <= i < self.jobs.len() && (#[trigger] self.jobs[i]).id == job_id
                && self.jobs[i].expired(now)
    }

    /// The attempts after those abandoned with an expired lease have been closed.
    pub open spec fn attempts_after_expiry(self, now: Timestamp) -> Seq<AttemptRecord> {
        update_where(
            self.attempts,
            |a: AttemptRecord| a.open_attempt() && self.lease_ran_out(a.job_id, now),
            |a: AttemptRecord| a.lost(now),
        )
    }

    /// Row `i` after a claim that took the rows `chosen`, in that order.
    pub open spec fn job_after_claim(self, chosen: Seq<int>, terms: ClaimTerms, i: int) -> JobRecord {
        let job = self.jobs[i];
        if chosen.contains(i) {
            job.claimed(
                terms.fresh[chosen.index_of(i)].lease_token,
                terms.lease_end,
                terms.now,
            )
        } else {
            job.given_up(terms.now)
        }
    }

    /// The attempt that claiming row `chosen[k]` begins.
    pub open spec fn new_attempt(self, chosen: Seq<int>, terms: ClaimTerms, k: int) -> AttemptRecord {
        let job = self.jobs[chosen[k]];
        AttemptRecord::started(
            terms.fresh[k].attempt_id,
            job.id,
            (job.attempts + 1) as i32,
            terms.worker_id,
            terms.fresh[k].lease_token,
            terms.now,
        )
    }

    /// A claim that takes the rows `chosen`. It closes the attempts whose lease ran out, gives up
    /// the jobs that ran out of both lease and attempts, puts the chosen jobs under fresh leases
    /// and begins an attempt for each of them.
    pub open spec fn after_claim(self, chosen: Seq<int>, terms: ClaimTerms) -> QueueState {
        QueueState {
            jobs: Seq::new(self.jobs.len(), |i: int| self.job_after_claim(chosen, terms, i)),
            attempts: self.attempts_after_expiry(terms.now) + Seq::new(
                chosen.len(),
                |k: int| self.new_attempt(chosen, terms, k),
            ),
        }
    }

    /// Some job is leased to the holder of `token` under the identifier `id`.
    pub open spec fn lease_held(self, id: u128, token: u128) -> bool {
        exists|i: int| 0 <= i < self.jobs.len() && (#[trigger] self.jobs[i]).leased_to(id, token)
    }

    /// Finishes the attempt of the holder of `token`: `job` says what becomes of the job and
    /// `attempt` what becomes of the attempt. Nothing changes for anyone who does not hold the
    /// lease.
    pub open spec fn finalized(
        self,
        id: u128,
        token: u128,
        job: spec_fn(JobRecord) -> JobRecord,
        attempt: spec_fn(AttemptRecord) -> AttemptRecord,
    ) -> QueueState {
        if self.lease_held(id, token) {
            QueueState {
                jobs: update_where(self.jobs, |j: JobRecord| j.leased_to(id, token), job),
                attempts: update_where(
                    self.attempts,
                    |a: AttemptRecord| a.under_lease(id, token),
                    attempt,
                ),
            }
        } else {
            self
        }
    }

    pub open spec fn after_success(
        self,
        id: u128,
        token: u128,
        duration_ms: i64,
        now: Timestamp,
    ) -> QueueState {
        self.finalized(
            id,
            token,
            |j: JobRecord| j.succeeded(now),
            |a: AttemptRecord| a.succeeded(duration_ms, now),
        )
    }

    pub open spec fn after_reschedule(
        self,
        id: u128,
        token: u128,
        next: Timestamp,
        scheduled_delay_ms: i64,
        error_code: Seq<char>,
        error_message: Seq<char>,
        duration_ms: i64,
        now: Timestamp,
    ) -> QueueState {
        self.finalized(
            id,
            token,
            |j: JobRecord| j.rescheduled(next, error_code, error_message, now),
            |a: AttemptRecord|
                a.rescheduled(scheduled_delay_ms, error_code, error_message, duration_ms, now),
        )
    }

    pub open spec fn after_death(
        self,
        id: u128,
        token: u128,
        error_code: Seq<char>,
        error_message: Seq<char>,
        duration_ms: i64,
        now: Timestamp,
    ) -> QueueState {
        self.finalized(
            id,
            token,
            |j: JobRecord| j.dead(error_code, error_message, now),
            |a: AttemptRecord| a.dead(error_code, error_message, duration_ms, now),
        )
    }

    pub open spec fn after_renewal(
        self,
        id: u128,
        token: u128,
        lease_end: Timestamp,
        now: Timestamp,
    ) -> QueueState {
        QueueState {
            jobs: update_where(
                self.jobs,
                |j: JobRecord| j.leased_to(id, token),
                |j: JobRecord| j.renewed(lease_end, now),
            ),
            ..self
        }
    }

    pub open spec fn after_revival(self, id: u128, max_attempts: i32, now: Timestamp) -> QueueState {
        QueueState {
            jobs: update_where(
                self.jobs,
                |j: JobRecord| j.is_dead(id),
                |j: JobRecord| j.revived(max_attempts, now),
            ),
            ..self
        }
    }
}

/// The rows of a listing with their keys: those with the given status, after the given place.
pub open spec fn listed_keys(
    jobs: Seq<JobRecord>,
    status: Option<JobStatus>,
    after: Option<(Timestamp, u128)>,
) -> Seq<Option<SortKey>> {
    jobs.map_values(
        |j: JobRecord|
            if listed(j, status, after) {
                Some(j.list_key())
            } else {
                None
            },
    )
}

pub open spec fn listed(
    j: JobRecord,
    status: Option<JobStatus>,
    after: Option<(Timestamp, u128)>,
) -> bool {
    &&& status matches Some(s) ==> j.is(s)
    &&& after matches Some(place) ==> list_key(place.0, place.1).before(j.list_key())
}

/// The attempts of a job with their keys.
pub open spec fn attempt_keys(attempts: Seq<AttemptRecord>, job_id: u128) -> Seq<Option<SortKey>> {
    attempts.map_values(
        |a: AttemptRecord|
            if a.job_id == job_id {
                Some(a.number_key())
            } else {
                None
            },
    )
}

} // verus!
