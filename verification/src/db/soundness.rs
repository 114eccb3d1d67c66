//! The invariant of the queue, and that every operation keeps it.

use crate::db::model::{
    at_most, has_job, is_claim_order, AttemptRecord, ClaimTerms, JobRecord, QueueState,
};
use crate::domain::{AttemptOutcome, JobStatus};
use crate::time::Timestamp;
use vstd::prelude::*;

verus! {

impl JobRecord {
    /// The columns of a job agree with each other.
    pub open spec fn coherent(self) -> bool {
        &&& JobStatus::of_text(self.status) is Some
        &&& 0 <= self.attempts <= self.max_attempts
        &&& self.is(JobStatus::Running) <==> self.lease_token is Some
        &&& self.is(JobStatus::Running) <==> self.lease_expires_at is Some
        &&& JobStatus::of_text(self.status)->0.terminal() <==> self.finished_at is Some
    }

    /// The attempt belongs to this job: it is one of those counted, it is open only while it runs
    /// under the job's lease, and it succeeded only if the job did.
    pub open spec fn owns(self, a: AttemptRecord) -> bool {
        &&& self.id == a.job_id
        &&& 1 <= a.attempt_number <= self.attempts
        &&& a.open_attempt() ==> self.runs(a)
        &&& a.outcome == Some(AttemptOutcome::Succeeded.db_text()) ==> {
            &&& self.is(JobStatus::Succeeded)
            &&& a.attempt_number == self.attempts
        }
    }

    /// The attempt is the one that the job's lease is for. It is open, unless the lease has run out
    /// and nobody has taken the job over yet.
    pub open spec fn runs(self, a: AttemptRecord) -> bool {
        &&& self.id == a.job_id
        &&& self.is(JobStatus::Running)
        &&& a.open_attempt() || a.outcome == Some(AttemptOutcome::LeaseLost.db_text())
        &&& a.attempt_number == self.attempts
        &&& a.lease_token == self.lease_token
    }

    pub open spec fn counts(self, a: AttemptRecord, n: int) -> bool {
        self.id == a.job_id && a.attempt_number == n
    }
}

impl QueueState {
    pub open spec fn ids_distinct(self) -> bool {
        forall|i: int, k: int|
            0 <= i < k < self.jobs.len() ==> (#[trigger] self.jobs[i]).id != (
            #[trigger] self.jobs[k]).id
    }

    /// Every attempt has a job, every attempt that a job counts is on record, and every running
    /// job has the attempt that its lease is for.
    pub open spec fn history_complete(self) -> bool {
        &&& forall|k: int| 0 <= k < self.attempts.len() ==> self.has_owner(#[trigger] self.attempts[k])
        &&& forall|i: int, n: int|
            0 <= i < self.jobs.len() && 1 <= n <= self.jobs[i].attempts ==> #[trigger] self.on_record(
                self.jobs[i],
                n,
            )
        &&& forall|i: int|
            0 <= i < self.jobs.len() && self.jobs[i].is(JobStatus::Running)
                ==> #[trigger] self.is_run(self.jobs[i])
    }

    pub open spec fn has_owner(self, a: AttemptRecord) -> bool {
        exists|i: int| 0 <= i < self.jobs.len() && (#[trigger] self.jobs[i]).owns(a)
    }

    pub open spec fn on_record(self, j: JobRecord, n: int) -> bool {
        exists|k: int| 0 <= k < self.attempts.len() && j.counts(#[trigger] self.attempts[k], n)
    }

    pub open spec fn is_run(self, j: JobRecord) -> bool {
        exists|k: int| 0 <= k < self.attempts.len() && j.runs(#[trigger] self.attempts[k])
    }

    /// The attempts of a job are numbered in the order in which they were made, and no lease token
    /// was given out twice.
    pub open spec fn numbered(self) -> bool {
        &&& forall|k: int|
            0 <= k < self.attempts.len() ==> (#[trigger] self.attempts[k]).lease_token is Some
        &&& forall|k: int, l: int|
            0 <= k < l < self.attempts.len() ==> {
                &&& (#[trigger] self.attempts[k]).lease_token != (
                #[trigger] self.attempts[l]).lease_token
                &&& self.attempts[k].job_id == self.attempts[l].job_id
                    ==> self.attempts[k].attempt_number < self.attempts[l].attempt_number
            }
    }

    /// What every operation keeps.
    pub open spec fn sound(self) -> bool {
        &&& self.ids_distinct()
        &&& forall|i: int| 0 <= i < self.jobs.len() ==> (#[trigger] self.jobs[i]).coherent()
        &&& self.history_complete()
        &&& self.numbered()
    }
}

/// Every status is read back from its text.
pub proof fn lemma_status_texts()
    ensures
        forall|s: JobStatus|
            #![trigger s.db_text()]
            JobStatus::of_text(s.db_text()) == Some(s),
{
    assert forall|s: JobStatus| #![trigger s.db_text()] JobStatus::of_text(s.db_text()) == Some(
        s,
    ) by {
        crate::domain::law_status_text_round_trip(s, s.db_text());
    }
}

/// A queue without rows is sound.
pub proof fn law_empty_queue_is_sound()
    ensures
        (QueueState { jobs: seq![], attempts: seq![] }).sound(),
{
}

/// Submitting a job keeps the queue sound.
pub proof fn law_submission_keeps_soundness(
    s: QueueState,
    id: u128,
    kind: Seq<char>,
    payload: Seq<char>,
    max_attempts: i32,
    now: Timestamp,
)
    requires
        s.sound(),
        !has_job(s.jobs, id),
        max_attempts >= 0,
    ensures
        (QueueState {
            jobs: s.jobs.push(JobRecord::submitted(id, kind, payload, max_attempts, now)),
            ..s
        }).sound(),
{
    lemma_status_texts();
    let job = JobRecord::submitted(id, kind, payload, max_attempts, now);
    let t = QueueState { jobs: s.jobs.push(job), ..s };
    assert(JobStatus::of_text(job.status) == Some(JobStatus::Pending));
    assert forall|k: int| 0 <= k < t.attempts.len() implies t.has_owner(
        #[trigger] t.attempts[k],
    ) by {
        assert(s.has_owner(s.attempts[k]));
        let i = choose|i: int| 0 <= i < s.jobs.len() && (#[trigger] s.jobs[i]).owns(s.attempts[k]);
        assert(t.jobs[i] == s.jobs[i]);
    }
    assert forall|i: int, n: int|
        0 <= i < t.jobs.len() && 1 <= n <= t.jobs[i].attempts implies #[trigger] t.on_record(
        t.jobs[i],
        n,
    ) by {
        assert(s.on_record(s.jobs[i], n));
    }
    assert forall|i: int|
        0 <= i < t.jobs.len() && t.jobs[i].is(JobStatus::Running) implies #[trigger] t.is_run(
        t.jobs[i],
    ) by {
        assert(i < s.jobs.len());
        assert(s.is_run(s.jobs[i]));
    }
}

/// In a sound queue the holder of a lease has one job and one attempt under it, and these are
/// all that its token gives access to.
pub proof fn lemma_lease(s: QueueState, id: u128, token: u128) -> (found: (int, int))
    requires
        s.sound(),
        s.lease_held(id, token),
    ensures
        0 <= found.0 < s.jobs.len(),
        0 <= found.1 < s.attempts.len(),
        s.jobs[found.0].leased_to(id, token),
        s.jobs[found.0].runs(s.attempts[found.1]),
        forall|i: int|
            0 <= i < s.jobs.len() ==> ((#[trigger] s.jobs[i]).leased_to(id, token) <==> i
                == found.0),
        forall|k: int|
            0 <= k < s.attempts.len() ==> ((#[trigger] s.attempts[k]).under_lease(id, token)
                <==> k == found.1),
{
    let i = choose|i: int| 0 <= i < s.jobs.len() && (#[trigger] s.jobs[i]).leased_to(id, token);
    assert(s.is_run(s.jobs[i]));
    let k = choose|k: int|
        0 <= k < s.attempts.len() && s.jobs[i].runs(#[trigger] s.attempts[k]);
    assert forall|l: int| 0 <= l < s.attempts.len() implies ((
    #[trigger] s.attempts[l]).under_lease(id, token) <==> l == k) by {
        if l < k {
            assert(s.attempts[l].lease_token != s.attempts[k].lease_token);
        } else if k < l {
            assert(s.attempts[k].lease_token != s.attempts[l].lease_token);
        }
    }
    (i, k)
}

/// What ends an attempt keeps the identity and the count of the job, gives up the lease, and closes
/// the attempt.
spec fn ends_attempt(
    job: spec_fn(JobRecord) -> JobRecord,
    attempt: spec_fn(AttemptRecord) -> AttemptRecord,
) -> bool {
    &&& forall|j: JobRecord|
        j.coherent() && j.is(JobStatus::Running) ==> {
            let r = #[trigger] job(j);
            &&& r.id == j.id
            &&& r.attempts == j.attempts
            &&& r.coherent()
            &&& !r.is(JobStatus::Running)
        }
    &&& forall|a: AttemptRecord|
        {
            let r = #[trigger] attempt(a);
            &&& r.job_id == a.job_id
            &&& r.attempt_number == a.attempt_number
            &&& r.lease_token == a.lease_token
            &&& !r.open_attempt()
        }
    &&& forall|a: AttemptRecord, j: JobRecord|
        (#[trigger] attempt(a)).outcome == Some(AttemptOutcome::Succeeded.db_text()) ==> (
        #[trigger] job(j)).is(JobStatus::Succeeded)
}

proof fn lemma_finalizing_keeps_soundness(
    s: QueueState,
    id: u128,
    token: u128,
    job: spec_fn(JobRecord) -> JobRecord,
    attempt: spec_fn(AttemptRecord) -> AttemptRecord,
)
    requires
        s.sound(),
        ends_attempt(job, attempt),
    ensures
        s.finalized(id, token, job, attempt).sound(),
{
    lemma_status_texts();
    let t = s.finalized(id, token, job, attempt);
    if s.lease_held(id, token) {
        let (i0, k0) = lemma_lease(s, id, token);
        assert(s.jobs[i0].coherent());
        assert(t.jobs[i0] == job(s.jobs[i0]));
        assert(t.attempts[k0] == attempt(s.attempts[k0]));
        assert forall|i: int| 0 <= i < s.jobs.len() && i != i0 implies #[trigger] t.jobs[i]
            == s.jobs[i] by {
            assert(!s.jobs[i].leased_to(id, token));
        }
        assert forall|k: int| 0 <= k < s.attempts.len() && k != k0 implies #[trigger] t.attempts[k]
            == s.attempts[k] by {
            assert(!s.attempts[k].under_lease(id, token));
        }
        assert forall|i: int, k: int| 0 <= i < k < t.jobs.len() implies (#[trigger] t.jobs[i]).id
            != (#[trigger] t.jobs[k]).id by {
            assert(s.jobs[i].id != s.jobs[k].id);
        }
        assert forall|k: int| 0 <= k < t.attempts.len() implies t.has_owner(
            #[trigger] t.attempts[k],
        ) by {
            let a = s.attempts[k];
            assert(s.has_owner(a));
            let i = choose|i: int| 0 <= i < s.jobs.len() && (#[trigger] s.jobs[i]).owns(a);
            if k == k0 {
                if i < i0 {
                    assert(s.jobs[i].id != s.jobs[i0].id);
                } else if i0 < i {
                    assert(s.jobs[i0].id != s.jobs[i].id);
                }
            }
            assert(t.jobs[i].owns(t.attempts[k]));
        }
        assert forall|i: int, n: int|
            0 <= i < t.jobs.len() && 1 <= n <= t.jobs[i].attempts implies #[trigger] t.on_record(
            t.jobs[i],
            n,
        ) by {
            assert(s.on_record(s.jobs[i], n));
            let k = choose|k: int|
                0 <= k < s.attempts.len() && s.jobs[i].counts(#[trigger] s.attempts[k], n);
            assert(t.jobs[i].counts(t.attempts[k], n));
        }
        assert forall|i: int|
            0 <= i < t.jobs.len() && t.jobs[i].is(JobStatus::Running) implies #[trigger] t.is_run(
            t.jobs[i],
        ) by {
            assert(s.is_run(s.jobs[i]));
            let k = choose|k: int|
                0 <= k < s.attempts.len() && s.jobs[i].runs(#[trigger] s.attempts[k]);
            if k == k0 {
                if i < i0 {
                    assert(s.jobs[i].id != s.jobs[i0].id);
                } else if i0 < i {
                    assert(s.jobs[i0].id != s.jobs[i].id);
                }
            }
            assert(t.jobs[i].runs(t.attempts[k]));
        }
        assert forall|k: int, l: int| 0 <= k < l < t.attempts.len() implies {
            &&& (#[trigger] t.attempts[k]).lease_token != (#[trigger] t.attempts[l]).lease_token
            &&& t.attempts[k].job_id == t.attempts[l].job_id ==> t.attempts[k].attempt_number
                < t.attempts[l].attempt_number
        } by {
            assert(s.attempts[k].lease_token != s.attempts[l].lease_token);
        }
    }
}

/// Ending an attempt with success keeps the queue sound.
pub proof fn law_success_keeps_soundness(
    s: QueueState,
    id: u128,
    token: u128,
    duration_ms: i64,
    now: Timestamp,
)
    requires
        s.sound(),
    ensures
        s.after_success(id, token, duration_ms, now).sound(),
{
    lemma_status_texts();
    let job = |j: JobRecord| j.succeeded(now);
    let attempt = |a: AttemptRecord| a.succeeded(duration_ms, now);
    assert(ends_attempt(job, attempt));
    lemma_finalizing_keeps_soundness(s, id, token, job, attempt);
}

/// Putting a job back for another attempt keeps the queue sound.
pub proof fn law_reschedule_keeps_soundness(
    s: QueueState,
    id: u128,
    token: u128,
    next: Timestamp,
    scheduled_delay_ms: i64,
    error_code: Seq<char>,
    error_message: Seq<char>,
    duration_ms: i64,
    now: Timestamp,
)
    requires
        s.sound(),
    ensures
        s.after_reschedule(
            id,
            token,
            next,
            scheduled_delay_ms,
            error_code,
            error_message,
            duration_ms,
            now,
        ).sound(),
{
    lemma_status_texts();
    crate::domain::law_outcome_texts_distinct(
        AttemptOutcome::RetryScheduled,
        AttemptOutcome::Succeeded,
    );
    let job = |j: JobRecord| j.rescheduled(next, error_code, error_message, now);
    let attempt = |a: AttemptRecord|
        a.rescheduled(scheduled_delay_ms, error_code, error_message, duration_ms, now);
    assert(ends_attempt(job, attempt));
    lemma_finalizing_keeps_soundness(s, id, token, job, attempt);
}

/// Giving a job up keeps the queue sound.
pub proof fn law_death_keeps_soundness(
    s: QueueState,
    id: u128,
    token: u128,
    error_code: Seq<char>,
    error_message: Seq<char>,
    duration_ms: i64,
    now: Timestamp,
)
    requires
        s.sound(),
    ensures
        s.after_death(id, token, error_code, error_message, duration_ms, now).sound(),
{
    lemma_status_texts();
    crate::domain::law_outcome_texts_distinct(AttemptOutcome::Dead, AttemptOutcome::Succeeded);
    let job = |j: JobRecord| j.dead(error_code, error_message, now);
    let attempt = |a: AttemptRecord| a.dead(error_code, error_message, duration_ms, now);
    assert(ends_attempt(job, attempt));
    lemma_finalizing_keeps_soundness(s, id, token, job, attempt);
}

impl QueueState {
    /// The first `n` lease tokens differ from each other and from all those given out so far.
    pub open spec fn unused_tokens(self, terms: ClaimTerms, n: int) -> bool {
        &&& forall|k: int, p: int|
            0 <= k < self.attempts.len() && 0 <= p < n ==> (
            #[trigger] self.attempts[k]).lease_token != Some((#[trigger] terms.fresh[p]).lease_token)
        &&& forall|p: int, q: int|
            0 <= p < q < n ==> (#[trigger] terms.fresh[p]).lease_token != (
            #[trigger] terms.fresh[q]).lease_token
    }
}

/// The rows that a claim takes are claimable, and it takes none of them twice.
pub proof fn lemma_chosen(s: QueueState, now: Timestamp, order: Seq<int>, limit: int)
    requires
        is_claim_order(s.jobs, now, order),
        0 <= limit,
    ensures
        at_most(order, limit).len() <= limit,
        at_most(order, limit).no_duplicates(),
        forall|p: int|
            #![trigger at_most(order, limit)[p]]
            0 <= p < at_most(order, limit).len() ==> {
                &&& 0 <= at_most(order, limit)[p] < s.jobs.len()
                &&& s.jobs[at_most(order, limit)[p]].claimable(now)
                &&& at_most(order, limit).index_of(at_most(order, limit)[p]) == p
            },
{
    let keys = crate::db::model::claim_keys(s.jobs, now);
    crate::db::order::lemma_order_distinct(keys, order);
    let chosen = at_most(order, limit);
    assert forall|p: int| #![trigger chosen[p]] 0 <= p < chosen.len() implies {
        &&& 0 <= chosen[p] < s.jobs.len()
        &&& s.jobs[chosen[p]].claimable(now)
        &&& chosen.index_of(chosen[p]) == p
    } by {
        assert(chosen[p] == order[p]);
        assert(keys[order[p]] is Some);
        assert(chosen.contains(chosen[p]));
    }
}

/// A claim keeps the queue sound, provided that it gives out new lease tokens.
pub proof fn law_claim_keeps_soundness(
    s: QueueState,
    order: Seq<int>,
    limit: int,
    terms: ClaimTerms,
)
    requires
        s.sound(),
        is_claim_order(s.jobs, terms.now, order),
        0 <= limit,
        s.unused_tokens(terms, at_most(order, limit).len() as int),
    ensures
        s.after_claim(at_most(order, limit), terms).sound(),
{
    lemma_status_texts();
    crate::domain::law_outcome_texts_distinct(AttemptOutcome::LeaseLost, AttemptOutcome::Succeeded);
    lemma_chosen(s, terms.now, order, limit);
    let chosen = at_most(order, limit);
    let now = terms.now;
    let t = s.after_claim(chosen, terms);
    let n0 = s.attempts.len() as int;
    assert forall|i: int| 0 <= i < s.jobs.len() implies (#[trigger] t.jobs[i]).coherent()
        && t.jobs[i].id == s.jobs[i].id by {
        assert(s.jobs[i].coherent());
        if chosen.contains(i) {
            let p = chosen.index_of(i);
            assert(s.jobs[chosen[p]].claimable(now));
        }
    }
    assert forall|i: int, k: int| 0 <= i < k < t.jobs.len() implies (#[trigger] t.jobs[i]).id != (
    #[trigger] t.jobs[k]).id by {
        assert(s.jobs[i].id != s.jobs[k].id);
    }
    assert forall|k: int| 0 <= k < n0 implies {
        &&& (#[trigger] t.attempts[k]) == s.attempts[k] || t.attempts[k] == s.attempts[k].lost(now)
        &&& s.attempts[k].open_attempt() && s.lease_ran_out(s.attempts[k].job_id, now)
            ==> t.attempts[k] == s.attempts[k].lost(now)
    } by {}
    assert forall|p: int| 0 <= p < chosen.len() implies {
        &&& #[trigger] t.attempts[n0 + p] == s.new_attempt(chosen, terms, p)
        &&& t.jobs[chosen[p]].runs(t.attempts[n0 + p])
    } by {
        assert(chosen.contains(chosen[p]));
        assert(s.jobs[chosen[p]].claimable(now));
    }
    assert forall|k: int| 0 <= k < t.attempts.len() implies t.has_owner(#[trigger] t.attempts[k]) by {
        if k < n0 {
            let a = s.attempts[k];
            assert(s.has_owner(a));
            let i = choose|i: int| 0 <= i < s.jobs.len() && (#[trigger] s.jobs[i]).owns(a);
            assert(s.jobs[i].coherent());
            if chosen.contains(i) {
                let p = chosen.index_of(i);
                assert(s.jobs[chosen[p]].claimable(now));
            }
            assert(t.jobs[i].owns(t.attempts[k]));
        } else {
            let p = k - n0;
            assert(t.attempts[n0 + p] == s.new_attempt(chosen, terms, p));
            let i = chosen[p];
            assert(chosen.contains(i));
            assert(s.jobs[i].coherent());
            assert(t.jobs[i].owns(t.attempts[k]));
        }
    }
    assert forall|i: int, n: int|
        0 <= i < t.jobs.len() && 1 <= n <= t.jobs[i].attempts implies #[trigger] t.on_record(
        t.jobs[i],
        n,
    ) by {
        if n <= s.jobs[i].attempts {
            assert(s.on_record(s.jobs[i], n));
            let k = choose|k: int|
                0 <= k < s.attempts.len() && s.jobs[i].counts(#[trigger] s.attempts[k], n);
            assert(t.jobs[i].counts(t.attempts[k], n));
        } else {
            assert(chosen.contains(i));
            let p = chosen.index_of(i);
            assert(t.jobs[i].counts(t.attempts[n0 + p], n));
        }
    }
    assert forall|i: int|
        0 <= i < t.jobs.len() && t.jobs[i].is(JobStatus::Running) implies #[trigger] t.is_run(
        t.jobs[i],
    ) by {
        if chosen.contains(i) {
            let p = chosen.index_of(i);
            assert(t.jobs[chosen[p]].runs(t.attempts[n0 + p]));
        } else {
            assert(s.is_run(s.jobs[i]));
            let k = choose|k: int|
                0 <= k < s.attempts.len() && s.jobs[i].runs(#[trigger] s.attempts[k]);
            assert(t.jobs[i].runs(t.attempts[k]));
        }
    }
    assert forall|k: int, l: int| 0 <= k < l < t.attempts.len() implies {
        &&& (#[trigger] t.attempts[k]).lease_token != (#[trigger] t.attempts[l]).lease_token
        &&& t.attempts[k].job_id == t.attempts[l].job_id ==> t.attempts[k].attempt_number
            < t.attempts[l].attempt_number
    } by {
        if l < n0 {
            assert(s.attempts[k].lease_token != s.attempts[l].lease_token);
        } else {
            let q = l - n0;
            assert(t.attempts[n0 + q] == s.new_attempt(chosen, terms, q));
            let j = chosen[q];
            assert(terms.fresh[q].lease_token == t.attempts[l].lease_token->0);
            if k < n0 {
                assert(s.has_owner(s.attempts[k]));
                let i = choose|i: int|
                    0 <= i < s.jobs.len() && (#[trigger] s.jobs[i]).owns(s.attempts[k]);
                if i < j {
                    assert(s.jobs[i].id != s.jobs[j].id);
                } else if j < i {
                    assert(s.jobs[j].id != s.jobs[i].id);
                }
            } else {
                let p = k - n0;
                assert(t.attempts[n0 + p] == s.new_attempt(chosen, terms, p));
                let i = chosen[p];
                assert(i != j);
                if i < j {
                    assert(s.jobs[i].id != s.jobs[j].id);
                } else {
                    assert(s.jobs[j].id != s.jobs[i].id);
                }
            }
        }
    }
    assert forall|k: int| 0 <= k < t.attempts.len() implies (
    #[trigger] t.attempts[k]).lease_token is Some by {
        if k >= n0 {
            assert(t.attempts[n0 + (k - n0)] == s.new_attempt(chosen, terms, k - n0));
        } else {
            assert(s.attempts[k].lease_token is Some);
        }
    }
}

/// Renewing a lease keeps the queue sound.
pub proof fn law_renewal_keeps_soundness(
    s: QueueState,
    id: u128,
    token: u128,
    lease_end: Timestamp,
    now: Timestamp,
)
    requires
        s.sound(),
    ensures
        s.after_renewal(id, token, lease_end, now).sound(),
{
    let t = s.after_renewal(id, token, lease_end, now);
    assert forall|i: int| 0 <= i < s.jobs.len() implies same_progress(
        s.jobs[i],
        #[trigger] t.jobs[i],
    ) && t.jobs[i].coherent() by {
        assert(s.jobs[i].coherent());
    }
    lemma_same_progress_keeps_soundness(s, t);
}

/// Nothing changes that the history of the job depends on.
spec fn same_progress(a: JobRecord, b: JobRecord) -> bool {
    &&& a.id == b.id
    &&& a.attempts == b.attempts
    &&& a.lease_token == b.lease_token
    &&& a.is(JobStatus::Running) == b.is(JobStatus::Running)
    &&& a.is(JobStatus::Succeeded) == b.is(JobStatus::Succeeded)
}

proof fn lemma_same_progress_keeps_soundness(s: QueueState, t: QueueState)
    requires
        s.sound(),
        t.attempts == s.attempts,
        t.jobs.len() == s.jobs.len(),
        forall|i: int|
            0 <= i < s.jobs.len() ==> same_progress(s.jobs[i], #[trigger] t.jobs[i])
                && t.jobs[i].coherent(),
    ensures
        t.sound(),
{
    assert forall|i: int, k: int| 0 <= i < k < t.jobs.len() implies (#[trigger] t.jobs[i]).id != (
    #[trigger] t.jobs[k]).id by {
        assert(s.jobs[i].id != s.jobs[k].id);
    }
    assert forall|k: int| 0 <= k < t.attempts.len() implies t.has_owner(#[trigger] t.attempts[k]) by {
        assert(s.has_owner(s.attempts[k]));
        let i = choose|i: int| 0 <= i < s.jobs.len() && (#[trigger] s.jobs[i]).owns(s.attempts[k]);
        assert(t.jobs[i].owns(t.attempts[k]));
    }
    assert forall|i: int, n: int|
        0 <= i < t.jobs.len() && 1 <= n <= t.jobs[i].attempts implies #[trigger] t.on_record(
        t.jobs[i],
        n,
    ) by {
        assert(s.on_record(s.jobs[i], n));
        let k = choose|k: int|
            0 <= k < s.attempts.len() && s.jobs[i].counts(#[trigger] s.attempts[k], n);
        assert(t.jobs[i].counts(t.attempts[k], n));
    }
    assert forall|i: int|
        0 <= i < t.jobs.len() && t.jobs[i].is(JobStatus::Running) implies #[trigger] t.is_run(
        t.jobs[i],
    ) by {
        assert(s.is_run(s.jobs[i]));
        let k = choose|k: int|
            0 <= k < s.attempts.len() && s.jobs[i].runs(#[trigger] s.attempts[k]);
        assert(t.jobs[i].runs(t.attempts[k]));
    }
}

/// Putting a dead job back keeps the queue sound, provided that the new limit covers the attempts
/// made so far.
pub proof fn law_revival_keeps_soundness(s: QueueState, id: u128, max_attempts: i32, now: Timestamp)
    requires
        s.sound(),
        forall|i: int|
            0 <= i < s.jobs.len() && (#[trigger] s.jobs[i]).is_dead(id) ==> s.jobs[i].attempts
                <= max_attempts,
    ensures
        s.after_revival(id, max_attempts, now).sound(),
{
    lemma_status_texts();
    let t = s.after_revival(id, max_attempts, now);
    assert forall|i: int| 0 <= i < s.jobs.len() implies same_progress(
        s.jobs[i],
        #[trigger] t.jobs[i],
    ) && t.jobs[i].coherent() by {
        assert(s.jobs[i].coherent());
    }
    lemma_same_progress_keeps_soundness(s, t);
}

} // verus!
