//! What the operations do to the rows of the tables, in terms of their columns: which rows an operation
//! is about, what it changes in them, and what it leaves alone.

use crate::db::attempts::{attempt_records, AttemptRow};
use crate::db::jobs::{claimed_from, delay_millis, job_records, ClaimedJob, JobRow, JobStore};
use crate::db::model::{
    at_most, attempt_keys, claim_keys, has_job, is_claim_order, job_of, listed_keys, AttemptRecord,
    ClaimTerms, JobRecord, QueueState,
};
use crate::db::order::{is_order, lemma_order_distinct, precedes, rows_at};
use crate::db::soundness::lemma_chosen;
use crate::domain::JobStatus;
use crate::time::Timestamp;
use vstd::prelude::*;

verus! {

// ---------------------------------------------------------------------------------------------
// Rows
// ---------------------------------------------------------------------------------------------

/// A record of a job says what the row holds, column by column, and a table has a record for each row.
pub proof fn law_job_records_say_what_the_rows_hold(rows: Seq<JobRow>, i: int)
    requires
        0 <= i < rows.len(),
    ensures
        job_records(rows).len() == rows.len(),
        job_records(rows)[i] == rows[i]@,
        ({
            let row = rows[i];
            let record = rows[i]@;
            &&& record.id == row.id
            &&& record.kind == row.kind@
            &&& record.payload == row.payload@
            &&& record.status == row.status@
            &&& record.attempts == row.attempts
            &&& record.max_attempts == row.max_attempts
            &&& record.next_attempt_at == row.next_attempt_at
            &&& record.lease_token == row.lease_token
            &&& record.lease_expires_at == row.lease_expires_at
            &&& record.last_error_code is Some <==> row.last_error_code is Some
            &&& row.last_error_code matches Some(code) ==> record.last_error_code == Some(code@)
            &&& record.last_error_message is Some <==> row.last_error_message is Some
            &&& row.last_error_message matches Some(text) ==> record.last_error_message == Some(
                text@,
            )
            &&& record.created_at == row.created_at
            &&& record.updated_at == row.updated_at
            &&& record.started_at == row.started_at
            &&& record.finished_at == row.finished_at
            &&& record.version == row.version
        }),
{
}

/// A record of an attempt says what the row holds, column by column, and a table has a record for each
/// row.
pub proof fn law_attempt_records_say_what_the_rows_hold(rows: Seq<AttemptRow>, i: int)
    requires
        0 <= i < rows.len(),
    ensures
        attempt_records(rows).len() == rows.len(),
        attempt_records(rows)[i] == rows[i]@,
        ({
            let row = rows[i];
            let record = rows[i]@;
            &&& record.id == row.id
            &&& record.job_id == row.job_id
            &&& record.attempt_number == row.attempt_number
            &&& record.worker_id == row.worker_id@
            &&& record.lease_token == row.lease_token
            &&& record.started_at == row.started_at
            &&& record.finished_at == row.finished_at
            &&& record.outcome is Some <==> row.outcome is Some
            &&& row.outcome matches Some(text) ==> record.outcome == Some(text@)
            &&& record.error_code is Some <==> row.error_code is Some
            &&& row.error_code matches Some(code) ==> record.error_code == Some(code@)
            &&& record.error_message is Some <==> row.error_message is Some
            &&& row.error_message matches Some(text) ==> record.error_message == Some(text@)
            &&& record.scheduled_delay_ms == row.scheduled_delay_ms
            &&& record.duration_ms == row.duration_ms
        }),
{
}

/// A store says what its two tables hold.
pub proof fn law_stores_say_what_their_tables_hold(store: JobStore)
    ensures
        store@.jobs == store.jobs@.map_values(|row: JobRow| row@),
        store@.attempts == store.attempts@.map_values(|row: AttemptRow| row@),
{
}

/// Looking a job up finds a row of that identifier if there is one, and of several the first.
pub proof fn law_lookups_find_the_first_row(jobs: Seq<JobRecord>, id: u128)
    ensures
        job_of(jobs, id) is None <==> forall|i: int|
            0 <= i < jobs.len() ==> (#[trigger] jobs[i]).id != id,
        forall|i: int|
            0 <= i < jobs.len() && (#[trigger] jobs[i]).id == id && (forall|k: int|
                0 <= k < i ==> (#[trigger] jobs[k]).id != id) ==> job_of(jobs, id) == Some(jobs[i]),
        has_job(jobs, id) <==> job_of(jobs, id) is Some,
    decreases jobs.len(),
{
    if jobs.len() > 0 {
        let rest = jobs.drop_first();
        law_lookups_find_the_first_row(rest, id);
        assert forall|i: int| 0 < i < jobs.len() implies #[trigger] jobs[i] == rest[i - 1] by {}
        if jobs[0].id == id {
            assert(jobs.first() == jobs[0]);
        } else {
            if job_of(rest, id) is Some {
                let n = choose|n: int| 0 <= n < rest.len() && (#[trigger] rest[n]).id == id;
                assert(jobs[n + 1].id == id);
            }
            assert forall|i: int|
                0 <= i < jobs.len() && (#[trigger] jobs[i]).id == id && (forall|k: int|
                    0 <= k < i ==> (#[trigger] jobs[k]).id != id) implies job_of(jobs, id) == Some(
                jobs[i],
            ) by {
                assert(rest[i - 1] == jobs[i]);
                assert forall|k: int| 0 <= k < i - 1 implies (#[trigger] rest[k]).id != id by {
                    assert(jobs[k + 1].id != id);
                }
            }
        }
    }
}

/// A new job waits, has not been tried, is due from the time of its submission, and holds what was
/// submitted.
pub proof fn law_submitted_jobs_hold_what_was_submitted(
    id: u128,
    kind: Seq<char>,
    payload: Seq<char>,
    max_attempts: i32,
    now: Timestamp,
)
    ensures
        ({
            let job = JobRecord::submitted(id, kind, payload, max_attempts, now);
            &&& job.id == id && job.kind == kind && job.payload == payload
            &&& job.max_attempts == max_attempts
            &&& job.status == "PENDING"@ && job.attempts == 0
            &&& job.next_attempt_at == now && job.created_at == now && job.updated_at == now
            &&& job.lease_token is None && job.lease_expires_at is None
            &&& job.last_error_code is None && job.last_error_message is None
            &&& job.started_at is None && job.finished_at is None
            &&& job.version == 0
        }),
{
}

// ---------------------------------------------------------------------------------------------
// Claims
// ---------------------------------------------------------------------------------------------

/// Which jobs a claim is about: those that wait and whose time has come, and those that run and whose
/// lease has run out, as long as they have an attempt left. It takes no others, and takes all of them
/// unless it takes as many as it may.
pub proof fn law_claims_take_due_and_abandoned_jobs(
    s: QueueState,
    order: Seq<int>,
    limit: int,
    now: Timestamp,
    i: int,
)
    requires
        is_claim_order(s.jobs, now, order),
        0 <= limit,
        0 <= i < s.jobs.len(),
    ensures
        order.contains(i) <==> {
            let job = s.jobs[i];
            &&& job.attempts < job.max_attempts
            &&& {
                ||| job.status == "PENDING"@ && !now.before(job.next_attempt_at)
                ||| job.status == "RUNNING"@ && job.lease_expires_at is Some && !now.before(
                    job.lease_expires_at->0,
                )
            }
        },
        at_most(order, limit).contains(i) ==> order.contains(i),
        order.contains(i) && !at_most(order, limit).contains(i) ==> at_most(order, limit).len()
            == limit,
        at_most(order, limit).len() <= limit,
        at_most(order, limit).len() <= order.len(),
        order.len() <= s.jobs.len(),
        order.no_duplicates(),
{
    let keys = claim_keys(s.jobs, now);
    lemma_order_distinct(keys, order);
    if order.contains(i) {
        let p = order.index_of(i);
        assert(keys[order[p]] is Some);
        if p < limit {
            assert(at_most(order, limit)[p] == i);
        }
    } else {
        assert(keys[i] is None);
    }
    if at_most(order, limit).contains(i) {
        let p = at_most(order, limit).index_of(i);
        assert(order[p] == i);
    }
}

/// Claims go by due time, then by age. Of two jobs that could be taken, one is taken while the other is
/// passed over only if it has not been due later, and where they are due at the same time only if it is
/// not younger. Where both agree, the one that stands first in the table is taken.
pub proof fn law_claims_go_by_due_time_then_age(
    s: QueueState,
    order: Seq<int>,
    limit: int,
    now: Timestamp,
    taken: int,
    passed: int,
)
    requires
        is_claim_order(s.jobs, now, order),
        0 <= limit,
        at_most(order, limit).contains(taken),
        order.contains(passed),
        !at_most(order, limit).contains(passed),
    ensures
        ({
            let first = s.jobs[taken];
            let other = s.jobs[passed];
            &&& !other.next_attempt_at.before(first.next_attempt_at)
            &&& first.next_attempt_at == other.next_attempt_at ==> !other.created_at.before(
                first.created_at,
            )
            &&& first.next_attempt_at == other.next_attempt_at && first.created_at
                == other.created_at ==> taken < passed
        }),
{
    let keys = claim_keys(s.jobs, now);
    let p = at_most(order, limit).index_of(taken);
    let q = order.index_of(passed);
    assert(order[p] == taken);
    assert(order[q] == passed);
    if q < at_most(order, limit).len() {
        assert(at_most(order, limit)[q] == passed);
    }
    assert(precedes(keys, order[p], order[q]));
}

/// A claim hands its jobs out in that order too.
pub proof fn law_claimed_jobs_are_handed_out_in_order(
    s: QueueState,
    order: Seq<int>,
    limit: int,
    now: Timestamp,
    p: int,
    q: int,
)
    requires
        is_claim_order(s.jobs, now, order),
        0 <= limit,
        0 <= p < q < at_most(order, limit).len(),
    ensures
        ({
            let first = s.jobs[at_most(order, limit)[p]];
            let other = s.jobs[at_most(order, limit)[q]];
            &&& !other.next_attempt_at.before(first.next_attempt_at)
            &&& first.next_attempt_at == other.next_attempt_at ==> !other.created_at.before(
                first.created_at,
            )
        }),
{
    assert(precedes(claim_keys(s.jobs, now), order[p], order[q]));
}

/// A job that is taken runs under the lease that was given out for it, with one attempt more than
/// before. It keeps the time of its first start, if it has been started before. Nothing else about it
/// changes.
pub proof fn law_claimed_jobs_run_under_their_lease(
    s: QueueState,
    order: Seq<int>,
    limit: int,
    terms: ClaimTerms,
    p: int,
)
    requires
        is_claim_order(s.jobs, terms.now, order),
        0 <= limit,
        0 <= p < at_most(order, limit).len(),
    ensures
        ({
            let i = at_most(order, limit)[p];
            let before = s.jobs[i];
            let after = s.after_claim(at_most(order, limit), terms).jobs[i];
            &&& 0 <= i < s.jobs.len()
            &&& after.status == "RUNNING"@
            &&& after.attempts == before.attempts + 1
            &&& after.lease_token == Some(terms.fresh[p].lease_token)
            &&& after.lease_expires_at == Some(terms.lease_end)
            &&& before.started_at is Some ==> after.started_at == before.started_at
            &&& before.started_at is None ==> after.started_at == Some(terms.now)
            &&& after.updated_at == terms.now
            &&& after.id == before.id && after.kind == before.kind && after.payload
                == before.payload
            &&& after.max_attempts == before.max_attempts
            &&& after.next_attempt_at == before.next_attempt_at
            &&& after.last_error_code == before.last_error_code && after.last_error_message
                == before.last_error_message
            &&& after.created_at == before.created_at && after.finished_at == before.finished_at
            &&& after.version == before.version
        }),
{
    lemma_chosen(s, terms.now, order, limit);
    let i = at_most(order, limit)[p];
    assert(at_most(order, limit).contains(i));
}

/// A job that is not taken is given up if its lease ran out on its last attempt; it then keeps what was
/// submitted and how often it was tried. Every other job that is not taken stays as it is.
pub proof fn law_jobs_not_taken_stay_or_are_given_up(
    s: QueueState,
    order: Seq<int>,
    limit: int,
    terms: ClaimTerms,
    i: int,
)
    requires
        is_claim_order(s.jobs, terms.now, order),
        0 <= limit,
        0 <= i < s.jobs.len(),
        !at_most(order, limit).contains(i),
    ensures
        s.after_claim(at_most(order, limit), terms).jobs.len() == s.jobs.len(),
        ({
            let before = s.jobs[i];
            let after = s.after_claim(at_most(order, limit), terms).jobs[i];
            if before.status == "RUNNING"@ && before.lease_expires_at is Some && !terms.now.before(
                before.lease_expires_at->0,
            ) && before.attempts >= before.max_attempts {
                &&& after.status == "DEAD"@
                &&& after.lease_token is None && after.lease_expires_at is None
                &&& after.last_error_code == Some("LEASE_EXPIRED_BUDGET_EXHAUSTED"@)
                &&& after.last_error_message == Some(
                    "lease expired after exhausting max_attempts with no successful finalize"@,
                )
                &&& after.finished_at == Some(terms.now) && after.updated_at == terms.now
                &&& after.id == before.id && after.kind == before.kind && after.payload
                    == before.payload
                &&& after.attempts == before.attempts && after.max_attempts == before.max_attempts
                &&& after.next_attempt_at == before.next_attempt_at
                &&& after.created_at == before.created_at && after.started_at == before.started_at
                &&& after.version == before.version
            } else {
                after == before
            }
        }),
{
}

/// A claim begins one attempt for each job that it takes, by the claiming worker, under the number that
/// the job then counts and under the lease that it then runs under. The attempt is open, and nothing is
/// known of its end.
pub proof fn law_claims_begin_attempts(
    s: QueueState,
    order: Seq<int>,
    limit: int,
    terms: ClaimTerms,
    p: int,
)
    requires
        is_claim_order(s.jobs, terms.now, order),
        0 <= limit,
        0 <= p < at_most(order, limit).len(),
    ensures
        ({
            let after = s.after_claim(at_most(order, limit), terms);
            let job = after.jobs[at_most(order, limit)[p]];
            let attempt = after.attempts[s.attempts.len() + p];
            &&& after.attempts.len() == s.attempts.len() + at_most(order, limit).len()
            &&& attempt.id == terms.fresh[p].attempt_id
            &&& attempt.job_id == job.id
            &&& attempt.attempt_number == job.attempts
            &&& attempt.lease_token == job.lease_token
            &&& attempt.worker_id == terms.worker_id
            &&& attempt.started_at == terms.now
            &&& attempt.finished_at is None && attempt.outcome is None
            &&& attempt.error_code is None && attempt.error_message is None
            &&& attempt.scheduled_delay_ms is None && attempt.duration_ms is None
        }),
{
    lemma_chosen(s, terms.now, order, limit);
    let i = at_most(order, limit)[p];
    assert(at_most(order, limit).contains(i));
}

/// A claim closes the open attempts of the jobs whose lease has run out as lost, and leaves every other
/// attempt as it is.
pub proof fn law_claims_close_lost_attempts_and_no_others(
    s: QueueState,
    chosen: Seq<int>,
    terms: ClaimTerms,
    k: int,
)
    requires
        0 <= k < s.attempts.len(),
    ensures
        ({
            let before = s.attempts[k];
            let after = s.after_claim(chosen, terms).attempts[k];
            let expired = exists|i: int|
                0 <= i < s.jobs.len() && (#[trigger] s.jobs[i]).id == before.job_id
                    && s.jobs[i].status == "RUNNING"@ && s.jobs[i].lease_expires_at is Some
                    && !terms.now.before(s.jobs[i].lease_expires_at->0);
            if before.outcome is None && expired {
                &&& after.outcome == Some("LEASE_LOST"@)
                &&& after.finished_at == Some(terms.now)
                &&& after == (AttemptRecord {
                    outcome: after.outcome,
                    finished_at: after.finished_at,
                    ..before
                })
            } else {
                after == before
            }
        }),
        s.attempts_after_expiry(terms.now).len() == s.attempts.len(),
        s.attempts_after_expiry(terms.now)[k] == s.after_claim(chosen, terms).attempts[k],
{
    let before = s.attempts[k];
    if s.lease_ran_out(before.job_id, terms.now) {
        let i = choose|i: int|
            0 <= i < s.jobs.len() && (#[trigger] s.jobs[i]).id == before.job_id
                && s.jobs[i].expired(terms.now);
        assert(s.jobs[i].status == "RUNNING"@);
    }
}

/// What a worker is told of a job that it claimed is what then stands in the table, and whether the job
/// was taken over from somebody whose lease ran out.
pub proof fn law_workers_are_told_what_they_claimed(
    s: QueueState,
    order: Seq<int>,
    limit: int,
    terms: ClaimTerms,
    p: int,
    claimed: ClaimedJob,
)
    requires
        is_claim_order(s.jobs, terms.now, order),
        0 <= limit,
        0 <= p < at_most(order, limit).len(),
        claimed_from(
            claimed,
            s,
            s.after_claim(at_most(order, limit), terms),
            at_most(order, limit)[p],
        ),
    ensures
        claimed.job.id == s.jobs[at_most(order, limit)[p]].id,
        claimed.job.payload@ == s.jobs[at_most(order, limit)[p]].payload,
        claimed.job.lease_token == Some(terms.fresh[p].lease_token),
        claimed.job.lease_expires_at == Some(terms.lease_end),
        claimed.attempt_number == s.jobs[at_most(order, limit)[p]].attempts + 1,
        claimed.attempt_number == claimed.job.attempts,
        claimed.job@ == s.after_claim(at_most(order, limit), terms).jobs[at_most(order, limit)[p]],
        claimed.was_reclaimed <==> s.jobs[at_most(order, limit)[p]].status == "RUNNING"@,
{
    law_claimed_jobs_run_under_their_lease(s, order, limit, terms, p);
}

// ---------------------------------------------------------------------------------------------
// Endings
// ---------------------------------------------------------------------------------------------

/// Who holds a lease: some job of that identifier runs under that token.
pub proof fn law_leases_are_held_by_their_token(s: QueueState, id: u128, token: u128)
    ensures
        s.lease_held(id, token) <==> exists|i: int|
            0 <= i < s.jobs.len() && (#[trigger] s.jobs[i]).id == id && s.jobs[i].status
                == "RUNNING"@ && s.jobs[i].lease_token == Some(token),
{
    if s.lease_held(id, token) {
        let i = choose|i: int| 0 <= i < s.jobs.len() && (#[trigger] s.jobs[i]).leased_to(id, token);
        assert(s.jobs[i].id == id);
    }
    if exists|i: int|
        0 <= i < s.jobs.len() && (#[trigger] s.jobs[i]).id == id && s.jobs[i].status == "RUNNING"@
            && s.jobs[i].lease_token == Some(token) {
        let i = choose|i: int|
            0 <= i < s.jobs.len() && (#[trigger] s.jobs[i]).id == id && s.jobs[i].status
                == "RUNNING"@ && s.jobs[i].lease_token == Some(token);
        assert(s.jobs[i].leased_to(id, token));
    }
}

/// Both are the same job, with the same contents, submitted at the same time, with as many attempts
/// made and as many allowed, and first started at the same time.
pub open spec fn same_history(before: JobRecord, after: JobRecord) -> bool {
    &&& after.id == before.id
    &&& after.kind == before.kind
    &&& after.payload == before.payload
    &&& after.attempts == before.attempts
    &&& after.max_attempts == before.max_attempts
    &&& after.created_at == before.created_at
    &&& after.started_at == before.started_at
    &&& after.version == before.version
}

/// A success ends the job of the holder of the lease, and clears its errors. Other jobs stay as they
/// are.
pub proof fn law_success_finishes_the_job(
    s: QueueState,
    id: u128,
    token: u128,
    duration_ms: i64,
    now: Timestamp,
    i: int,
)
    requires
        0 <= i < s.jobs.len(),
    ensures
        s.after_success(id, token, duration_ms, now).jobs.len() == s.jobs.len(),
        ({
            let before = s.jobs[i];
            let after = s.after_success(id, token, duration_ms, now).jobs[i];
            if before.id == id && before.status == "RUNNING"@ && before.lease_token == Some(token) {
                &&& after.status == "SUCCEEDED"@
                &&& after.lease_token is None && after.lease_expires_at is None
                &&& after.last_error_code is None && after.last_error_message is None
                &&& after.finished_at == Some(now) && after.updated_at == now
                &&& after.next_attempt_at == before.next_attempt_at
                &&& same_history(before, after)
            } else {
                after == before
            }
        }),
{
    law_leases_are_held_by_their_token(s, id, token);
}

/// A scheduled retry puts the job of the holder of the lease back into the queue, to be tried again at
/// the time given, with the attempts that it has left. It records the error. Other jobs stay as they are.
pub proof fn law_retry_puts_the_job_back(
    s: QueueState,
    id: u128,
    token: u128,
    next: Timestamp,
    scheduled_delay_ms: i64,
    error_code: Seq<char>,
    error_message: Seq<char>,
    duration_ms: i64,
    now: Timestamp,
    i: int,
)
    requires
        0 <= i < s.jobs.len(),
    ensures
        ({
            let t = s.after_reschedule(
                id,
                token,
                next,
                scheduled_delay_ms,
                error_code,
                error_message,
                duration_ms,
                now,
            );
            let before = s.jobs[i];
            let after = t.jobs[i];
            &&& t.jobs.len() == s.jobs.len()
            &&& if before.id == id && before.status == "RUNNING"@ && before.lease_token == Some(
                token,
            ) {
                &&& after.status == "PENDING"@
                &&& after.next_attempt_at == next
                &&& after.lease_token is None && after.lease_expires_at is None
                &&& after.last_error_code == Some(error_code)
                &&& after.last_error_message == Some(error_message)
                &&& after.finished_at == before.finished_at && after.updated_at == now
                &&& same_history(before, after)
                &&& after.max_attempts - after.attempts == before.max_attempts - before.attempts
            } else {
                after == before
            }
        }),
{
    law_leases_are_held_by_their_token(s, id, token);
}

/// A death ends the job of the holder of the lease, and records the error. Other jobs stay as they are.
pub proof fn law_death_finishes_the_job(
    s: QueueState,
    id: u128,
    token: u128,
    error_code: Seq<char>,
    error_message: Seq<char>,
    duration_ms: i64,
    now: Timestamp,
    i: int,
)
    requires
        0 <= i < s.jobs.len(),
    ensures
        ({
            let t = s.after_death(id, token, error_code, error_message, duration_ms, now);
            let before = s.jobs[i];
            let after = t.jobs[i];
            &&& t.jobs.len() == s.jobs.len()
            &&& if before.id == id && before.status == "RUNNING"@ && before.lease_token == Some(
                token,
            ) {
                &&& after.status == "DEAD"@
                &&& after.next_attempt_at == before.next_attempt_at
                &&& after.lease_token is None && after.lease_expires_at is None
                &&& after.last_error_code == Some(error_code)
                &&& after.last_error_message == Some(error_message)
                &&& after.finished_at == Some(now) && after.updated_at == now
                &&& same_history(before, after)
            } else {
                after == before
            }
        }),
{
    law_leases_are_held_by_their_token(s, id, token);
}

/// Both are the same attempt, begun by the same worker, at the same time and under the same lease.
pub open spec fn same_beginning(before: AttemptRecord, after: AttemptRecord) -> bool {
    &&& after.id == before.id
    &&& after.job_id == before.job_id
    &&& after.attempt_number == before.attempt_number
    &&& after.worker_id == before.worker_id
    &&& after.lease_token == before.lease_token
    &&& after.started_at == before.started_at
}

/// Whoever holds the lease ends the attempts made under it: how they ended, when, and after how long is
/// recorded. All other attempts stay as they are, and so do all of them where the lease is not held.
pub proof fn law_endings_are_recorded(
    s: QueueState,
    id: u128,
    token: u128,
    next: Timestamp,
    scheduled_delay_ms: i64,
    error_code: Seq<char>,
    error_message: Seq<char>,
    duration_ms: i64,
    now: Timestamp,
    k: int,
)
    requires
        0 <= k < s.attempts.len(),
    ensures
        ({
            let before = s.attempts[k];
            let success = s.after_success(id, token, duration_ms, now).attempts;
            let retry = s.after_reschedule(
                id,
                token,
                next,
                scheduled_delay_ms,
                error_code,
                error_message,
                duration_ms,
                now,
            ).attempts;
            let death = s.after_death(
                id,
                token,
                error_code,
                error_message,
                duration_ms,
                now,
            ).attempts;
            let held = exists|i: int|
                0 <= i < s.jobs.len() && (#[trigger] s.jobs[i]).id == id && s.jobs[i].status
                    == "RUNNING"@ && s.jobs[i].lease_token == Some(token);
            &&& success.len() == s.attempts.len()
            &&& retry.len() == s.attempts.len()
            &&& death.len() == s.attempts.len()
            &&& if held && before.job_id == id && before.lease_token == Some(token) {
                &&& same_beginning(before, success[k]) && same_beginning(before, retry[k])
                    && same_beginning(before, death[k])
                &&& success[k].outcome == Some("SUCCEEDED"@)
                &&& retry[k].outcome == Some("RETRY_SCHEDULED"@)
                &&& death[k].outcome == Some("DEAD"@)
                &&& success[k].finished_at == Some(now) && retry[k].finished_at == Some(now)
                    && death[k].finished_at == Some(now)
                &&& success[k].duration_ms == Some(duration_ms) && retry[k].duration_ms == Some(
                    duration_ms,
                ) && death[k].duration_ms == Some(duration_ms)
                &&& success[k].error_code == before.error_code && success[k].error_message
                    == before.error_message
                &&& retry[k].error_code == Some(error_code) && retry[k].error_message == Some(
                    error_message,
                )
                &&& death[k].error_code == Some(error_code) && death[k].error_message == Some(
                    error_message,
                )
                &&& retry[k].scheduled_delay_ms == Some(scheduled_delay_ms)
                &&& success[k].scheduled_delay_ms == before.scheduled_delay_ms
                    && death[k].scheduled_delay_ms == before.scheduled_delay_ms
            } else {
                success[k] == before && retry[k] == before && death[k] == before
            }
        }),
{
    law_leases_are_held_by_their_token(s, id, token);
}

/// A scheduled delay is recorded in milliseconds: to the nearest one, as far as that can be held.
pub proof fn law_recorded_delays_are_close(delay: nat)
    ensures
        0 <= delay_millis(delay),
        delay <= i64::MAX * 1_000_000 ==> -500_000 <= delay_millis(delay) * 1_000_000 - delay
            <= 500_000,
        delay >= i64::MAX * 1_000_000 ==> delay_millis(delay) == i64::MAX,
{
}

/// A renewal moves the end of the lease of its holder, and nothing else. Other jobs stay as they are.
pub proof fn law_renewal_moves_the_end_of_the_lease(
    s: QueueState,
    id: u128,
    token: u128,
    lease_end: Timestamp,
    now: Timestamp,
    i: int,
)
    requires
        0 <= i < s.jobs.len(),
    ensures
        ({
            let t = s.after_renewal(id, token, lease_end, now);
            let before = s.jobs[i];
            let after = t.jobs[i];
            &&& t.attempts == s.attempts
            &&& t.jobs.len() == s.jobs.len()
            &&& if before.id == id && before.status == "RUNNING"@ && before.lease_token == Some(
                token,
            ) {
                &&& after.lease_expires_at == Some(lease_end) && after.updated_at == now
                &&& after.status == before.status && after.lease_token == before.lease_token
                &&& after.next_attempt_at == before.next_attempt_at
                &&& after.last_error_code == before.last_error_code && after.last_error_message
                    == before.last_error_message
                &&& after.finished_at == before.finished_at
                &&& same_history(before, after)
            } else {
                after == before
            }
        }),
{
}

/// An operator's retry puts the dead jobs of that identifier back into the queue, due at once, without
/// the error of their death, and with as many attempts allowed as it says. What was submitted and how
/// often it was tried stays. Other jobs, and all attempts, stay as they are.
pub proof fn law_revival_puts_the_dead_job_back(
    s: QueueState,
    id: u128,
    max_attempts: i32,
    now: Timestamp,
    i: int,
)
    requires
        0 <= i < s.jobs.len(),
    ensures
        ({
            let t = s.after_revival(id, max_attempts, now);
            let before = s.jobs[i];
            let after = t.jobs[i];
            &&& t.attempts == s.attempts
            &&& t.jobs.len() == s.jobs.len()
            &&& if before.id == id && before.status == "DEAD"@ {
                &&& after.status == "PENDING"@
                &&& after.max_attempts == max_attempts
                &&& after.next_attempt_at == now && after.updated_at == now
                &&& after.lease_token is None && after.lease_expires_at is None
                &&& after.last_error_code is None && after.last_error_message is None
                &&& after.finished_at is None
                &&& same_history(before, JobRecord { max_attempts: before.max_attempts, ..after })
            } else {
                after == before
            }
        }),
{
}

/// Claims, renewals and all endings of an attempt leave the number of attempts that a job is allowed as
/// it was: only an operator's retry changes it, and only that of a dead job.
pub proof fn law_only_an_operator_changes_the_budget(
    s: QueueState,
    i: int,
    chosen: Seq<int>,
    terms: ClaimTerms,
    id: u128,
    token: u128,
    next: Timestamp,
    scheduled_delay_ms: i64,
    error_code: Seq<char>,
    error_message: Seq<char>,
    duration_ms: i64,
    new_max_attempts: i32,
)
    requires
        0 <= i < s.jobs.len(),
    ensures
        s.after_claim(chosen, terms).jobs[i].max_attempts == s.jobs[i].max_attempts,
        s.after_renewal(id, token, terms.lease_end, terms.now).jobs[i].max_attempts
            == s.jobs[i].max_attempts,
        s.after_success(id, token, duration_ms, terms.now).jobs[i].max_attempts
            == s.jobs[i].max_attempts,
        s.after_reschedule(
            id,
            token,
            next,
            scheduled_delay_ms,
            error_code,
            error_message,
            duration_ms,
            terms.now,
        ).jobs[i].max_attempts == s.jobs[i].max_attempts,
        s.after_death(
            id,
            token,
            error_code,
            error_message,
            duration_ms,
            terms.now,
        ).jobs[i].max_attempts == s.jobs[i].max_attempts,
        s.after_revival(id, new_max_attempts, terms.now).jobs[i].max_attempts
            != s.jobs[i].max_attempts ==> s.jobs[i].status == "DEAD"@ && s.jobs[i].id == id,
{
}

// ---------------------------------------------------------------------------------------------
// Listings
// ---------------------------------------------------------------------------------------------

/// Which jobs are listed: every one of the status asked for, or of any status where none is asked for;
/// after a place, those that are younger, or as old and of a greater identifier. Each has one place in
/// the listing.
pub proof fn law_listings_have_a_place_for_every_row(
    jobs: Seq<JobRecord>,
    status: Option<JobStatus>,
    after: Option<(Timestamp, u128)>,
    order: Seq<int>,
    i: int,
)
    requires
        is_order(listed_keys(jobs, status, after), order),
        0 <= i < jobs.len(),
    ensures
        order.contains(i) <==> {
            let job = jobs[i];
            &&& status == Some(JobStatus::Pending) ==> job.status == "PENDING"@
            &&& status == Some(JobStatus::Running) ==> job.status == "RUNNING"@
            &&& status == Some(JobStatus::Succeeded) ==> job.status == "SUCCEEDED"@
            &&& status == Some(JobStatus::Dead) ==> job.status == "DEAD"@
            &&& after matches Some(place) ==> {
                ||| place.0.before(job.created_at)
                ||| place.0 == job.created_at && place.1 < job.id
            }
        },
        order.no_duplicates(),
        forall|p: int| 0 <= p < order.len() ==> 0 <= #[trigger] order[p] < jobs.len(),
{
    let keys = listed_keys(jobs, status, after);
    lemma_order_distinct(keys, order);
    if order.contains(i) {
        let p = order.index_of(i);
        assert(keys[order[p]] is Some);
    } else {
        assert(keys[i] is None);
    }
}

/// A listing without a status and without a place to begin after lists the whole table.
pub proof fn law_unfiltered_listings_hold_the_whole_table(jobs: Seq<JobRecord>, order: Seq<int>)
    requires
        is_order(listed_keys(jobs, None, None), order),
    ensures
        order.len() == jobs.len(),
{
    let keys = listed_keys(jobs, None, None);
    lemma_order_distinct(keys, order);
    let all = vstd::set_lib::set_int_range(0, jobs.len() as int);
    vstd::set_lib::lemma_int_range(0, jobs.len() as int);
    order.unique_seq_to_set();
    assert forall|i: int| all.contains(i) implies order.to_set().contains(i) by {
        law_listings_have_a_place_for_every_row(jobs, None, None, order, i);
    }
    vstd::set_lib::lemma_len_subset(all, order.to_set());
}

/// Listings go by age, the oldest job first, and by identifier where jobs are equally old.
pub proof fn law_listings_go_by_age_then_identifier(
    jobs: Seq<JobRecord>,
    status: Option<JobStatus>,
    after: Option<(Timestamp, u128)>,
    order: Seq<int>,
    p: int,
    q: int,
)
    requires
        is_order(listed_keys(jobs, status, after), order),
        0 <= p < q < order.len(),
    ensures
        ({
            let first = jobs[order[p]];
            let other = jobs[order[q]];
            &&& !other.created_at.before(first.created_at)
            &&& first.created_at == other.created_at ==> first.id <= other.id
        }),
{
    assert(precedes(listed_keys(jobs, status, after), order[p], order[q]));
}

/// The attempts of a job are listed in full, each once, in the order of their numbers.
pub proof fn law_attempts_are_listed_by_number(
    attempts: Seq<AttemptRecord>,
    job_id: u128,
    order: Seq<int>,
)
    requires
        is_order(attempt_keys(attempts, job_id), order),
    ensures
        order.no_duplicates(),
        forall|k: int|
            0 <= k < attempts.len() ==> (#[trigger] order.contains(k) <==> attempts[k].job_id
                == job_id),
        rows_at(attempts, order).len() == order.len(),
        forall|p: int|
            0 <= p < order.len() ==> #[trigger] rows_at(attempts, order)[p] == attempts[order[p]],
        forall|p: int, q: int|
            0 <= p < q < order.len() ==> attempts[#[trigger] order[p]].attempt_number
                <= attempts[#[trigger] order[q]].attempt_number,
{
    let keys = attempt_keys(attempts, job_id);
    lemma_order_distinct(keys, order);
    assert forall|k: int| 0 <= k < attempts.len() implies (#[trigger] order.contains(k)
        <==> attempts[k].job_id == job_id) by {
        if order.contains(k) {
            let n = order.index_of(k);
            assert(keys[order[n]] is Some);
        } else {
            assert(keys[k] is None);
        }
    }
    assert forall|p: int, q: int| 0 <= p < q < order.len() implies attempts[
        #[trigger] order[p]].attempt_number <= attempts[#[trigger] order[q]].attempt_number by {
        assert(precedes(keys, order[p], order[q]));
    }
}

} // verus!
