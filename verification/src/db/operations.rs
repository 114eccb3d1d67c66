//! What whoever calls an operation of the store can rely on: how the rows before the call, the arguments,
//! the result and the rows after the call hang together.

use crate::db::attempts::{attempt_records, list_for_job, AttemptRow};
use crate::db::charges::{
    find_by_idempotency_key, insert_charge, insert_or_get_charge, ChargeRecord, ChargeRow,
    ChargeStore, InsertChargeOutcome,
};
use crate::db::effects::{
    law_attempts_are_listed_by_number,
    law_claimed_jobs_are_handed_out_in_order, law_claimed_jobs_run_under_their_lease,
    law_claims_begin_attempts, law_claims_close_lost_attempts_and_no_others,
    law_claims_go_by_due_time_then_age, law_claims_take_due_and_abandoned_jobs,
    law_death_finishes_the_job, law_endings_are_recorded, law_jobs_not_taken_stay_or_are_given_up,
    law_leases_are_held_by_their_token, law_listings_go_by_age_then_identifier,
    law_listings_have_a_place_for_every_row, law_lookups_find_the_first_row,
    law_recorded_delays_are_close, law_renewal_moves_the_end_of_the_lease,
    law_retry_puts_the_job_back, law_revival_puts_the_dead_job_back, law_success_finishes_the_job,
    law_workers_are_told_what_they_claimed, same_beginning, same_history,
};
use crate::db::jobs::{
    claim_pending_jobs, claimed_from, close_lost_attempts, delay_millis, finalize_dead,
    finalize_retry_scheduled, finalize_success, get_job_by_id, insert_job, list_jobs, renew_lease,
    retry_dead_job, ClaimedJob, JobRow, JobStore, RepoError,
};
use crate::db::model::{
    at_most, attempt_keys, is_claim_order, job_of, listed_keys, AttemptRecord, ClaimTerms, FreshIds, JobRecord,
    QueueState,
};
use crate::db::order::{is_order, rows_at};
use crate::domain::{law_status_text_round_trip, JobStatus};
use crate::time::{law_later_points_lie_a_span_away, Duration, Timestamp};
use vstd::prelude::*;

verus! {

/// `then` lies `nanos` after `at`, to the nearest microsecond.
pub open spec fn lies_after(then: Timestamp, at: Timestamp, nanos: nat) -> bool {
    let passed = (then.secs * 1_000_000_000 + then.nanos) - (at.secs * 1_000_000_000 + at.nanos);
    -500 <= passed - nanos <= 500 && passed % 1000 == 0
}

/// A worker may take the job at that time: it waits and its time has come, or it runs and its lease has
/// run out; and it has an attempt left.
pub open spec fn to_be_had(job: JobRecord, now: Timestamp) -> bool {
    &&& job.attempts < job.max_attempts
    &&& {
        ||| job.status == "PENDING"@ && !now.before(job.next_attempt_at)
        ||| job.status == "RUNNING"@ && job.lease_expires_at is Some && !now.before(
            job.lease_expires_at->0,
        )
    }
}

/// A claim takes jobs that are to be had, each of them once more tried than before, and no more than its
/// limit. One that is to be had and not taken is left only because the limit was reached, and then no
/// job that was taken was due later, or was due at the same time and younger.
pub proof fn law_a_claim_takes_what_has_been_due_longest(
    store: &mut JobStore,
    worker_id: &str,
    limit: i64,
    lease_duration: &Duration,
    now: Timestamp,
    fresh: &Vec<FreshIds>,
    claimed: Vec<ClaimedJob>,
    taken: int,
    left: int,
)
    requires
        call_ensures(
            claim_pending_jobs,
            (store, worker_id, limit, lease_duration, now, fresh),
            Ok(claimed),
        ),
        0 <= taken < old(store)@.jobs.len(),
        old(store)@.jobs[taken].attempts != final(store)@.jobs[taken].attempts,
        0 <= left < old(store)@.jobs.len(),
        old(store)@.jobs[left].attempts == final(store)@.jobs[left].attempts,
    ensures
        claimed.len() <= limit,
        to_be_had(old(store)@.jobs[taken], now),
        to_be_had(old(store)@.jobs[left], now) ==> {
            let first = old(store)@.jobs[taken];
            let other = old(store)@.jobs[left];
            &&& claimed.len() == limit
            &&& !other.next_attempt_at.before(first.next_attempt_at)
            &&& first.next_attempt_at == other.next_attempt_at ==> !other.created_at.before(
                first.created_at,
            )
        },
{
    let s = old(store)@;
    let terms = ClaimTerms {
        worker_id: worker_id@,
        lease_end: now.later(lease_duration@)->0,
        now,
        fresh: fresh@,
    };
    let order = choose|order: Seq<int>| #[trigger]
        is_claim_order(old(store)@.jobs, now, order) && claimed_by(
            old(store)@,
            final(store)@,
            order,
            limit as int,
            terms,
            claimed@,
        );
    let chosen = at_most(order, limit as int);
    law_claims_take_due_and_abandoned_jobs(s, order, limit as int, now, taken);
    law_claims_take_due_and_abandoned_jobs(s, order, limit as int, now, left);
    if !chosen.contains(taken) {
        law_jobs_not_taken_stay_or_are_given_up(s, order, limit as int, terms, taken);
    }
    if chosen.contains(left) {
        let p = chosen.index_of(left);
        law_claimed_jobs_run_under_their_lease(s, order, limit as int, terms, p);
    }
    if to_be_had(s.jobs[left], now) {
        law_claims_go_by_due_time_then_age(s, order, limit as int, now, taken, left);
    }
}

/// What a claim in that order leaves and hands out.
spec fn claimed_by(
    before: QueueState,
    after: QueueState,
    order: Seq<int>,
    limit: int,
    terms: ClaimTerms,
    claimed: Seq<ClaimedJob>,
) -> bool {
    let chosen = at_most(order, limit);
    &&& after == before.after_claim(chosen, terms)
    &&& claimed.len() == chosen.len()
    &&& forall|k: int|
        0 <= k < claimed.len() ==> claimed_from(#[trigger] claimed[k], before, after, chosen[k])
}

/// What a claim does to a row. Either it is taken: it then runs, under a lease that ends the given span
/// after the claim, and was tried once more. Or it is given up, because its lease ran out on its last
/// attempt. Or it stays as it is. In every case it remains the job that was submitted, with as many
/// attempts allowed as before.
pub proof fn law_a_claim_takes_gives_up_or_leaves_a_row(
    store: &mut JobStore,
    worker_id: &str,
    limit: i64,
    lease_duration: &Duration,
    now: Timestamp,
    fresh: &Vec<FreshIds>,
    claimed: Vec<ClaimedJob>,
    i: int,
)
    requires
        call_ensures(
            claim_pending_jobs,
            (store, worker_id, limit, lease_duration, now, fresh),
            Ok(claimed),
        ),
        0 <= i < old(store)@.jobs.len(),
    ensures
        final(store)@.jobs.len() == old(store)@.jobs.len(),
        final(store)@.attempts.len() == old(store)@.attempts.len() + claimed.len(),
        ({
            let before = old(store)@.jobs[i];
            let after = final(store)@.jobs[i];
            let ran_out = before.status == "RUNNING"@ && before.lease_expires_at is Some
                && !now.before(before.lease_expires_at->0);
            &&& after.id == before.id && after.kind == before.kind && after.payload
                == before.payload && after.max_attempts == before.max_attempts && after.created_at
                == before.created_at && after.next_attempt_at == before.next_attempt_at
                && after.version == before.version
            &&& after == before || after.updated_at == now
            &&& after.attempts != before.attempts ==> {
                &&& after.attempts == before.attempts + 1
                &&& after.status == "RUNNING"@
                &&& after.lease_expires_at is Some
                &&& lies_after(after.lease_expires_at->0, now, lease_duration@)
                &&& exists|p: int|
                    0 <= p < claimed.len() && after.lease_token == Some(
                        (#[trigger] fresh@[p]).lease_token,
                    )
                &&& before.started_at is Some ==> after.started_at == before.started_at
                &&& before.started_at is None ==> after.started_at == Some(now)
                &&& after.last_error_code == before.last_error_code && after.last_error_message
                    == before.last_error_message && after.finished_at == before.finished_at
            }
            &&& ran_out && before.attempts >= before.max_attempts ==> {
                &&& after.attempts == before.attempts && after.status == "DEAD"@
                &&& after.lease_token is None && after.lease_expires_at is None
                &&& after.finished_at == Some(now) && after.started_at == before.started_at
                &&& after.last_error_code == Some("LEASE_EXPIRED_BUDGET_EXHAUSTED"@)
            }
            &&& !to_be_had(before, now) && !(ran_out && before.attempts >= before.max_attempts)
                ==> after == before
        }),
{
    let s = old(store)@;
    let terms = ClaimTerms {
        worker_id: worker_id@,
        lease_end: now.later(lease_duration@)->0,
        now,
        fresh: fresh@,
    };
    let order = choose|order: Seq<int>| #[trigger]
        is_claim_order(old(store)@.jobs, now, order) && claimed_by(
            old(store)@,
            final(store)@,
            order,
            limit as int,
            terms,
            claimed@,
        );
    let chosen = at_most(order, limit as int);
    law_later_points_lie_a_span_away(now, lease_duration@);
    law_claims_take_due_and_abandoned_jobs(s, order, limit as int, now, i);
    if chosen.contains(i) {
        let p = chosen.index_of(i);
        law_claimed_jobs_run_under_their_lease(s, order, limit as int, terms, p);
        assert(fresh@[p].lease_token == terms.fresh[p].lease_token);
    } else {
        law_jobs_not_taken_stay_or_are_given_up(s, order, limit as int, terms, i);
    }
    if chosen.len() > 0 {
        law_claims_begin_attempts(s, order, limit as int, terms, 0);
    } else {
        assert(final(store)@.attempts.len() == s.attempts.len());
    }
}

/// What a claim hands out: each job as it then stands in the table, with the lease made for it, the
/// number of the attempt that the claim began, and whether it was taken over. The attempt is on record,
/// open and by that worker. Jobs come in the order in which they have been due.
pub proof fn law_a_claim_hands_out_jobs_with_their_attempts(
    store: &mut JobStore,
    worker_id: &str,
    limit: i64,
    lease_duration: &Duration,
    now: Timestamp,
    fresh: &Vec<FreshIds>,
    claimed: Vec<ClaimedJob>,
    k: int,
)
    requires
        call_ensures(
            claim_pending_jobs,
            (store, worker_id, limit, lease_duration, now, fresh),
            Ok(claimed),
        ),
        0 <= k < claimed.len(),
    ensures
        claimed@[k].job.status@ == "RUNNING"@,
        claimed@[k].job.lease_token == Some(fresh@[k].lease_token),
        claimed@[k].attempt_number == claimed@[k].job.attempts,
        exists|i: int|
            0 <= i < old(store)@.jobs.len() && claimed@[k].job@ == #[trigger] final(store)@.jobs[i]
                && claimed@[k].attempt_number == old(store)@.jobs[i].attempts + 1
                && claimed@[k].was_reclaimed == (old(store)@.jobs[i].status == "RUNNING"@),
        ({
            let attempt = final(store)@.attempts[old(store)@.attempts.len() + k];
            &&& attempt.id == fresh@[k].attempt_id
            &&& attempt.job_id == claimed@[k].job.id
            &&& attempt.attempt_number == claimed@[k].attempt_number
            &&& attempt.lease_token == claimed@[k].job.lease_token
            &&& attempt.worker_id == worker_id@
            &&& attempt.started_at == now
            &&& attempt.outcome is None && attempt.finished_at is None
        }),
        forall|l: int|
            k < l < claimed.len() ==> !(#[trigger] claimed@[l]).job.next_attempt_at.before(
                claimed@[k].job.next_attempt_at,
            ),
{
    let s = old(store)@;
    let terms = ClaimTerms {
        worker_id: worker_id@,
        lease_end: now.later(lease_duration@)->0,
        now,
        fresh: fresh@,
    };
    let order = choose|order: Seq<int>| #[trigger]
        is_claim_order(old(store)@.jobs, now, order) && claimed_by(
            old(store)@,
            final(store)@,
            order,
            limit as int,
            terms,
            claimed@,
        );
    let chosen = at_most(order, limit as int);
    assert(claimed_from(claimed@[k], s, final(store)@, chosen[k]));
    law_claimed_jobs_run_under_their_lease(s, order, limit as int, terms, k);
    law_workers_are_told_what_they_claimed(s, order, limit as int, terms, k, claimed@[k]);
    law_claims_begin_attempts(s, order, limit as int, terms, k);
    assert(claimed@[k].job@ == final(store)@.jobs[chosen[k]]);
    assert forall|l: int| k < l < claimed.len() implies !(
    #[trigger] claimed@[l]).job.next_attempt_at.before(claimed@[k].job.next_attempt_at) by {
        assert(claimed_from(claimed@[l], s, final(store)@, chosen[l]));
        law_claimed_jobs_run_under_their_lease(s, order, limit as int, terms, l);
        law_claimed_jobs_are_handed_out_in_order(s, order, limit as int, now, k, l);
    }
}

/// The rows at those places, each of them once, are what was handed out, and no other row was tried once
/// more.
pub open spec fn handed_out(
    before: Seq<JobRecord>,
    after: Seq<JobRecord>,
    claimed: Seq<ClaimedJob>,
    rows: Seq<int>,
) -> bool {
    &&& rows.no_duplicates()
    &&& rows.len() == claimed.len()
    &&& forall|k: int|
        0 <= k < rows.len() ==> {
            let i = #[trigger] rows[k];
            0 <= i < before.len() && claimed[k].job@ == after[i] && after[i].attempts
                == before[i].attempts + 1
        }
    &&& forall|i: int|
        0 <= i < before.len() && !rows.contains(i) ==> (#[trigger] after[i]).attempts
            == before[i].attempts
}

/// A claim hands out each job that it takes once and no others, and holds one back only because of its
/// limit.
pub proof fn law_a_claim_is_held_back_by_its_limit_alone(
    store: &mut JobStore,
    worker_id: &str,
    limit: i64,
    lease_duration: &Duration,
    now: Timestamp,
    fresh: &Vec<FreshIds>,
    claimed: Vec<ClaimedJob>,
    i: int,
)
    requires
        call_ensures(
            claim_pending_jobs,
            (store, worker_id, limit, lease_duration, now, fresh),
            Ok(claimed),
        ),
        0 <= i < old(store)@.jobs.len(),
    ensures
        exists|rows: Seq<int>| #[trigger]
            handed_out(old(store)@.jobs, final(store)@.jobs, claimed@, rows),
        to_be_had(old(store)@.jobs[i], now) && old(store)@.jobs[i].attempts
            == final(store)@.jobs[i].attempts ==> claimed.len() == limit,
        claimed.len() <= limit,
{
    let s = old(store)@;
    let terms = ClaimTerms {
        worker_id: worker_id@,
        lease_end: now.later(lease_duration@)->0,
        now,
        fresh: fresh@,
    };
    let order = choose|order: Seq<int>| #[trigger]
        is_claim_order(old(store)@.jobs, now, order) && claimed_by(
            old(store)@,
            final(store)@,
            order,
            limit as int,
            terms,
            claimed@,
        );
    let chosen = at_most(order, limit as int);
    crate::db::order::lemma_order_distinct(crate::db::model::claim_keys(s.jobs, now), order);
    assert forall|k: int| 0 <= k < chosen.len() implies {
        let n = #[trigger] chosen[k];
        0 <= n < s.jobs.len() && claimed@[k].job@ == final(store)@.jobs[n]
            && final(store)@.jobs[n].attempts == s.jobs[n].attempts + 1
    } by {
        assert(claimed_from(claimed@[k], s, final(store)@, chosen[k]));
        law_claimed_jobs_run_under_their_lease(s, order, limit as int, terms, k);
    }
    assert forall|n: int| 0 <= n < s.jobs.len() && !chosen.contains(n) implies (
    #[trigger] final(store)@.jobs[n]).attempts == s.jobs[n].attempts by {
        law_jobs_not_taken_stay_or_are_given_up(s, order, limit as int, terms, n);
    }
    assert(handed_out(s.jobs, final(store)@.jobs, claimed@, chosen));
    law_claims_take_due_and_abandoned_jobs(s, order, limit as int, now, i);
    if chosen.contains(i) {
        let p = chosen.index_of(i);
        law_claimed_jobs_run_under_their_lease(s, order, limit as int, terms, p);
    } else if to_be_had(s.jobs[i], now) {
        assert(order.contains(i));
        if order.len() <= limit {
            assert(chosen == order);
        }
    }
}

/// A claim closes the attempts that were lost, and touches no other attempt.
pub proof fn law_a_claim_closes_lost_attempts(
    store: &mut JobStore,
    worker_id: &str,
    limit: i64,
    lease_duration: &Duration,
    now: Timestamp,
    fresh: &Vec<FreshIds>,
    claimed: Vec<ClaimedJob>,
    k: int,
)
    requires
        call_ensures(
            claim_pending_jobs,
            (store, worker_id, limit, lease_duration, now, fresh),
            Ok(claimed),
        ),
        0 <= k < old(store)@.attempts.len(),
    ensures
        closed_if_lost(old(store)@, now, old(store)@.attempts[k], final(store)@.attempts[k]),
{
    let terms = ClaimTerms {
        worker_id: worker_id@,
        lease_end: now.later(lease_duration@)->0,
        now,
        fresh: fresh@,
    };
    let order = choose|order: Seq<int>| #[trigger]
        is_claim_order(old(store)@.jobs, now, order) && claimed_by(
            old(store)@,
            final(store)@,
            order,
            limit as int,
            terms,
            claimed@,
        );
    law_claims_close_lost_attempts_and_no_others(
        old(store)@,
        at_most(order, limit as int),
        terms,
        k,
    );
}

/// The attempt is closed as lost if it was open and the lease of its job has run out; otherwise it is
/// as it was.
pub open spec fn closed_if_lost(
    s: QueueState,
    now: Timestamp,
    before: AttemptRecord,
    after: AttemptRecord,
) -> bool {
    let ran_out = exists|i: int|
        0 <= i < s.jobs.len() && (#[trigger] s.jobs[i]).id == before.job_id && s.jobs[i].status
            == "RUNNING"@ && s.jobs[i].lease_expires_at is Some && !now.before(
            s.jobs[i].lease_expires_at->0,
        );
    if before.outcome is None && ran_out {
        &&& same_beginning(before, after)
        &&& after.outcome == Some("LEASE_LOST"@) && after.finished_at == Some(now)
        &&& after.error_code == before.error_code && after.error_message == before.error_message
        &&& after.scheduled_delay_ms == before.scheduled_delay_ms && after.duration_ms
            == before.duration_ms
    } else {
        after == before
    }
}

/// Closing lost attempts does this and nothing else.
pub proof fn law_closing_lost_attempts(store: &mut JobStore, now: &Timestamp, k: int)
    requires
        call_ensures(close_lost_attempts, (store, now), ()),
        0 <= k < old(store)@.attempts.len(),
    ensures
        final(store)@.jobs == old(store)@.jobs,
        final(store)@.attempts.len() == old(store)@.attempts.len(),
        closed_if_lost(old(store)@, *now, old(store)@.attempts[k], final(store)@.attempts[k]),
{
    let terms = ClaimTerms { worker_id: seq![], lease_end: *now, now: *now, fresh: seq![] };
    law_claims_close_lost_attempts_and_no_others(old(store)@, seq![], terms, k);
}

/// A claim is refused only for a negative limit, or for a lease that would end beyond all times; nothing
/// has happened then.
pub proof fn law_refused_claims_change_nothing(
    store: &mut JobStore,
    worker_id: &str,
    limit: i64,
    lease_duration: &Duration,
    now: Timestamp,
    fresh: &Vec<FreshIds>,
    e: RepoError,
)
    requires
        call_ensures(
            claim_pending_jobs,
            (store, worker_id, limit, lease_duration, now, fresh),
            Err(e),
        ),
    ensures
        final(store)@ == old(store)@,
        limit < 0 || now.secs * 1_000_000_000 + now.nanos + lease_duration@ + 500 >= (i64::MAX + 1)
            * 1_000_000_000,
{
    law_later_points_lie_a_span_away(now, lease_duration@);
}

// ---------------------------------------------------------------------------------------------
// Endings
// ---------------------------------------------------------------------------------------------

/// The row is under that lease.
pub open spec fn under_that_lease(job: JobRecord, id: u128, token: u128) -> bool {
    job.id == id && job.status == "RUNNING"@ && job.lease_token == Some(token)
}

/// Some row is.
pub open spec fn somebody_holds(s: QueueState, id: u128, token: u128) -> bool {
    exists|i: int| 0 <= i < s.jobs.len() && under_that_lease(#[trigger] s.jobs[i], id, token)
}

proof fn lemma_holder(s: QueueState, id: u128, token: u128)
    ensures
        somebody_holds(s, id, token) <==> s.lease_held(id, token),
        s.lease_held(id, token) <==> exists|i: int|
            0 <= i < s.jobs.len() && (#[trigger] s.jobs[i]).id == id && s.jobs[i].status
                == "RUNNING"@ && s.jobs[i].lease_token == Some(token),
{
    law_leases_are_held_by_their_token(s, id, token);
    if s.lease_held(id, token) {
        let i = choose|i: int| 0 <= i < s.jobs.len() && (#[trigger] s.jobs[i]).leased_to(id, token);
        assert(under_that_lease(s.jobs[i], id, token));
    }
    if somebody_holds(s, id, token) {
        let i = choose|i: int|
            0 <= i < s.jobs.len() && under_that_lease(#[trigger] s.jobs[i], id, token);
        assert(s.jobs[i].leased_to(id, token));
    }
}

/// Ending an attempt with success finishes the job of whoever holds the lease, and tells whether anybody
/// does. Other jobs stay as they are.
pub proof fn law_successes_finish_jobs(
    store: &mut JobStore,
    job_id: u128,
    lease_token: u128,
    duration_ms: i64,
    now: Timestamp,
    held: bool,
    i: int,
)
    requires
        call_ensures(finalize_success, (store, job_id, lease_token, duration_ms, now), held),
        0 <= i < old(store)@.jobs.len(),
    ensures
        held <==> somebody_holds(old(store)@, job_id, lease_token),
        !held ==> final(store)@ == old(store)@,
        final(store)@.jobs.len() == old(store)@.jobs.len(),
        ({
            let before = old(store)@.jobs[i];
            let after = final(store)@.jobs[i];
            &&& same_history(before, after)
            &&& !under_that_lease(before, job_id, lease_token) ==> after == before
            &&& under_that_lease(before, job_id, lease_token) ==> {
                &&& after.status == "SUCCEEDED"@
                &&& after.lease_token is None && after.lease_expires_at is None
                &&& after.last_error_code is None && after.last_error_message is None
                &&& after.finished_at == Some(now) && after.updated_at == now
                &&& after.next_attempt_at == before.next_attempt_at
            }
        }),
{
    lemma_holder(old(store)@, job_id, lease_token);
    law_success_finishes_the_job(old(store)@, job_id, lease_token, duration_ms, now, i);
}

/// Ending an attempt with a retry puts the job of whoever holds the lease back into the queue, to be
/// tried again the delay after now, with as many attempts made and allowed as before. It tells whether
/// anybody holds the lease. Other jobs stay as they are.
pub proof fn law_retries_put_jobs_back(
    store: &mut JobStore,
    job_id: u128,
    lease_token: u128,
    delay: &Duration,
    error_code: &str,
    error_message: &str,
    duration_ms: i64,
    now: Timestamp,
    held: bool,
    i: int,
)
    requires
        call_ensures(
            finalize_retry_scheduled,
            (store, job_id, lease_token, delay, error_code, error_message, duration_ms, now),
            Ok(held),
        ),
        0 <= i < old(store)@.jobs.len(),
    ensures
        held <==> somebody_holds(old(store)@, job_id, lease_token),
        !held ==> final(store)@ == old(store)@,
        final(store)@.jobs.len() == old(store)@.jobs.len(),
        ({
            let before = old(store)@.jobs[i];
            let after = final(store)@.jobs[i];
            &&& same_history(before, after)
            &&& !under_that_lease(before, job_id, lease_token) ==> after == before
            &&& under_that_lease(before, job_id, lease_token) ==> {
                &&& after.status == "PENDING"@
                &&& lies_after(after.next_attempt_at, now, delay@)
                &&& after.lease_token is None && after.lease_expires_at is None
                &&& after.last_error_code == Some(error_code@) && after.last_error_message == Some(
                    error_message@,
                )
                &&& after.finished_at == before.finished_at && after.updated_at == now
            }
        }),
{
    lemma_holder(old(store)@, job_id, lease_token);
    law_later_points_lie_a_span_away(now, delay@);
    law_retry_puts_the_job_back(
        old(store)@,
        job_id,
        lease_token,
        now.later(delay@)->0,
        delay_millis(delay@),
        error_code@,
        error_message@,
        duration_ms,
        now,
        i,
    );
}

/// Ending an attempt with death finishes the job of whoever holds the lease, and keeps the error. It
/// tells whether anybody holds the lease. Other jobs stay as they are.
pub proof fn law_deaths_finish_jobs(
    store: &mut JobStore,
    job_id: u128,
    lease_token: u128,
    error_code: &str,
    error_message: &str,
    duration_ms: i64,
    now: Timestamp,
    held: bool,
    i: int,
)
    requires
        call_ensures(
            finalize_dead,
            (store, job_id, lease_token, error_code, error_message, duration_ms, now),
            held,
        ),
        0 <= i < old(store)@.jobs.len(),
    ensures
        held <==> somebody_holds(old(store)@, job_id, lease_token),
        !held ==> final(store)@ == old(store)@,
        final(store)@.jobs.len() == old(store)@.jobs.len(),
        ({
            let before = old(store)@.jobs[i];
            let after = final(store)@.jobs[i];
            &&& same_history(before, after)
            &&& !under_that_lease(before, job_id, lease_token) ==> after == before
            &&& under_that_lease(before, job_id, lease_token) ==> {
                &&& after.status == "DEAD"@
                &&& after.lease_token is None && after.lease_expires_at is None
                &&& after.last_error_code == Some(error_code@) && after.last_error_message == Some(
                    error_message@,
                )
                &&& after.finished_at == Some(now) && after.updated_at == now
                &&& after.next_attempt_at == before.next_attempt_at
            }
        }),
{
    lemma_holder(old(store)@, job_id, lease_token);
    law_death_finishes_the_job(
        old(store)@,
        job_id,
        lease_token,
        error_code@,
        error_message@,
        duration_ms,
        now,
        i,
    );
}

/// The attempt was ended at that time, after that long; or, if it was not made under that lease, stayed
/// as it was.
pub open spec fn ended(
    before: AttemptRecord,
    after: AttemptRecord,
    id: u128,
    token: u128,
    outcome: Seq<char>,
    duration_ms: i64,
    now: Timestamp,
) -> bool {
    if before.job_id == id && before.lease_token == Some(token) {
        &&& same_beginning(before, after)
        &&& after.outcome == Some(outcome)
        &&& after.finished_at == Some(now) && after.duration_ms == Some(duration_ms)
    } else {
        after == before
    }
}

/// A success, while the lease is held, is recorded with the attempt that was made under it.
pub proof fn law_successes_are_recorded(
    store: &mut JobStore,
    job_id: u128,
    lease_token: u128,
    duration_ms: i64,
    now: Timestamp,
    k: int,
)
    requires
        call_ensures(finalize_success, (store, job_id, lease_token, duration_ms, now), true),
        0 <= k < old(store)@.attempts.len(),
    ensures
        final(store)@.attempts.len() == old(store)@.attempts.len(),
        ended(
            old(store)@.attempts[k],
            final(store)@.attempts[k],
            job_id,
            lease_token,
            "SUCCEEDED"@,
            duration_ms,
            now,
        ),
        final(store)@.attempts[k].error_code == old(store)@.attempts[k].error_code,
        final(store)@.attempts[k].scheduled_delay_ms == old(store)@.attempts[k].scheduled_delay_ms,
{
    lemma_holder(old(store)@, job_id, lease_token);
    law_endings_are_recorded(
        old(store)@,
        job_id,
        lease_token,
        now,
        0,
        seq![],
        seq![],
        duration_ms,
        now,
        k,
    );
}

/// A scheduled retry, while the lease is held, is recorded with the attempt that was made under it,
/// together with the error and with the delay to the nearest millisecond.
pub proof fn law_retries_are_recorded(
    store: &mut JobStore,
    job_id: u128,
    lease_token: u128,
    delay: &Duration,
    error_code: &str,
    error_message: &str,
    duration_ms: i64,
    now: Timestamp,
    k: int,
)
    requires
        call_ensures(
            finalize_retry_scheduled,
            (store, job_id, lease_token, delay, error_code, error_message, duration_ms, now),
            Ok(true),
        ),
        0 <= k < old(store)@.attempts.len(),
    ensures
        final(store)@.attempts.len() == old(store)@.attempts.len(),
        ended(
            old(store)@.attempts[k],
            final(store)@.attempts[k],
            job_id,
            lease_token,
            "RETRY_SCHEDULED"@,
            duration_ms,
            now,
        ),
        old(store)@.attempts[k].job_id == job_id && old(store)@.attempts[k].lease_token == Some(
            lease_token,
        ) ==> {
            let after = final(store)@.attempts[k];
            &&& after.error_code == Some(error_code@) && after.error_message == Some(error_message@)
            &&& after.scheduled_delay_ms is Some
            &&& delay@ <= i64::MAX * 1_000_000 ==> -500_000 <= after.scheduled_delay_ms->0
                * 1_000_000 - delay@ <= 500_000
        },
{
    lemma_holder(old(store)@, job_id, lease_token);
    law_recorded_delays_are_close(delay@);
    law_endings_are_recorded(
        old(store)@,
        job_id,
        lease_token,
        now.later(delay@)->0,
        delay_millis(delay@),
        error_code@,
        error_message@,
        duration_ms,
        now,
        k,
    );
}

/// A death, while the lease is held, is recorded with the attempt that was made under it, together with
/// the error.
pub proof fn law_deaths_are_recorded(
    store: &mut JobStore,
    job_id: u128,
    lease_token: u128,
    error_code: &str,
    error_message: &str,
    duration_ms: i64,
    now: Timestamp,
    k: int,
)
    requires
        call_ensures(
            finalize_dead,
            (store, job_id, lease_token, error_code, error_message, duration_ms, now),
            true,
        ),
        0 <= k < old(store)@.attempts.len(),
    ensures
        final(store)@.attempts.len() == old(store)@.attempts.len(),
        ended(
            old(store)@.attempts[k],
            final(store)@.attempts[k],
            job_id,
            lease_token,
            "DEAD"@,
            duration_ms,
            now,
        ),
        old(store)@.attempts[k].job_id == job_id && old(store)@.attempts[k].lease_token == Some(
            lease_token,
        ) ==> final(store)@.attempts[k].error_code == Some(error_code@) && final(store)@.attempts[k].error_message == Some(error_message@),
        final(store)@.attempts[k].scheduled_delay_ms == old(store)@.attempts[k].scheduled_delay_ms,
{
    lemma_holder(old(store)@, job_id, lease_token);
    law_endings_are_recorded(
        old(store)@,
        job_id,
        lease_token,
        now,
        0,
        error_code@,
        error_message@,
        duration_ms,
        now,
        k,
    );
}

/// Renewing a lease moves its end to the given span after now, for whoever holds it, and tells whether
/// anybody does. Nothing else changes.
pub proof fn law_renewals_move_the_end(
    store: &mut JobStore,
    job_id: u128,
    lease_token: u128,
    lease_duration: &Duration,
    now: Timestamp,
    held: bool,
    i: int,
)
    requires
        call_ensures(renew_lease, (store, job_id, lease_token, lease_duration, now), Ok(held)),
        0 <= i < old(store)@.jobs.len(),
    ensures
        held <==> somebody_holds(old(store)@, job_id, lease_token),
        final(store)@.attempts == old(store)@.attempts,
        final(store)@.jobs.len() == old(store)@.jobs.len(),
        ({
            let before = old(store)@.jobs[i];
            let after = final(store)@.jobs[i];
            &&& !under_that_lease(before, job_id, lease_token) ==> after == before
            &&& under_that_lease(before, job_id, lease_token) ==> {
                &&& after.lease_expires_at is Some
                &&& lies_after(after.lease_expires_at->0, now, lease_duration@)
                &&& after == (JobRecord {
                    lease_expires_at: after.lease_expires_at,
                    updated_at: now,
                    ..before
                })
            }
        }),
{
    lemma_holder(old(store)@, job_id, lease_token);
    law_later_points_lie_a_span_away(now, lease_duration@);
    law_renewal_moves_the_end_of_the_lease(
        old(store)@,
        job_id,
        lease_token,
        now.later(lease_duration@)->0,
        now,
        i,
    );
}

/// A retry or a renewal is refused only where the time that it leads to lies beyond all times; nothing
/// has happened then.
pub proof fn law_refused_endings_change_nothing(
    store: &mut JobStore,
    job_id: u128,
    lease_token: u128,
    span: &Duration,
    error_code: &str,
    error_message: &str,
    duration_ms: i64,
    now: Timestamp,
    e: RepoError,
)
    requires
        call_ensures(
            finalize_retry_scheduled,
            (store, job_id, lease_token, span, error_code, error_message, duration_ms, now),
            Err(e),
        ) || call_ensures(renew_lease, (store, job_id, lease_token, span, now), Err(e)),
    ensures
        final(store)@ == old(store)@,
        now.secs * 1_000_000_000 + now.nanos + span@ + 500 >= (i64::MAX + 1) * 1_000_000_000,
{
    law_later_points_lie_a_span_away(now, span@);
}

// ---------------------------------------------------------------------------------------------
// Submitting, looking up, listing, retrying
// ---------------------------------------------------------------------------------------------

/// A job is added after the others, waiting and due at once, with what was submitted. An identifier that
/// is taken is refused, and nothing has happened then.
pub proof fn law_jobs_are_added_as_submitted(
    store: &mut JobStore,
    id: u128,
    kind: &str,
    payload: &str,
    max_attempts: i32,
    now: Timestamp,
    r: Result<JobRow, RepoError>,
)
    requires
        call_ensures(insert_job, (store, id, kind, payload, max_attempts, now), r),
    ensures
        r is Err <==> exists|i: int|
            0 <= i < old(store)@.jobs.len() && (#[trigger] old(store)@.jobs[i]).id == id,
        r is Err ==> final(store)@ == old(store)@,
        r matches Ok(row) ==> {
            &&& final(store)@.attempts == old(store)@.attempts
            &&& final(store)@.jobs == old(store)@.jobs.push(row@)
            &&& row.id == id && row.kind@ == kind@ && row.payload@ == payload@
            &&& row.max_attempts == max_attempts && row.attempts == 0
            &&& row.status@ == "PENDING"@
            &&& row.next_attempt_at == now && row.created_at == now && row.updated_at == now
            &&& row.lease_token is None && row.lease_expires_at is None
            &&& row.last_error_code is None && row.last_error_message is None
            &&& row.started_at is None && row.finished_at is None && row.version == 0
        },
{
    if r is Ok {
        let row = r->Ok_0;
        assert(row@.last_error_code is None);
        assert(row@.last_error_message is None);
    }
}

/// Looking a job up finds it if it is there.
pub proof fn law_jobs_are_looked_up_by_identifier(store: &JobStore, id: u128, r: Option<JobRow>)
    requires
        call_ensures(get_job_by_id, (store, id), r),
    ensures
        r is None <==> forall|i: int|
            0 <= i < store@.jobs.len() ==> (#[trigger] store@.jobs[i]).id != id,
        r matches Some(row) ==> row.id == id && exists|i: int|
            0 <= i < store@.jobs.len() && row@ == #[trigger] store@.jobs[i],
{
    law_lookups_find_the_first_row(store@.jobs, id);
    if r is Some {
        let i = lemma_found_row(store@.jobs, id);
        assert(store@.jobs[i] == r->0@);
    }
}

proof fn lemma_found_row(jobs: Seq<JobRecord>, id: u128) -> (i: int)
    requires
        job_of(jobs, id) is Some,
    ensures
        0 <= i < jobs.len(),
        jobs[i].id == id,
        jobs[i] == job_of(jobs, id)->0,
    decreases jobs.len(),
{
    if jobs.first().id == id {
        0
    } else {
        let i = lemma_found_row(jobs.drop_first(), id);
        assert(jobs.drop_first()[i] == jobs[i + 1]);
        i + 1
    }
}

/// A listing holds rows of the status asked for alone, or of every status where none is asked for,
/// beyond the place that it begins after, from the oldest on. A row that belongs to it is missing only
/// because the limit was reached, and then no row in it is younger, or equally old and of a greater
/// identifier.
pub proof fn law_listings_hold_the_oldest_rows(
    store: &JobStore,
    status: Option<JobStatus>,
    limit: i64,
    after: Option<(Timestamp, u128)>,
    rows: Vec<JobRow>,
    i: int,
    k: int,
)
    requires
        call_ensures(list_jobs, (store, status, limit, after), Ok(rows)),
        0 <= i < store@.jobs.len(),
        0 <= k < rows.len(),
    ensures
        rows.len() <= limit,
        store@.jobs.contains(rows@[k]@),
        belongs(rows@[k]@, status, after),
        belongs(store@.jobs[i], status, after) && (forall|l: int|
            0 <= l < rows.len() ==> (#[trigger] rows@[l])@ != store@.jobs[i]) ==> {
            &&& rows.len() == limit
            &&& !store@.jobs[i].created_at.before(rows@[k].created_at)
            &&& rows@[k].created_at == store@.jobs[i].created_at ==> rows@[k].id
                <= store@.jobs[i].id
        },
        forall|l: int|
            k < l < rows.len() ==> !(#[trigger] rows@[l]).created_at.before(rows@[k].created_at) && (
            rows@[k].created_at == rows@[l].created_at ==> rows@[k].id <= rows@[l].id),
{
    let jobs = store@.jobs;
    let order = choose|order: Seq<int>| #[trigger]
        is_order(listed_keys(jobs, status, after), order) && crate::db::jobs::job_records(rows@)
            == rows_at(jobs, at_most(order, limit as int));
    let records = crate::db::jobs::job_records(rows@);
    let chosen = at_most(order, limit as int);
    assert(records.len() == rows.len());
    assert forall|l: int| 0 <= l < rows.len() implies (#[trigger] rows@[l])@ == jobs[order[l]] by {
        assert(records[l] == rows@[l]@);
        assert(chosen[l] == order[l]);
    }
    assert(order.contains(order[k]));
    law_listings_have_a_place_for_every_row(jobs, status, after, order, order[k]);
    law_listings_have_a_place_for_every_row(jobs, status, after, order, i);
    assert(rows@[k]@ == jobs[order[k]]);
    if belongs(jobs[i], status, after) && (forall|l: int|
        0 <= l < rows.len() ==> (#[trigger] rows@[l])@ != jobs[i]) {
        let q = order.index_of(i);
        if q < rows.len() {
            assert(rows@[q]@ == jobs[order[q]]);
        }
        law_listings_go_by_age_then_identifier(jobs, status, after, order, k, q);
    }
    assert forall|l: int| k < l < rows.len() implies !(#[trigger] rows@[l]).created_at.before(
        rows@[k].created_at,
    ) && (rows@[k].created_at == rows@[l].created_at ==> rows@[k].id <= rows@[l].id) by {
        assert(rows@[l]@ == jobs[order[l]]);
        law_listings_go_by_age_then_identifier(jobs, status, after, order, k, l);
    }
}

/// The row has the status asked for, if one is asked for, and lies beyond the place, if there is one.
pub open spec fn belongs(
    job: JobRecord,
    status: Option<JobStatus>,
    after: Option<(Timestamp, u128)>,
) -> bool {
    &&& status == Some(JobStatus::Pending) ==> job.status == "PENDING"@
    &&& status == Some(JobStatus::Running) ==> job.status == "RUNNING"@
    &&& status == Some(JobStatus::Succeeded) ==> job.status == "SUCCEEDED"@
    &&& status == Some(JobStatus::Dead) ==> job.status == "DEAD"@
    &&& after matches Some(place) ==> {
        ||| place.0.before(job.created_at)
        ||| place.0 == job.created_at && place.1 < job.id
    }
}

/// A listing without rows is one to which no row belongs, or one of which none was asked for. Only a
/// negative limit is refused.
pub proof fn law_listings_leave_nothing_out(
    store: &JobStore,
    status: Option<JobStatus>,
    limit: i64,
    after: Option<(Timestamp, u128)>,
    r: Result<Vec<JobRow>, RepoError>,
    i: int,
)
    requires
        call_ensures(list_jobs, (store, status, limit, after), r),
        0 <= i < store@.jobs.len(),
    ensures
        r is Err <==> limit < 0,
        r matches Ok(rows) ==> (rows.len() < limit && belongs(store@.jobs[i], status, after)
            ==> exists|l: int| 0 <= l < rows.len() && (#[trigger] rows@[l])@ == store@.jobs[i]),
{
    if r is Ok {
        let rows = r->Ok_0;
        let jobs = store@.jobs;
        let order = choose|order: Seq<int>| #[trigger]
            is_order(listed_keys(jobs, status, after), order) && crate::db::jobs::job_records(rows@)
                == rows_at(jobs, at_most(order, limit as int));
        let records = crate::db::jobs::job_records(rows@);
        assert(records.len() == rows.len());
        law_listings_have_a_place_for_every_row(jobs, status, after, order, i);
        if rows.len() < limit && belongs(jobs[i], status, after) {
            let q = order.index_of(i);
            assert(at_most(order, limit as int) == order);
            assert(records[q] == rows@[q]@);
        }
    }
}

/// Retrying a dead job puts it back into the queue, due at once, with exactly as many attempts allowed as
/// given, and without its error. Other jobs and all attempts stay as they are. Where there is no such
/// job nothing happens.
pub proof fn law_dead_jobs_are_put_back(
    store: &mut JobStore,
    job_id: u128,
    new_max_attempts: i32,
    now: Timestamp,
    r: Option<JobRow>,
    i: int,
)
    requires
        call_ensures(retry_dead_job, (store, job_id, new_max_attempts, now), r),
        0 <= i < old(store)@.jobs.len(),
    ensures
        final(store)@.attempts == old(store)@.attempts,
        final(store)@.jobs.len() == old(store)@.jobs.len(),
        r is None ==> final(store)@ == old(store)@,
        ({
            let before = old(store)@.jobs[i];
            let after = final(store)@.jobs[i];
            let dead = before.id == job_id && before.status == "DEAD"@;
            &&& !dead ==> after == before
            &&& dead ==> {
                &&& r is Some
                &&& after.status == "PENDING"@ && after.max_attempts == new_max_attempts
                &&& after.next_attempt_at == now && after.updated_at == now
                &&& after.lease_token is None && after.lease_expires_at is None
                &&& after.last_error_code is None && after.last_error_message is None
                &&& after.finished_at is None
                &&& after.id == before.id && after.kind == before.kind && after.payload
                    == before.payload && after.attempts == before.attempts && after.created_at
                    == before.created_at && after.started_at == before.started_at && after.version
                    == before.version
            }
        }),
        r matches Some(row) ==> row.id == job_id && row.status@ == "PENDING"@ && row.max_attempts
            == new_max_attempts && row.next_attempt_at == now,
{
    law_revival_puts_the_dead_job_back(old(store)@, job_id, new_max_attempts, now, i);
    let before = old(store)@.jobs[i];
    if before.id == job_id && before.status == "DEAD"@ {
        assert(before.is_dead(job_id));
    }
    if r is Some {
        let n = choose|n: int|
            0 <= n < old(store)@.jobs.len() && #[trigger] old(store)@.jobs[n].is_dead(job_id) && r->0@
                == old(store)@.jobs[n].revived(new_max_attempts, now);
        assert(r->0@.id == job_id);
    }
}

/// The attempts of a job are all listed, each once, in the order of their numbers.
pub proof fn law_attempts_are_listed_in_full(
    store: &JobStore,
    job_id: u128,
    rows: Vec<AttemptRow>,
) -> (places: Seq<int>)
    requires
        call_ensures(list_for_job, (store, job_id), rows),
    ensures
        places.no_duplicates(),
        forall|k: int|
            0 <= k < store@.attempts.len() ==> (#[trigger] places.contains(k)
                <==> store@.attempts[k].job_id == job_id),
        rows@.len() == places.len(),
        forall|p: int|
            0 <= p < places.len() ==> (#[trigger] rows@[p])@ == store@.attempts[places[p]],
        forall|p: int, q: int|
            0 <= p < q < places.len() ==> store@.attempts[#[trigger] places[p]].attempt_number
                <= store@.attempts[#[trigger] places[q]].attempt_number,
{
    let order = choose|order: Seq<int>| #[trigger]
        is_order(attempt_keys(store@.attempts, job_id), order) && attempt_records(rows@) == rows_at(
            store@.attempts,
            order,
        );
    law_attempts_are_listed_by_number(store@.attempts, job_id, order);
    let records = attempt_records(rows@);
    assert(records.len() == rows@.len());
    assert forall|p: int| 0 <= p < order.len() implies (#[trigger] rows@[p])@
        == store@.attempts[order[p]] by {
        assert(records[p] == rows@[p]@);
        assert(rows_at(store@.attempts, order)[p] == store@.attempts[order[p]]);
    }
    order
}

/// An attempt begins with what it is of, and is marked as lost without losing that.
pub proof fn law_attempts_begin_and_are_lost(
    id: u128,
    job_id: u128,
    attempt_number: i32,
    worker_id: &str,
    token: u128,
    now: Timestamp,
    begun: AttemptRow,
    row: &mut AttemptRow,
)
    requires
        call_ensures(
            AttemptRow::started,
            (id, job_id, attempt_number, worker_id, token, now),
            begun,
        ),
        call_ensures(AttemptRow::mark_lost, (row, now), ()),
    ensures
        begun@.id == id && begun@.job_id == job_id && begun@.attempt_number == attempt_number,
        begun@.worker_id == worker_id@ && begun@.lease_token == Some(token) && begun@.started_at
            == now,
        begun@.outcome is None && begun@.finished_at is None && begun@.error_code is None
            && begun@.error_message is None && begun@.scheduled_delay_ms is None
            && begun@.duration_ms is None,
        same_beginning(old(row)@, final(row)@),
        final(row)@.outcome == Some("LEASE_LOST"@) && final(row)@.finished_at == Some(now),
        final(row)@.error_code == old(row)@.error_code && final(row)@.error_message == old(
            row
        )@.error_message && final(row)@.scheduled_delay_ms == old(row)@.scheduled_delay_ms
            && final(row)@.duration_ms == old(row)@.duration_ms,
{
}

/// The status of a row is the one of its text, and an unknown one is reported.
pub proof fn law_rows_have_the_status_of_their_text(row: JobRow, r: Result<JobStatus, RepoError>)
    requires
        call_ensures(JobRow::status, (&row,), r),
    ensures
        match r {
            Ok(status) => match status {
                JobStatus::Pending => row.status@ == "PENDING"@,
                JobStatus::Running => row.status@ == "RUNNING"@,
                JobStatus::Succeeded => row.status@ == "SUCCEEDED"@,
                JobStatus::Dead => row.status@ == "DEAD"@,
            },
            Err(_) => row.status@ != "PENDING"@ && row.status@ != "RUNNING"@ && row.status@
                != "SUCCEEDED"@ && row.status@ != "DEAD"@,
        },
{
    law_status_text_round_trip(JobStatus::Pending, row.status@);
    law_status_text_round_trip(JobStatus::Running, row.status@);
    law_status_text_round_trip(JobStatus::Succeeded, row.status@);
    law_status_text_round_trip(JobStatus::Dead, row.status@);
}

/// A new store is empty.
pub proof fn law_stores_begin_empty(jobs: JobStore, charges: ChargeStore)
    requires
        call_ensures(JobStore::new, (), jobs),
        call_ensures(ChargeStore::new, (), charges),
    ensures
        jobs@.jobs.len() == 0 && jobs@.attempts.len() == 0,
        charges@.len() == 0,
{
}

// ---------------------------------------------------------------------------------------------
// Charges
// ---------------------------------------------------------------------------------------------

/// A charge was recorded under that key.
pub open spec fn charged_under(charges: Seq<ChargeRecord>, key: Seq<char>) -> bool {
    exists|i: int| 0 <= i < charges.len() && (#[trigger] charges[i]).idempotency_key == key
}

pub(crate) proof fn lemma_charged_under(charges: Seq<ChargeRecord>, key: Seq<char>)
    ensures
        charged_under(charges, key) <==> crate::db::charges::charge_for(charges, key) is Some,
        crate::db::charges::charge_for(charges, key) matches Some(found) ==> found.idempotency_key
            == key && charges.contains(found),
    decreases charges.len(),
{
    if charges.len() > 0 {
        let rest = charges.drop_first();
        lemma_charged_under(rest, key);
        assert forall|i: int| 0 < i < charges.len() implies #[trigger] charges[i] == rest[i - 1] by {}
        if charges[0].idempotency_key == key {
            assert(charges.contains(charges[0]));
        } else {
            if charged_under(rest, key) {
                let i = choose|i: int|
                    0 <= i < rest.len() && (#[trigger] rest[i]).idempotency_key == key;
                assert(charges[i + 1].idempotency_key == key);
                let found = crate::db::charges::charge_for(rest, key)->0;
                let n = rest.index_of(found);
                assert(charges[n + 1] == found);
            }
            if charged_under(charges, key) {
                let i = choose|i: int|
                    0 <= i < charges.len() && (#[trigger] charges[i]).idempotency_key == key;
                assert(rest[i - 1].idempotency_key == key);
            }
        }
    }
}

/// Whatever is asked for, under a key there is at most one charge: a request charges if and only if the
/// key is new, and then exactly what it asks for. Under a used key it is told of the charge that was
/// made, as the same one if customer, amount and currency agree, and otherwise as a conflict.
pub proof fn law_a_key_is_charged_under_once(
    store: &mut ChargeStore,
    id: u128,
    idempotency_key: &str,
    customer_id: &str,
    amount_cents: i64,
    currency: &str,
    now: Timestamp,
    r: Result<InsertChargeOutcome, RepoError>,
)
    requires
        call_ensures(
            insert_or_get_charge,
            (store, id, idempotency_key, customer_id, amount_cents, currency, now),
            r,
        ),
    ensures
        charged_under(old(store)@, idempotency_key@) ==> {
            &&& final(store)@ == old(store)@
            &&& r matches Ok(outcome) && {
                ||| outcome matches InsertChargeOutcome::Replayed(row) && {
                    &&& old(store)@.contains(row@) && row.idempotency_key@ == idempotency_key@
                    &&& row.customer_id@ == customer_id@ && row.amount_cents == amount_cents
                        && row.currency@ == currency@
                }
                ||| outcome matches InsertChargeOutcome::Conflict(row) && {
                    &&& old(store)@.contains(row@) && row.idempotency_key@ == idempotency_key@
                    &&& !(row.customer_id@ == customer_id@ && row.amount_cents == amount_cents
                        && row.currency@ == currency@)
                }
            }
        },
        !charged_under(old(store)@, idempotency_key@) ==> match r {
            Ok(outcome) => outcome matches InsertChargeOutcome::Created(row) && {
                &&& final(store)@ == old(store)@.push(row@)
                &&& row.id == id && row.idempotency_key@ == idempotency_key@
                &&& row.customer_id@ == customer_id@ && row.amount_cents == amount_cents
                    && row.currency@ == currency@
                &&& row.created_at == now
            },
            Err(_) => final(store)@ == old(store)@ && exists|i: int|
                0 <= i < old(store)@.len() && (#[trigger] old(store)@[i]).id == id,
        },
{
    lemma_charged_under(old(store)@, idempotency_key@);
}

/// A charge is recorded as it is asked for, unless its key or its identifier is taken; nothing happens
/// then.
pub proof fn law_charges_are_recorded_as_asked_for(
    store: &mut ChargeStore,
    id: u128,
    idempotency_key: &str,
    customer_id: &str,
    amount_cents: i64,
    currency: &str,
    now: Timestamp,
    r: Result<ChargeRow, RepoError>,
)
    requires
        call_ensures(
            insert_charge,
            (store, id, idempotency_key, customer_id, amount_cents, currency, now),
            r,
        ),
    ensures
        r is Err <==> charged_under(old(store)@, idempotency_key@) || exists|i: int|
            0 <= i < old(store)@.len() && (#[trigger] old(store)@[i]).id == id,
        r is Err ==> final(store)@ == old(store)@,
        r matches Ok(row) ==> {
            &&& final(store)@ == old(store)@.push(row@)
            &&& row.id == id && row.idempotency_key@ == idempotency_key@
            &&& row.customer_id@ == customer_id@ && row.amount_cents == amount_cents && row.currency@
                == currency@
            &&& row.created_at == now
        },
{
    lemma_charged_under(old(store)@, idempotency_key@);
}

/// A charge is found under the key that it was recorded under.
pub proof fn law_charges_are_looked_up_by_key(
    store: &ChargeStore,
    idempotency_key: &str,
    r: Option<ChargeRow>,
)
    requires
        call_ensures(find_by_idempotency_key, (store, idempotency_key), r),
    ensures
        r is Some <==> charged_under(store@, idempotency_key@),
        r matches Some(row) ==> row.idempotency_key@ == idempotency_key@ && store@.contains(row@),
{
    lemma_charged_under(store@, idempotency_key@);
}

} // verus!
