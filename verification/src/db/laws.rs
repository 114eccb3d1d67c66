//! What a user of the queue can rely on.

use crate::db::model::{
    at_most, claim_keys, has_job, is_claim_order, job_of, listed_keys, AttemptRecord, ClaimTerms,
    JobRecord, QueueState,
};
use crate::db::order::{is_order, lemma_order_distinct, lemma_order_unique, precedes};
use crate::db::soundness::{lemma_chosen, lemma_lease, lemma_status_texts};
use crate::domain::{law_outcome_texts_distinct, AttemptOutcome, JobStatus};
use crate::time::Timestamp;
use vstd::prelude::*;

verus! {

/// A submitted job is found at once under its identifier, and can be claimed at once if it is allowed
/// any attempt. What is found under other identifiers stays the same.
pub proof fn law_submitted_jobs_are_found(
    jobs: Seq<JobRecord>,
    id: u128,
    kind: Seq<char>,
    payload: Seq<char>,
    max_attempts: i32,
    now: Timestamp,
    other: u128,
)
    requires
        !has_job(jobs, id),
        other != id,
    ensures
        ({
            let job = JobRecord::submitted(id, kind, payload, max_attempts, now);
            &&& job_of(jobs.push(job), id) == Some(job)
            &&& job_of(jobs.push(job), other) == job_of(jobs, other)
            &&& max_attempts >= 1 ==> job.claimable(now)
        }),
    decreases jobs.len(),
{
    let job = JobRecord::submitted(id, kind, payload, max_attempts, now);
    if jobs.len() > 0 {
        let rest = jobs.drop_first();
        assert(jobs[0].id != id);
        assert forall|i: int| 0 <= i < rest.len() implies (#[trigger] rest[i]).id != id by {
            assert(jobs[i + 1].id != id);
        }
        law_submitted_jobs_are_found(rest, id, kind, payload, max_attempts, now, other);
        assert(jobs.push(job).drop_first() =~= rest.push(job));
    } else {
        assert(jobs.push(job).drop_first() =~= jobs);
    }
}

/// The status of a job moves along the state machine: a waiting job begins to run; a running one
/// succeeds, waits for another attempt, is given up, or runs on.
pub open spec fn moves_on(before: JobRecord, after: JobRecord) -> bool {
    ||| after.status == before.status
    ||| before.is(JobStatus::Pending) && after.is(JobStatus::Running)
    ||| before.is(JobStatus::Running) && (after.is(JobStatus::Succeeded) || after.is(
        JobStatus::Pending,
    ) || after.is(JobStatus::Dead))
}

/// Both are the same job: they agree in what was submitted, and so in the key that is charged under.
pub open spec fn same_job(before: JobRecord, after: JobRecord) -> bool {
    &&& after.id == before.id
    &&& after.kind == before.kind
    &&& after.payload == before.payload
    &&& after.created_at == before.created_at
}

/// Claims, endings and renewals move a job along the state machine, and leave it the job that it is.
pub proof fn law_jobs_move_along_the_state_machine(
    s: QueueState,
    i: int,
    order: Seq<int>,
    limit: int,
    terms: ClaimTerms,
    id: u128,
    token: u128,
    next: Timestamp,
    scheduled_delay_ms: i64,
    error_code: Seq<char>,
    error_message: Seq<char>,
    duration_ms: i64,
)
    requires
        is_claim_order(s.jobs, terms.now, order),
        0 <= limit,
        0 <= i < s.jobs.len(),
    ensures
        ({
            let before = s.jobs[i];
            let claim = s.after_claim(at_most(order, limit), terms).jobs[i];
            let success = s.after_success(id, token, duration_ms, terms.now).jobs[i];
            let retry = s.after_reschedule(
                id,
                token,
                next,
                scheduled_delay_ms,
                error_code,
                error_message,
                duration_ms,
                terms.now,
            ).jobs[i];
            let death = s.after_death(
                id,
                token,
                error_code,
                error_message,
                duration_ms,
                terms.now,
            ).jobs[i];
            let renewal = s.after_renewal(id, token, terms.lease_end, terms.now).jobs[i];
            &&& moves_on(before, claim) && same_job(before, claim)
            &&& moves_on(before, success) && same_job(before, success)
            &&& moves_on(before, retry) && same_job(before, retry)
            &&& moves_on(before, death) && same_job(before, death)
            &&& moves_on(before, renewal) && same_job(before, renewal)
        }),
{
    lemma_chosen(s, terms.now, order, limit);
    let chosen = at_most(order, limit);
    if chosen.contains(i) {
        let p = chosen.index_of(i);
        assert(s.jobs[chosen[p]].claimable(terms.now));
    }
}

/// Until a renewed lease runs out, nobody else can claim the job, and its holder still holds it.
pub proof fn law_renewed_leases_protect(
    s: QueueState,
    i: int,
    id: u128,
    token: u128,
    lease_end: Timestamp,
    now: Timestamp,
    later: Timestamp,
)
    requires
        0 <= i < s.jobs.len(),
        s.jobs[i].leased_to(id, token),
        later.before(lease_end),
    ensures
        !s.after_renewal(id, token, lease_end, now).jobs[i].claimable(later),
        s.after_renewal(id, token, lease_end, now).lease_held(id, token),
{
    lemma_status_texts();
    let t = s.after_renewal(id, token, lease_end, now);
    assert(t.jobs[i].leased_to(id, token));
}

/// A job never has more attempts than it is allowed.
pub proof fn law_attempts_stay_within_budget(s: QueueState, i: int)
    requires
        s.sound(),
        0 <= i < s.jobs.len(),
    ensures
        0 <= s.jobs[i].attempts <= s.jobs[i].max_attempts,
{
    assert(s.jobs[i].coherent());
}

/// A job succeeds at most once.
pub proof fn law_at_most_one_success(s: QueueState, k: int, l: int)
    requires
        s.sound(),
        0 <= k < s.attempts.len(),
        0 <= l < s.attempts.len(),
        s.attempts[k].job_id == s.attempts[l].job_id,
        s.attempts[k].outcome == Some(AttemptOutcome::Succeeded.db_text()),
        s.attempts[l].outcome == Some(AttemptOutcome::Succeeded.db_text()),
    ensures
        k == l,
{
    assert(s.has_owner(s.attempts[k]));
    assert(s.has_owner(s.attempts[l]));
    let i = choose|i: int| 0 <= i < s.jobs.len() && (#[trigger] s.jobs[i]).owns(s.attempts[k]);
    let j = choose|j: int| 0 <= j < s.jobs.len() && (#[trigger] s.jobs[j]).owns(s.attempts[l]);
    if i < j {
        assert(s.jobs[i].id != s.jobs[j].id);
    } else if j < i {
        assert(s.jobs[j].id != s.jobs[i].id);
    }
    if k < l {
        assert(s.attempts[k].attempt_number < s.attempts[l].attempt_number);
    } else if l < k {
        assert(s.attempts[l].attempt_number < s.attempts[k].attempt_number);
    }
}

/// A succeeded or dead job is not claimable, now or ever.
pub proof fn law_terminal_jobs_are_never_claimable(j: JobRecord, status: JobStatus, now: Timestamp)
    requires
        j.is(status),
        status.terminal(),
    ensures
        !j.claimable(now),
        !j.expired(now),
{
    lemma_status_texts();
}

/// A claim takes only claimable jobs, takes none of them twice and takes at most `limit`. A
/// claimable job is passed over only if `limit` jobs came before it.
pub proof fn law_claim_takes_the_first_due_jobs(
    s: QueueState,
    order: Seq<int>,
    limit: int,
    now: Timestamp,
)
    requires
        is_claim_order(s.jobs, now, order),
        0 <= limit,
    ensures
        at_most(order, limit).len() <= limit,
        at_most(order, limit).no_duplicates(),
        forall|p: int|
            #![trigger at_most(order, limit)[p]]
            0 <= p < at_most(order, limit).len() ==> 0 <= at_most(order, limit)[p] < s.jobs.len()
                && s.jobs[at_most(order, limit)[p]].claimable(now),
        forall|i: int, p: int|
            #![trigger s.jobs[i], at_most(order, limit)[p]]
            0 <= i < s.jobs.len() && s.jobs[i].claimable(now) && !at_most(order, limit).contains(i)
                && 0 <= p < at_most(order, limit).len() ==> at_most(order, limit).len() == limit
                && precedes(claim_keys(s.jobs, now), at_most(order, limit)[p], i),
        at_most(order, limit).len() < limit ==> forall|i: int|
            0 <= i < s.jobs.len() && (#[trigger] s.jobs[i]).claimable(now) ==> at_most(
                order,
                limit,
            ).contains(i),
{
    lemma_chosen(s, now, order, limit);
    let chosen = at_most(order, limit);
    let keys = claim_keys(s.jobs, now);
    assert forall|i: int|
        0 <= i < s.jobs.len() && (#[trigger] s.jobs[i]).claimable(now) implies order.contains(
        i,
    ) by {
        assert(keys[i] is Some);
    }
    assert forall|i: int, p: int|
        #![trigger s.jobs[i], chosen[p]]
        0 <= i < s.jobs.len() && s.jobs[i].claimable(now) && !chosen.contains(i) && 0 <= p
            < chosen.len() implies chosen.len() == limit && precedes(keys, chosen[p], i) by {
        let q = order.index_of(i);
        assert(order[q] == i);
        assert(limit < order.len());
        if q < limit {
            assert(chosen[q] == i);
        }
        assert(order[p] == chosen[p]);
    }
}

/// A claim leaves alone every job that it neither takes nor gives up.
pub proof fn law_claim_leaves_other_jobs_alone(
    s: QueueState,
    order: Seq<int>,
    limit: int,
    terms: ClaimTerms,
    i: int,
)
    requires
        is_claim_order(s.jobs, terms.now, order),
        0 <= limit,
        0 <= i < s.jobs.len(),
        !s.jobs[i].claimable(terms.now),
        !(s.jobs[i].expired(terms.now) && s.jobs[i].exhausted()),
    ensures
        s.after_claim(at_most(order, limit), terms).jobs[i] == s.jobs[i],
{
    lemma_chosen(s, terms.now, order, limit);
    let chosen = at_most(order, limit);
    if chosen.contains(i) {
        let p = chosen.index_of(i);
        assert(s.jobs[chosen[p]].claimable(terms.now));
    }
}

/// Until its lease runs out, nobody else can claim a claimed job.
pub proof fn law_no_double_claim(
    s: QueueState,
    chosen: Seq<int>,
    terms: ClaimTerms,
    i: int,
    later: Timestamp,
)
    requires
        0 <= i < s.jobs.len(),
        chosen.contains(i),
        later.before(terms.lease_end),
    ensures
        !s.after_claim(chosen, terms).jobs[i].claimable(later),
{
    lemma_status_texts();
}

/// Of two claims, the second made before the leases of the first run out, no job is in both.
pub proof fn law_claims_share_no_job(
    s: QueueState,
    order: Seq<int>,
    first_limit: int,
    terms: ClaimTerms,
    later: Timestamp,
    rest: Seq<int>,
    second_limit: int,
)
    requires
        is_claim_order(s.jobs, terms.now, order),
        0 <= first_limit,
        is_claim_order(s.after_claim(at_most(order, first_limit), terms).jobs, later, rest),
        0 <= second_limit,
        later.before(terms.lease_end),
    ensures
        forall|i: int|
            at_most(order, first_limit).contains(i) ==> !#[trigger] at_most(
                rest,
                second_limit,
            ).contains(i),
        s.ids_distinct() ==> forall|p: int, q: int|
            0 <= p < at_most(order, first_limit).len() && 0 <= q < at_most(rest, second_limit).len()
                ==> s.jobs[#[trigger] at_most(order, first_limit)[p]].id
                != s.jobs[#[trigger] at_most(rest, second_limit)[q]].id,
{
    let first = at_most(order, first_limit);
    let t = s.after_claim(first, terms);
    let second = at_most(rest, second_limit);
    lemma_chosen(s, terms.now, order, first_limit);
    lemma_chosen(t, later, rest, second_limit);
    assert forall|i: int| first.contains(i) implies !#[trigger] second.contains(i) by {
        if second.contains(i) {
            let p = first.index_of(i);
            assert(first[p] == i);
            law_no_double_claim(s, first, terms, i, later);
            let q = second.index_of(i);
            assert(second[q] == i);
        }
    }
    if s.ids_distinct() {
        assert forall|p: int, q: int|
            0 <= p < first.len() && 0 <= q < second.len() implies s.jobs[#[trigger] first[p]].id
            != s.jobs[#[trigger] second[q]].id by {
            let i = first[p];
            let k = second[q];
            assert(first.contains(i));
            assert(second.contains(k));
            assert(i != k);
            if i < k {
                assert(s.jobs[i].id != s.jobs[k].id);
            } else {
                assert(s.jobs[k].id != s.jobs[i].id);
            }
        }
    }
}

/// Two claims at one time share out the claimable jobs: together they take what a single claim with both
/// limits would take, in the same order. So none is left while the limits allow, and of two claims for
/// one job only the first gets it.
pub proof fn law_claims_share_out_the_due_jobs(
    s: QueueState,
    order: Seq<int>,
    first_limit: int,
    terms: ClaimTerms,
    rest: Seq<int>,
    second_limit: int,
)
    requires
        is_claim_order(s.jobs, terms.now, order),
        0 <= first_limit,
        is_claim_order(s.after_claim(at_most(order, first_limit), terms).jobs, terms.now, rest),
        0 <= second_limit,
        terms.now.before(terms.lease_end),
    ensures
        at_most(order, first_limit) + at_most(rest, second_limit) == at_most(
            order,
            first_limit + second_limit,
        ),
        order.len() <= first_limit + second_limit ==> at_most(order, first_limit).len() + at_most(
            rest,
            second_limit,
        ).len() == order.len(),
{
    let first = at_most(order, first_limit);
    let n = first.len() as int;
    let t = s.after_claim(first, terms);
    let now = terms.now;
    let keys = claim_keys(s.jobs, now);
    let left = claim_keys(t.jobs, now);
    let tail = order.skip(n);
    lemma_status_texts();
    lemma_chosen(s, now, order, first_limit);
    lemma_order_distinct(keys, order);
    assert forall|i: int| 0 <= i < s.jobs.len() && !first.contains(i) implies #[trigger] left[i]
        == keys[i] by {
        assert(t.jobs[i] == s.jobs[i].given_up(now));
    }
    assert forall|p: int| 0 <= p < tail.len() implies 0 <= #[trigger] tail[p] < left.len()
        && left[tail[p]] is Some && !first.contains(tail[p]) by {
        let i = order[n + p];
        if first.contains(i) {
            let q = first.index_of(i);
            assert(order[q] == order[n + p]);
        }
    }
    assert forall|i: int| 0 <= i < left.len() && left[i] is Some implies #[trigger] tail.contains(
        i,
    ) by {
        if first.contains(i) {
            law_no_double_claim(s, first, terms, i, now);
        }
        assert(keys[i] is Some);
        assert(order.contains(i));
        let q = order.index_of(i);
        assert(order[q] == i);
        if q < n {
            assert(first[q] == i);
        }
        assert(tail[q - n] == i);
    }
    assert forall|p: int, q: int| 0 <= p < q < tail.len() implies precedes(
        left,
        #[trigger] tail[p],
        #[trigger] tail[q],
    ) by {
        assert(precedes(keys, order[n + p], order[n + q]));
        assert(!first.contains(tail[p]) && !first.contains(tail[q]));
    }
    lemma_order_unique(left, tail, rest);
    assert(first + at_most(rest, second_limit) =~= at_most(order, first_limit + second_limit));
}

/// Whoever does not hold the lease changes nothing.
pub proof fn law_stale_token_changes_nothing(
    s: QueueState,
    id: u128,
    token: u128,
    next: Timestamp,
    scheduled_delay_ms: i64,
    error_code: Seq<char>,
    error_message: Seq<char>,
    duration_ms: i64,
    lease_end: Timestamp,
    now: Timestamp,
)
    requires
        !s.lease_held(id, token),
    ensures
        s.after_success(id, token, duration_ms, now) == s,
        s.after_reschedule(
            id,
            token,
            next,
            scheduled_delay_ms,
            error_code,
            error_message,
            duration_ms,
            now,
        ) == s,
        s.after_death(id, token, error_code, error_message, duration_ms, now) == s,
        s.after_renewal(id, token, lease_end, now) == s,
{
    assert(s.after_renewal(id, token, lease_end, now).jobs =~= s.jobs);
}

/// Once a job has been taken over, its former holder does not hold the lease any more.
pub proof fn law_reclaim_fences_the_former_holder(
    s: QueueState,
    order: Seq<int>,
    limit: int,
    terms: ClaimTerms,
    i: int,
    former: u128,
)
    requires
        s.sound(),
        is_claim_order(s.jobs, terms.now, order),
        0 <= limit,
        s.unused_tokens(terms, at_most(order, limit).len() as int),
        at_most(order, limit).contains(i),
        s.jobs[i].lease_token == Some(former),
    ensures
        !s.after_claim(at_most(order, limit), terms).lease_held(s.jobs[i].id, former),
{
    lemma_status_texts();
    lemma_chosen(s, terms.now, order, limit);
    let chosen = at_most(order, limit);
    let t = s.after_claim(chosen, terms);
    let p = chosen.index_of(i);
    assert(chosen[p] == i);
    assert(s.jobs[i].coherent());
    assert(s.is_run(s.jobs[i]));
    let k = choose|k: int| 0 <= k < s.attempts.len() && s.jobs[i].runs(#[trigger] s.attempts[k]);
    assert(s.attempts[k].lease_token != Some(terms.fresh[p].lease_token));
    assert forall|n: int| 0 <= n < t.jobs.len() implies !(#[trigger] t.jobs[n]).leased_to(
        s.jobs[i].id,
        former,
    ) by {
        assert(t.jobs[n].id == s.jobs[n].id);
        if n < i {
            assert(s.jobs[n].id != s.jobs[i].id);
        } else if i < n {
            assert(s.jobs[i].id != s.jobs[n].id);
        }
    }
}

/// An attempt is ended once: after that its token holds no lease.
pub proof fn law_attempts_end_once(
    s: QueueState,
    id: u128,
    token: u128,
    next: Timestamp,
    scheduled_delay_ms: i64,
    error_code: Seq<char>,
    error_message: Seq<char>,
    duration_ms: i64,
    now: Timestamp,
)
    ensures
        !s.after_success(id, token, duration_ms, now).lease_held(id, token),
        !s.after_reschedule(
            id,
            token,
            next,
            scheduled_delay_ms,
            error_code,
            error_message,
            duration_ms,
            now,
        ).lease_held(id, token),
        !s.after_death(id, token, error_code, error_message, duration_ms, now).lease_held(
            id,
            token,
        ),
{
    let a = s.after_success(id, token, duration_ms, now);
    let b = s.after_reschedule(
        id,
        token,
        next,
        scheduled_delay_ms,
        error_code,
        error_message,
        duration_ms,
        now,
    );
    let c = s.after_death(id, token, error_code, error_message, duration_ms, now);
    assert forall|i: int| 0 <= i < s.jobs.len() implies !(#[trigger] a.jobs[i]).leased_to(id, token)
        && !(#[trigger] b.jobs[i]).leased_to(id, token) && !(#[trigger] c.jobs[i]).leased_to(
        id,
        token,
    ) by {
        assert(s.jobs[i].leased_to(id, token) || !s.jobs[i].leased_to(id, token));
    }
}

/// After a claim no job is left running with neither a lease nor an attempt.
pub proof fn law_no_job_is_stranded(
    s: QueueState,
    order: Seq<int>,
    limit: int,
    terms: ClaimTerms,
    i: int,
)
    requires
        is_claim_order(s.jobs, terms.now, order),
        0 <= limit,
        terms.now.before(terms.lease_end),
        0 <= i < s.jobs.len(),
    ensures
        ({
            let job = s.after_claim(at_most(order, limit), terms).jobs[i];
            !(job.expired(terms.now) && job.exhausted())
        }),
        s.jobs[i].expired(terms.now) && s.jobs[i].exhausted() ==> s.after_claim(
            at_most(order, limit),
            terms,
        ).jobs[i].is(JobStatus::Dead),
{
    lemma_status_texts();
    lemma_chosen(s, terms.now, order, limit);
    let chosen = at_most(order, limit);
    if chosen.contains(i) {
        let p = chosen.index_of(i);
        assert(s.jobs[chosen[p]].claimable(terms.now));
    }
}

/// No unfinished job is lost: a pending one that has an attempt left can be claimed once its time has
/// come, and a running one, once its lease has run out, can be claimed or is given up by the next
/// claim.
pub proof fn law_unfinished_jobs_go_on(j: JobRecord, at: Timestamp)
    requires
        j.coherent(),
        !JobStatus::of_text(j.status)->0.terminal(),
    ensures
        j.is(JobStatus::Pending) && !j.exhausted() && !at.before(j.next_attempt_at) ==> j.claimable(at),
        j.is(JobStatus::Running) && !at.before(j.lease_expires_at->0) ==> j.claimable(at)
            || j.given_up(at).is(JobStatus::Dead),
        j.is(JobStatus::Pending) || j.is(JobStatus::Running),
{
}

/// After a claim no attempt is left open under a lease that has run out.
pub proof fn law_claim_closes_lost_attempts(
    s: QueueState,
    order: Seq<int>,
    limit: int,
    terms: ClaimTerms,
    i: int,
    k: int,
)
    requires
        s.sound(),
        is_claim_order(s.jobs, terms.now, order),
        0 <= limit,
        terms.now.before(terms.lease_end),
        0 <= i < s.jobs.len(),
        0 <= k < s.after_claim(at_most(order, limit), terms).attempts.len(),
        s.jobs[i].id == s.after_claim(at_most(order, limit), terms).attempts[k].job_id,
        s.after_claim(at_most(order, limit), terms).jobs[i].expired(terms.now),
    ensures
        !s.after_claim(at_most(order, limit), terms).attempts[k].open_attempt(),
{
    lemma_status_texts();
    lemma_chosen(s, terms.now, order, limit);
    let chosen = at_most(order, limit);
    let t = s.after_claim(chosen, terms);
    // The job was passed over: its lease had run out before.
    assert(!chosen.contains(i));
    assert(t.jobs[i] == s.jobs[i]);
    if k < s.attempts.len() {
        assert(s.lease_ran_out(s.attempts[k].job_id, terms.now));
    } else {
        let p = k - s.attempts.len();
        assert(t.attempts[k] == s.new_attempt(chosen, terms, p));
        let n = chosen[p];
        if n < i {
            assert(s.jobs[n].id != s.jobs[i].id);
        } else if i < n {
            assert(s.jobs[i].id != s.jobs[n].id);
        }
        assert(chosen.contains(i));
    }
}

/// A dead job comes back only by an operator's request: claims, endings and renewals leave it as it
/// is.
pub proof fn law_dead_jobs_stay_dead(
    s: QueueState,
    i: int,
    order: Seq<int>,
    limit: int,
    terms: ClaimTerms,
    id: u128,
    token: u128,
    job: spec_fn(JobRecord) -> JobRecord,
    attempt: spec_fn(AttemptRecord) -> AttemptRecord,
)
    requires
        is_claim_order(s.jobs, terms.now, order),
        0 <= limit,
        0 <= i < s.jobs.len(),
        s.jobs[i].is(JobStatus::Dead),
    ensures
        s.after_claim(at_most(order, limit), terms).jobs[i] == s.jobs[i],
        s.finalized(id, token, job, attempt).jobs[i] == s.jobs[i],
        s.after_renewal(id, token, terms.lease_end, terms.now).jobs[i] == s.jobs[i],
{
    lemma_status_texts();
    law_terminal_jobs_are_never_claimable(s.jobs[i], JobStatus::Dead, terms.now);
    law_claim_leaves_other_jobs_alone(s, order, limit, terms, i);
}

/// Bringing a dead job back touches no other job and no attempt, and keeps its identity, its
/// contents and its count of attempts.
pub proof fn law_revival_keeps_identity_and_history(
    s: QueueState,
    id: u128,
    max_attempts: i32,
    now: Timestamp,
    i: int,
)
    requires
        0 <= i < s.jobs.len(),
    ensures
        s.after_revival(id, max_attempts, now).attempts == s.attempts,
        ({
            let before = s.jobs[i];
            let after = s.after_revival(id, max_attempts, now).jobs[i];
            &&& !before.is_dead(id) ==> after == before
            &&& before.is_dead(id) ==> after.is(JobStatus::Pending)
            &&& after.id == before.id
            &&& after.kind == before.kind
            &&& after.payload == before.payload
            &&& after.attempts == before.attempts
            &&& after.created_at == before.created_at
            &&& after.started_at == before.started_at
        }),
{
}

/// A job put back without delay can be claimed at once, as long as it has an attempt left.
pub proof fn law_retry_without_delay_is_due_at_once(
    j: JobRecord,
    error_code: Seq<char>,
    error_message: Seq<char>,
    now: Timestamp,
)
    requires
        !j.exhausted(),
        now.nanos < 1_000_000_000,
    ensures
        now.later(0) == Some(now),
        j.rescheduled(now, error_code, error_message, now).claimable(now),
{
}

/// A success, a scheduled retry and a death stay on record as they were written.
pub proof fn law_recorded_endings_are_final(
    s: QueueState,
    chosen: Seq<int>,
    terms: ClaimTerms,
    id: u128,
    token: u128,
    job: spec_fn(JobRecord) -> JobRecord,
    attempt: spec_fn(AttemptRecord) -> AttemptRecord,
    k: int,
)
    requires
        s.sound(),
        0 <= k < s.attempts.len(),
        s.attempts[k].outcome is Some,
        s.attempts[k].outcome != Some(AttemptOutcome::LeaseLost.db_text()),
    ensures
        s.after_claim(chosen, terms).attempts[k] == s.attempts[k],
        s.finalized(id, token, job, attempt).attempts[k] == s.attempts[k],
{
    law_outcome_texts_distinct(AttemptOutcome::LeaseLost, AttemptOutcome::Succeeded);
    if s.lease_held(id, token) {
        let (_, held) = lemma_lease(s, id, token);
        assert(k != held);
        assert(!s.attempts[k].under_lease(id, token));
    }
}

/// A claim only adds to the history: every attempt keeps its place, and what it was begun with.
pub proof fn law_history_is_append_only(s: QueueState, chosen: Seq<int>, terms: ClaimTerms, k: int)
    requires
        0 <= k < s.attempts.len(),
    ensures
        s.after_claim(chosen, terms).attempts.len() == s.attempts.len() + chosen.len(),
        ({
            let before = s.attempts[k];
            let after = s.after_claim(chosen, terms).attempts[k];
            &&& after.id == before.id
            &&& after.job_id == before.job_id
            &&& after.attempt_number == before.attempt_number
            &&& after.worker_id == before.worker_id
            &&& after.lease_token == before.lease_token
            &&& after.started_at == before.started_at
            &&& !before.open_attempt() ==> after == before
        }),
{
}

/// Pages neither skip nor repeat a job: the listing after the job at `order[p]` is what follows it in
/// the listing in which it stands.
pub proof fn law_pages_cover_the_listing(
    jobs: Seq<JobRecord>,
    status: Option<JobStatus>,
    after: Option<(Timestamp, u128)>,
    order: Seq<int>,
    rest: Seq<int>,
    p: int,
)
    requires
        forall|i: int, k: int|
            0 <= i < k < jobs.len() ==> (#[trigger] jobs[i]).id != (#[trigger] jobs[k]).id,
        is_order(listed_keys(jobs, status, after), order),
        0 <= p < order.len(),
        is_order(
            listed_keys(jobs, status, Some((jobs[order[p]].created_at, jobs[order[p]].id))),
            rest,
        ),
    ensures
        rest == order.skip(p + 1),
{
    let all = listed_keys(jobs, status, after);
    let last = jobs[order[p]];
    let keys = listed_keys(jobs, status, Some((last.created_at, last.id)));
    let tail = order.skip(p + 1);
    assert forall|i: int| 0 <= i < keys.len() && keys[i] is Some implies #[trigger] tail.contains(
        i,
    ) by {
        assert(all[i] is Some);
        assert(order.contains(i));
        let q = choose|q: int| 0 <= q < order.len() && order[q] == i;
        if q < p {
            assert(precedes(all, order[q], order[p]));
        }
        assert(tail[q - p - 1] == i);
    }
    assert forall|q: int| 0 <= q < tail.len() implies 0 <= #[trigger] tail[q] < keys.len()
        && keys[tail[q]] is Some by {
        let i = order[p + 1 + q];
        assert(precedes(all, order[p], order[p + 1 + q]));
        assert(jobs[i].id != last.id) by {
            assert(i != order[p]);
            if i < order[p] {
                assert(jobs[i].id != jobs[order[p]].id);
            } else {
                assert(jobs[order[p]].id != jobs[i].id);
            }
        }
    }
    assert forall|q: int, r: int| 0 <= q < r < tail.len() implies precedes(
        keys,
        #[trigger] tail[q],
        #[trigger] tail[r],
    ) by {
        assert(precedes(all, order[p + 1 + q], order[p + 1 + r]));
        assert(keys[tail[q]] is Some && keys[tail[r]] is Some);
    }
    lemma_order_unique(keys, tail, rest);
}

} // verus!
