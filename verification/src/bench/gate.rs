//! The correctness gate: whatever a run measured, it counts only if the stored state obeys the rules.

use crate::domain::JobStatus;
use crate::idempotency::{charge_idempotency_key, charge_key};
use crate::text::{decimal, decimal_text, join2, join3, same_text};
use vstd::prelude::*;

verus! {

// ---------------------------------------------------------------------------------------------
// Results
// ---------------------------------------------------------------------------------------------

#[derive(Debug, Clone, Copy, PartialEq, Eq, Structural)]
pub enum CheckValue {
    Flag(bool),
    Number(u64),
}

/// One thing that was looked at.
#[derive(Debug, Clone, Copy)]
pub struct Check {
    pub name: &'static str,
    pub value: CheckValue,
}

#[derive(Debug)]
pub struct CorrectnessResults {
    pub passed: bool,
    /// `None` until the run is judged.
    pub checks: Option<Vec<Check>>,
    pub failures: Vec<String>,
}

/// What some checks say.
pub open spec fn check_texts(checks: Seq<Check>) -> Seq<(Seq<char>, CheckValue)> {
    checks.map_values(|c: Check| (c.name@, c.value))
}

pub open spec fn texts(v: Seq<String>) -> Seq<Seq<char>> {
    v.map_values(|s: String| s@)
}

/// The value, if the condition holds.
pub open spec fn only_if<A>(condition: bool, value: A) -> Seq<A> {
    if condition {
        seq![value]
    } else {
        seq![]
    }
}

pub open spec fn flag(name: Seq<char>, holds: bool) -> (Seq<char>, CheckValue) {
    (name, CheckValue::Flag(holds))
}

impl CorrectnessResults {
    /// What the checks say, if any were made.
    pub open spec fn check_texts(self) -> Option<Seq<(Seq<char>, CheckValue)>> {
        match self.checks {
            Some(checks) => Some(check_texts(checks@)),
            None => None,
        }
    }

    /// This is the verdict on `input`.
    pub open spec fn is_verdict_on(self, input: GateInput) -> bool {
        &&& self.check_texts() == Some(input.checks())
        &&& texts(self.failures@) == input.failures()
        &&& self.passed == (input.failures().len() == 0)
    }

}

/// What has been found so far of a run that is being judged.
struct Findings {
    passed: bool,
    checks: Vec<Check>,
    failures: Vec<String>,
}

impl Findings {
    fn new() -> (r: Findings)
        ensures
            r.passed,
            check_texts(r.checks@) == Seq::<(Seq<char>, CheckValue)>::empty(),
            texts(r.failures@) == Seq::<Seq<char>>::empty(),
    {
        let r = Findings { passed: true, checks: Vec::new(), failures: Vec::new() };
        assert(check_texts(r.checks@) =~= Seq::<(Seq<char>, CheckValue)>::empty());
        assert(texts(r.failures@) =~= Seq::<Seq<char>>::empty());
        r
    }

    /// Puts a check on record, if it was made.
    fn note(&mut self, made: bool, name: &'static str, value: CheckValue)
        ensures
            check_texts(final(self).checks@) == check_texts(old(self).checks@) + only_if(
                made,
                (name@, value),
            ),
            final(self).failures == old(self).failures,
            final(self).passed == old(self).passed,
    {
        if made {
            self.checks.push(Check { name, value });
        }
        assert(check_texts(self.checks@) =~= check_texts(old(self).checks@) + only_if(
            made,
            (name@, value),
        ));
    }

    /// Puts a failure on record, if there is one.
    fn fail(&mut self, wrong: bool, reason: String)
        ensures
            texts(final(self).failures@) == texts(old(self).failures@) + only_if(wrong, reason@),
            final(self).checks == old(self).checks,
            final(self).passed == (old(self).passed && !wrong),
    {
        if wrong {
            self.failures.push(reason);
            self.passed = false;
        }
        assert(texts(self.failures@) =~= texts(old(self).failures@) + only_if(wrong, reason@));
    }

    fn results(self) -> (r: CorrectnessResults)
        ensures
            r.passed == self.passed,
            r.checks == Some(self.checks),
            r.failures == self.failures,
    {
        CorrectnessResults {
            passed: self.passed,
            checks: Some(self.checks),
            failures: self.failures,
        }
    }
}

// ---------------------------------------------------------------------------------------------
// Counting
// ---------------------------------------------------------------------------------------------

/// How many elements have a property.
pub open spec fn count<A>(s: Seq<A>, p: spec_fn(A) -> bool) -> nat
    decreases s.len(),
{
    if s.len() == 0 {
        0
    } else {
        count(s.drop_last(), p) + if p(s.last()) {
            1nat
        } else {
            0nat
        }
    }
}

/// How many different elements occur more than once.
pub open spec fn repeated<A>(s: Seq<A>) -> nat
    decreases s.len(),
{
    if s.len() == 0 {
        0
    } else {
        repeated(s.drop_last()) + if count(s.drop_last(), |x: A| x == s.last()) == 1 {
            1nat
        } else {
            0nat
        }
    }
}

/// Nothing is repeated if and only if all elements differ.
pub proof fn law_nothing_repeated_iff_all_differ<A>(s: Seq<A>)
    ensures
        repeated(s) == 0 <==> s.no_duplicates(),
    decreases s.len(),
{
    if s.len() > 0 {
        let rest = s.drop_last();
        let same = |x: A| x == s.last();
        law_nothing_repeated_iff_all_differ(rest);
        lemma_count_zero(rest, same);
        if s.no_duplicates() {
            assert(rest.no_duplicates());
            assert forall|i: int| 0 <= i < rest.len() implies !same(#[trigger] rest[i]) by {
                assert(s[i] != s[s.len() - 1]);
            }
        } else if rest.no_duplicates() {
            lemma_no_duplicates_count(rest, s.last());
            if count(rest, same) == 0 {
                assert forall|i: int, j: int| 0 <= i < s.len() && 0 <= j < s.len() && i
                    != j implies s[i] != s[j] by {
                    if i == s.len() - 1 {
                        assert(!same(rest[j]));
                    } else if j == s.len() - 1 {
                        assert(!same(rest[i]));
                    } else {
                        assert(rest[i] != rest[j]);
                    }
                }
            }
        }
    }
}

proof fn lemma_count_zero<A>(s: Seq<A>, p: spec_fn(A) -> bool)
    ensures
        count(s, p) == 0 <==> forall|i: int| 0 <= i < s.len() ==> !p(#[trigger] s[i]),
    decreases s.len(),
{
    if s.len() > 0 {
        let rest = s.drop_last();
        lemma_count_zero(rest, p);
        assert forall|i: int| 0 <= i < rest.len() implies s[i] == #[trigger] rest[i] by {}
        if count(s, p) == 0 {
            assert forall|i: int| 0 <= i < s.len() implies !p(#[trigger] s[i]) by {
                if i < rest.len() {
                    assert(!p(rest[i]));
                }
            }
        }
        if forall|i: int| 0 <= i < s.len() ==> !p(#[trigger] s[i]) {
            assert forall|i: int| 0 <= i < rest.len() implies !p(#[trigger] rest[i]) by {
                assert(!p(s[i]));
            }
        }
    }
}

proof fn lemma_no_duplicates_count<A>(s: Seq<A>, x: A)
    requires
        s.no_duplicates(),
    ensures
        count(s, |y: A| y == x) <= 1,
    decreases s.len(),
{
    if s.len() > 0 {
        let rest = s.drop_last();
        let same = |y: A| y == x;
        lemma_no_duplicates_count(rest, x);
        if s.last() == x {
            lemma_count_zero(rest, same);
            assert forall|i: int| 0 <= i < rest.len() implies !same(#[trigger] rest[i]) by {
                assert(s[i] != s[s.len() - 1]);
            }
        }
    }
}

/// How many different identifiers occur more than once.
pub fn count_repeated_ids(ids: &Vec<u128>) -> (n: usize)
    ensures
        n == repeated(ids@),
{
    let mut n: usize = 0;
    let mut i: usize = 0;
    while i < ids.len()
        invariant
            i <= ids.len(),
            n == repeated(ids@.take(i as int)),
            n <= i,
        decreases ids.len() - i,
    {
        let ghost before = ids@.take(i as int);
        let ghost same = |x: u128| x == ids@[i as int];
        let mut seen: usize = 0;
        let mut k: usize = 0;
        while k < i
            invariant
                k <= i < ids.len(),
                before == ids@.take(i as int),
                same == (|x: u128| x == ids@[i as int]),
                seen == count(before.take(k as int), same),
                seen <= k,
            decreases i - k,
        {
            assert(before.take(k + 1).drop_last() =~= before.take(k as int));
            if ids[k] == ids[i] {
                seen = seen + 1;
            }
            k = k + 1;
        }
        assert(before.take(k as int) =~= before);
        assert(ids@.take(i + 1).drop_last() =~= before);
        if seen == 1 {
            n = n + 1;
        }
        i = i + 1;
    }
    assert(ids@.take(i as int) =~= ids@);
    n
}

/// How many different texts occur more than once.
pub fn count_repeated_texts(v: &Vec<String>) -> (n: usize)
    ensures
        n == repeated(texts(v@)),
{
    let ghost all = texts(v@);
    let mut n: usize = 0;
    let mut i: usize = 0;
    while i < v.len()
        invariant
            i <= v.len(),
            all == texts(v@),
            n == repeated(all.take(i as int)),
            n <= i,
        decreases v.len() - i,
    {
        let ghost before = all.take(i as int);
        let ghost same = |x: Seq<char>| x == all[i as int];
        let mut seen: usize = 0;
        let mut k: usize = 0;
        while k < i
            invariant
                k <= i < v.len(),
                all == texts(v@),
                before == all.take(i as int),
                same == (|x: Seq<char>| x == all[i as int]),
                seen == count(before.take(k as int), same),
                seen <= k,
            decreases i - k,
        {
            assert(before.take(k + 1).drop_last() =~= before.take(k as int));
            assert(before.take(k + 1).last() == v@[k as int]@);
            if same_text(&v[k], &v[i]) {
                seen = seen + 1;
            }
            k = k + 1;
        }
        assert(before.take(k as int) =~= before);
        assert(all.take(i + 1).drop_last() =~= before);
        assert(all.take(i + 1).last() == all[i as int]);
        if seen == 1 {
            n = n + 1;
        }
        i = i + 1;
    }
    assert(all.take(i as int) =~= all);
    n
}

// ---------------------------------------------------------------------------------------------
// The verdict on a run
// ---------------------------------------------------------------------------------------------

/// A job that the run submitted, as it is found in the store afterwards.
#[derive(Debug)]
pub struct TrackedJob {
    pub id: u128,
    pub status: String,
    pub attempts: i32,
    pub max_attempts: i32,
}

/// Whether the longest latency fits into the time that the run took. Times on the wall clock do not,
/// if the machine slept in between.
#[derive(Debug)]
pub struct WindowCheck {
    pub within: bool,
    /// The longest latency in whole milliseconds, in words.
    pub max_sample: String,
    /// The longest latency allowed in whole milliseconds, in words.
    pub threshold: String,
}

/// What the verdict on a run rests on.
#[derive(Debug)]
pub struct GateInput {
    /// How many jobs the run submitted.
    pub submitted: usize,
    /// Those of them that were found.
    pub found: Vec<TrackedJob>,
    /// The run went on until all jobs were finished.
    pub expect_all_terminal: bool,
    /// The idempotency keys of the charges made for these jobs, one for each charge.
    pub charge_keys: Vec<String>,
    /// The jobs of the attempts that succeeded, one for each attempt.
    pub succeeded_jobs: Vec<u128>,
    /// How many jobs the workers could handle at once, if there were any.
    pub worker_capacity: Option<u64>,
    pub observed_peak_inflight: Option<u64>,
    /// `None` if no latency was measured.
    pub window: Option<WindowCheck>,
}

/// The keys under which the charges of some jobs are recorded.
pub fn tracked_keys(ids: &Vec<u128>) -> (keys: Vec<String>)
    ensures
        texts(keys@) == ids@.map_values(|id: u128| charge_key(id)),
{
    let mut keys: Vec<String> = Vec::new();
    let mut i: usize = 0;
    while i < ids.len()
        invariant
            i <= ids.len(),
            keys.len() == i,
            forall|k: int| 0 <= k < i ==> (#[trigger] keys@[k])@ == charge_key(ids@[k]),
        decreases ids.len() - i,
    {
        keys.push(charge_idempotency_key(ids[i]));
        i = i + 1;
    }
    assert(texts(keys@) =~= ids@.map_values(|id: u128| charge_key(id)));
    keys
}

impl TrackedJob {
    pub open spec fn finished(self) -> bool {
        self.status@ == JobStatus::Succeeded.db_text() || self.status@ == JobStatus::Dead.db_text()
    }

    pub open spec fn over_budget(self) -> bool {
        self.attempts > self.max_attempts
    }
}

impl GateInput {
    pub open spec fn all_found(self) -> bool {
        self.found@.len() == self.submitted
    }

    pub open spec fn unfinished(self) -> nat {
        count(self.found@, |j: TrackedJob| !j.finished())
    }

    pub open spec fn over_budget(self) -> nat {
        count(self.found@, |j: TrackedJob| j.over_budget())
    }

    pub open spec fn duplicate_keys(self) -> nat {
        repeated(texts(self.charge_keys@))
    }

    pub open spec fn multiple_successes(self) -> nat {
        repeated(self.succeeded_jobs@)
    }

    pub open spec fn capacity_known(self) -> bool {
        self.worker_capacity is Some && self.observed_peak_inflight is Some
    }

    pub open spec fn over_capacity(self) -> bool {
        self.capacity_known() && self.observed_peak_inflight->0 > self.worker_capacity->0
    }

    pub open spec fn outside_window(self) -> bool {
        self.window matches Some(w) && !w.within
    }

    /// The things looked at, with what was found.
    pub open spec fn checks(self) -> Seq<(Seq<char>, CheckValue)> {
        seq![flag("all_tracked_jobs_found"@, self.all_found())] + only_if(
            self.expect_all_terminal,
            flag("all_tracked_jobs_terminal"@, self.unfinished() == 0),
        ) + seq![flag("no_job_over_attempt_budget"@, self.over_budget() == 0)] + seq![
            flag("at_most_one_charge_per_idempotency_key"@, self.duplicate_keys() == 0),
        ] + seq![
            flag("no_job_finalized_successful_more_than_once"@, self.multiple_successes() == 0),
        ] + only_if(
            self.capacity_known(),
            flag("peak_inflight_within_capacity"@, !self.over_capacity()),
        ) + only_if(
            self.capacity_known(),
            ("observed_peak_inflight"@, CheckValue::Number(self.observed_peak_inflight->0)),
        ) + only_if(
            self.capacity_known(),
            ("configured_capacity"@, CheckValue::Number(self.worker_capacity->0)),
        ) + only_if(
            self.window is Some,
            flag("latency_samples_within_measurement_window"@, !self.outside_window()),
        )
    }

    /// What is wrong.
    pub open spec fn failures(self) -> Seq<Seq<char>> {
        only_if(
            !self.all_found(),
            "expected "@ + decimal(self.submitted as nat) + " tracked jobs, found "@ + decimal(
                self.found@.len(),
            ) + " in the database"@,
        ) + only_if(
            self.expect_all_terminal && self.unfinished() > 0,
            decimal(self.unfinished()) + " tracked jobs are still PENDING/RUNNING, expected 0"@,
        ) + only_if(
            self.over_budget() > 0,
            decimal(self.over_budget()) + " jobs exceeded their attempt budget"@,
        ) + only_if(
            self.duplicate_keys() > 0,
            decimal(self.duplicate_keys()) + " idempotency keys back more than one charge row"@,
        ) + only_if(
            self.multiple_successes() > 0,
            decimal(self.multiple_successes()) + " jobs have more than one SUCCEEDED attempt row (a stale/reclaimed owner may have finalized after losing its lease)"@,
        ) + only_if(
            self.over_capacity(),
            "observed peak_inflight "@ + decimal(self.observed_peak_inflight->0 as nat)
                + " exceeded configured capacity "@ + decimal(self.worker_capacity->0 as nat),
        ) + only_if(
            self.outside_window(),
            "a latency sample of "@ + self.window->0.max_sample@
                + "ms far exceeds this run's own measurement window ("@
                + self.window->0.threshold@ + "ms threshold) — likely the host slept/woke mid-run, corrupting wall-clock (not monotonic) timestamps"@,
        )
    }
}

/// Judges a run. It passes if and only if nothing is wrong.
pub fn run_gate(input: &GateInput) -> (r: CorrectnessResults)
    ensures
        r.is_verdict_on(*input),
{
    let mut r = Findings::new();

    let all_found = input.found.len() == input.submitted;
    r.note(true, "all_tracked_jobs_found", CheckValue::Flag(all_found));
    r.fail(
        !all_found,
        join3(
            &join3("expected ", &decimal_text(input.submitted as u64), " tracked jobs, found "),
            &decimal_text(input.found.len() as u64),
            " in the database",
        ),
    );

    let (unfinished, over_budget) = tally_jobs(&input.found);
    r.note(
        input.expect_all_terminal,
        "all_tracked_jobs_terminal",
        CheckValue::Flag(unfinished == 0),
    );
    r.fail(
        input.expect_all_terminal && unfinished > 0,
        join2(
            &decimal_text(unfinished as u64),
            " tracked jobs are still PENDING/RUNNING, expected 0",
        ),
    );
    r.note(true, "no_job_over_attempt_budget", CheckValue::Flag(over_budget == 0));
    r.fail(
        over_budget > 0,
        join2(&decimal_text(over_budget as u64), " jobs exceeded their attempt budget"),
    );

    let duplicate_keys: usize = count_repeated_texts(&input.charge_keys);
    r.note(
        true,
        "at_most_one_charge_per_idempotency_key",
        CheckValue::Flag(duplicate_keys == 0),
    );
    r.fail(
        duplicate_keys > 0,
        join2(
            &decimal_text(duplicate_keys as u64),
            " idempotency keys back more than one charge row",
        ),
    );

    let multiple: usize = count_repeated_ids(&input.succeeded_jobs);
    r.note(true, "no_job_finalized_successful_more_than_once", CheckValue::Flag(multiple == 0));
    r.fail(
        multiple > 0,
        join2(
            &decimal_text(multiple as u64),
            " jobs have more than one SUCCEEDED attempt row (a stale/reclaimed owner may have finalized after losing its lease)",
        ),
    );

    let (known, capacity, peak) = match (input.worker_capacity, input.observed_peak_inflight) {
        (Some(capacity), Some(peak)) => (true, capacity, peak),
        _ => (false, 0, 0),
    };
    r.note(known, "peak_inflight_within_capacity", CheckValue::Flag(peak <= capacity));
    r.note(known, "observed_peak_inflight", CheckValue::Number(peak));
    r.note(known, "configured_capacity", CheckValue::Number(capacity));
    r.fail(
        known && peak > capacity,
        join2(
            &join3(
                "observed peak_inflight ",
                &decimal_text(peak),
                " exceeded configured capacity ",
            ),
            &decimal_text(capacity),
        ),
    );

    if let Some(window) = &input.window {
        r.note(
            true,
            "latency_samples_within_measurement_window",
            CheckValue::Flag(window.within),
        );
        r.fail(
            !window.within,
            join3(
                &join3(
                    "a latency sample of ",
                    &window.max_sample,
                    "ms far exceeds this run's own measurement window (",
                ),
                &window.threshold,
                "ms threshold) — likely the host slept/woke mid-run, corrupting wall-clock (not monotonic) timestamps",
            ),
        );
    }
    assert(check_texts(r.checks@) =~= input.checks());
    assert(texts(r.failures@) =~= input.failures());
    r.results()
}

/// How many jobs are not finished, and how many have had too many attempts.
fn tally_jobs(found: &Vec<TrackedJob>) -> (r: (usize, usize))
    ensures
        r.0 == count(found@, |j: TrackedJob| !j.finished()),
        r.1 == count(found@, |j: TrackedJob| j.over_budget()),
{
    let ghost unfinished_of = |j: TrackedJob| !j.finished();
    let ghost over_of = |j: TrackedJob| j.over_budget();
    let mut unfinished: usize = 0;
    let mut over: usize = 0;
    let mut i: usize = 0;
    while i < found.len()
        invariant
            i <= found.len(),
            unfinished_of == (|j: TrackedJob| !j.finished()),
            over_of == (|j: TrackedJob| j.over_budget()),
            unfinished == count(found@.take(i as int), unfinished_of),
            over == count(found@.take(i as int), over_of),
            unfinished <= i,
            over <= i,
        decreases found.len() - i,
    {
        assert(found@.take(i + 1).drop_last() =~= found@.take(i as int));
        let job = &found[i];
        if !(same_text(&job.status, "SUCCEEDED") || same_text(&job.status, "DEAD")) {
            unfinished = unfinished + 1;
        }
        if job.attempts > job.max_attempts {
            over = over + 1;
        }
        i = i + 1;
    }
    assert(found@.take(i as int) =~= found@);
    (unfinished, over)
}

// ---------------------------------------------------------------------------------------------
// Contention for an idempotency key
// ---------------------------------------------------------------------------------------------

/// How requests that were made at once were answered.
#[derive(Debug, Clone, Copy, PartialEq, Eq, Structural)]
pub struct SharedKeyTally {
    /// Answered with 201: the charge was made.
    pub created: u32,
    /// Answered with 200: the charge had been made before.
    pub replayed: u32,
    /// Answered otherwise, or not at all.
    pub other: u32,
}

/// Counts the answers to requests that were made at once.
pub fn tally_shared(statuses: &Vec<u16>) -> (t: SharedKeyTally)
    requires
        statuses.len() <= u32::MAX,
    ensures
        t.created == count(statuses@, |s: u16| s == 201),
        t.replayed == count(statuses@, |s: u16| s == 200),
        t.other == count(statuses@, |s: u16| s != 200 && s != 201),
{
    let ghost is_created = |s: u16| s == 201;
    let ghost is_replayed = |s: u16| s == 200;
    let ghost is_other = |s: u16| s != 200 && s != 201;
    let mut t = SharedKeyTally { created: 0, replayed: 0, other: 0 };
    let mut i: usize = 0;
    while i < statuses.len()
        invariant
            i <= statuses.len() <= u32::MAX,
            is_created == (|s: u16| s == 201),
            is_replayed == (|s: u16| s == 200),
            is_other == (|s: u16| s != 200 && s != 201),
            t.created == count(statuses@.take(i as int), is_created),
            t.replayed == count(statuses@.take(i as int), is_replayed),
            t.other == count(statuses@.take(i as int), is_other),
            t.created <= i,
            t.replayed <= i,
            t.other <= i,
        decreases statuses.len() - i,
    {
        assert(statuses@.take(i + 1).drop_last() =~= statuses@.take(i as int));
        let status: u16 = statuses[i];
        if status == 201 {
            t.created = t.created + 1;
        } else if status == 200 {
            t.replayed = t.replayed + 1;
        } else {
            t.other = t.other + 1;
        }
        i = i + 1;
    }
    assert(statuses@.take(i as int) =~= statuses@);
    t
}

/// What was seen of the charge service under contention.
#[derive(Debug, Clone, Copy)]
pub struct IdempotencyObservations {
    /// How many requests were made at once.
    pub concurrency: u32,
    /// How many requests with keys of their own were answered with 201.
    pub unique_created: u32,
    /// Answers to two equal requests, one after the other, and the charges recorded.
    pub replay_first: u16,
    pub replay_second: u16,
    pub replay_charges: i64,
    /// Answers to equal requests at once, and the charges recorded.
    pub shared: SharedKeyTally,
    pub shared_charges: i64,
    /// Answers to two different requests under one key, and the charges recorded.
    pub conflict_first: u16,
    pub conflict_second: u16,
    pub conflict_charges: i64,
}

impl IdempotencyObservations {
    pub open spec fn unique_ok(self) -> bool {
        self.unique_created == self.concurrency
    }

    pub open spec fn replay_ok(self) -> bool {
        self.replay_first == 201 && self.replay_second == 200 && self.replay_charges == 1
    }

    pub open spec fn shared_ok(self) -> bool {
        self.shared_charges == 1 && self.shared.created == 1
    }

    pub open spec fn conflict_ok(self) -> bool {
        self.conflict_first == 201 && self.conflict_second == 409 && self.conflict_charges == 1
    }
}

impl CorrectnessResults {
    /// This is the verdict on what was seen of the charge service under contention.
    pub open spec fn is_idempotency_verdict_on(self, seen: IdempotencyObservations) -> bool {
        &&& self.passed == (seen.replay_ok() && seen.shared_ok() && seen.conflict_ok())
        &&& self.check_texts() == Some(
            seq![
                flag("unique_requests_all_created"@, seen.unique_ok()),
                flag("sequential_replay_returns_200_with_one_row"@, seen.replay_ok()),
                flag("concurrent_shared_key_creates_exactly_one_charge"@, seen.shared_ok()),
                flag("conflicting_payload_rejected_not_silently_succeeded"@, seen.conflict_ok()),
            ],
        )
        &&& texts(self.failures@) == only_if(
            !self.passed,
            "one or more idempotency invariants failed; see checks"@,
        )
    }
}

/// Judges a run of the idempotency scenario. Whether the unrelated requests all succeeded is reported,
/// and has no part in the verdict.
pub fn judge_idempotency(seen: &IdempotencyObservations) -> (r: CorrectnessResults)
    ensures
        r.is_idempotency_verdict_on(*seen),
{
    let replay_ok = seen.replay_first == 201 && seen.replay_second == 200 && seen.replay_charges
        == 1;
    let shared_ok = seen.shared_charges == 1 && seen.shared.created == 1;
    let conflict_ok = seen.conflict_first == 201 && seen.conflict_second == 409
        && seen.conflict_charges == 1;
    let mut r = Findings::new();
    r.note(
        true,
        "unique_requests_all_created",
        CheckValue::Flag(seen.unique_created == seen.concurrency),
    );
    r.note(true, "sequential_replay_returns_200_with_one_row", CheckValue::Flag(replay_ok));
    r.note(true, "concurrent_shared_key_creates_exactly_one_charge", CheckValue::Flag(shared_ok));
    r.note(true, "conflicting_payload_rejected_not_silently_succeeded", CheckValue::Flag(conflict_ok));
    r.fail(
        !(replay_ok && shared_ok && conflict_ok),
        "one or more idempotency invariants failed; see checks".to_string(),
    );
    assert(check_texts(r.checks@) =~= seq![
        flag("unique_requests_all_created"@, seen.unique_ok()),
        flag("sequential_replay_returns_200_with_one_row"@, seen.replay_ok()),
        flag("concurrent_shared_key_creates_exactly_one_charge"@, seen.shared_ok()),
        flag("conflicting_payload_rejected_not_silently_succeeded"@, seen.conflict_ok()),
    ]);
    assert(texts(r.failures@) =~= only_if(
        !r.passed,
        "one or more idempotency invariants failed; see checks"@,
    ));
    r.results()
}

/// What a run passes on: all jobs that were submitted are found; if they should all be finished, each
/// has succeeded or is dead; none was tried more often than allowed; no key was charged under twice; no
/// job succeeded twice; the requests in progress never exceeded the capacity, where both are known; and
/// no latency is longer than the run. On nothing else.
pub proof fn law_runs_pass_on_the_evidence(input: GateInput, r: CorrectnessResults)
    requires
        r.is_verdict_on(input),
    ensures
        r.passed <==> {
            &&& input.found@.len() == input.submitted
            &&& input.expect_all_terminal ==> forall|i: int|
                0 <= i < input.found@.len() ==> (#[trigger] input.found@[i]).status@
                    == "SUCCEEDED"@ || input.found@[i].status@ == "DEAD"@
            &&& forall|i: int|
                0 <= i < input.found@.len() ==> (#[trigger] input.found@[i]).attempts
                    <= input.found@[i].max_attempts
            &&& texts(input.charge_keys@).no_duplicates()
            &&& input.succeeded_jobs@.no_duplicates()
            &&& input.worker_capacity is Some && input.observed_peak_inflight is Some
                ==> input.observed_peak_inflight->0 <= input.worker_capacity->0
            &&& input.window matches Some(window) ==> window.within
        },
        r.passed <==> r.failures@.len() == 0,
        r.checks is Some,
{
    let open = |j: TrackedJob| !j.finished();
    let over = |j: TrackedJob| j.over_budget();
    lemma_count_zero(input.found@, open);
    lemma_count_zero(input.found@, over);
    if input.unfinished() == 0 {
        assert forall|i: int| 0 <= i < input.found@.len() implies (
        #[trigger] input.found@[i]).status@ == "SUCCEEDED"@ || input.found@[i].status@
            == "DEAD"@ by {
            assert(!open(input.found@[i]));
        }
    } else {
        let i = choose|i: int| 0 <= i < input.found@.len() && open(#[trigger] input.found@[i]);
        assert(input.found@[i].status@ != "SUCCEEDED"@);
    }
    if input.over_budget() == 0 {
        assert forall|i: int| 0 <= i < input.found@.len() implies (
        #[trigger] input.found@[i]).attempts <= input.found@[i].max_attempts by {
            assert(!over(input.found@[i]));
        }
    } else {
        let i = choose|i: int| 0 <= i < input.found@.len() && over(#[trigger] input.found@[i]);
        assert(input.found@[i].attempts > input.found@[i].max_attempts);
    }
    law_nothing_repeated_iff_all_differ(texts(input.charge_keys@));
    law_nothing_repeated_iff_all_differ(input.succeeded_jobs@);
    assert(texts(r.failures@).len() == r.failures@.len());
}

/// None of the checks says no.
pub open spec fn none_says_no(checks: Seq<(Seq<char>, CheckValue)>) -> bool {
    forall|i: int| 0 <= i < checks.len() ==> (#[trigger] checks[i]).1 != CheckValue::Flag(false)
}

proof fn lemma_none_says_no_in_either(
    a: Seq<(Seq<char>, CheckValue)>,
    b: Seq<(Seq<char>, CheckValue)>,
)
    ensures
        none_says_no(a + b) <==> none_says_no(a) && none_says_no(b),
{
    if none_says_no(a + b) {
        assert forall|i: int| 0 <= i < a.len() implies (#[trigger] a[i]).1
            != CheckValue::Flag(false) by {
            assert((a + b)[i] == a[i]);
        }
        assert forall|i: int| 0 <= i < b.len() implies (#[trigger] b[i]).1
            != CheckValue::Flag(false) by {
            assert((a + b)[a.len() + i] == b[i]);
        }
    }
}

proof fn lemma_single_check(made: bool, check: (Seq<char>, CheckValue))
    ensures
        none_says_no(only_if(made, check)) <==> (made ==> check.1 != CheckValue::Flag(false)),
        none_says_no(seq![check]) <==> check.1 != CheckValue::Flag(false),
{
    assert(seq![check][0] == check);
}

/// A run passes if and only if every check on record that says yes or no says yes.
pub proof fn law_runs_pass_if_every_check_does(input: GateInput, r: CorrectnessResults)
    requires
        r.is_verdict_on(input),
    ensures
        r.passed <==> none_says_no(r.check_texts()->0),
{
    let found = flag("all_tracked_jobs_found"@, input.all_found());
    let terminal = flag("all_tracked_jobs_terminal"@, input.unfinished() == 0);
    let budget = flag("no_job_over_attempt_budget"@, input.over_budget() == 0);
    let charges = flag("at_most_one_charge_per_idempotency_key"@, input.duplicate_keys() == 0);
    let successes = flag(
        "no_job_finalized_successful_more_than_once"@,
        input.multiple_successes() == 0,
    );
    let known = input.capacity_known();
    let peak = flag("peak_inflight_within_capacity"@, !input.over_capacity());
    let observed = (
        "observed_peak_inflight"@,
        CheckValue::Number(input.observed_peak_inflight->0),
    );
    let configured = ("configured_capacity"@, CheckValue::Number(input.worker_capacity->0));
    let window = flag("latency_samples_within_measurement_window"@, !input.outside_window());
    let c1 = seq![found] + only_if(input.expect_all_terminal, terminal);
    let c2 = c1 + seq![budget];
    let c3 = c2 + seq![charges];
    let c4 = c3 + seq![successes];
    let c5 = c4 + only_if(known, peak);
    let c6 = c5 + only_if(known, observed);
    let c7 = c6 + only_if(known, configured);
    assert(input.checks() == c7 + only_if(input.window is Some, window));
    lemma_single_check(true, found);
    lemma_single_check(input.expect_all_terminal, terminal);
    lemma_single_check(true, budget);
    lemma_single_check(true, charges);
    lemma_single_check(true, successes);
    lemma_single_check(known, peak);
    lemma_single_check(known, observed);
    lemma_single_check(known, configured);
    lemma_single_check(input.window is Some, window);
    lemma_none_says_no_in_either(seq![found], only_if(input.expect_all_terminal, terminal));
    lemma_none_says_no_in_either(c1, seq![budget]);
    lemma_none_says_no_in_either(c2, seq![charges]);
    lemma_none_says_no_in_either(c3, seq![successes]);
    lemma_none_says_no_in_either(c4, only_if(known, peak));
    lemma_none_says_no_in_either(c5, only_if(known, observed));
    lemma_none_says_no_in_either(c6, only_if(known, configured));
    lemma_none_says_no_in_either(c7, only_if(input.window is Some, window));
}

/// How many elements have a property: as many as are left when those that have it not are taken out.
pub proof fn law_counts_are_numbers_of_elements<A>(s: Seq<A>, p: spec_fn(A) -> bool)
    ensures
        count(s, p) == s.filter(p).len(),
        count(s, p) <= s.len(),
    decreases s.len(),
{
    reveal(Seq::filter);
    if s.len() > 0 {
        law_counts_are_numbers_of_elements(s.drop_last(), p);
    }
}

/// A run of the idempotency scenario passes if and only if a repeated request was answered with 201 and
/// then 200 and charged once, requests at once under one key charged once and only one of them was
/// answered with 201, and a different request under a used key was answered with 409 and charged
/// nothing.
pub proof fn law_contention_passes_on_single_charges(
    seen: IdempotencyObservations,
    r: CorrectnessResults,
)
    requires
        r.is_idempotency_verdict_on(seen),
    ensures
        r.passed <==> {
            &&& seen.replay_first == 201 && seen.replay_second == 200 && seen.replay_charges == 1
            &&& seen.shared.created == 1 && seen.shared_charges == 1
            &&& seen.conflict_first == 201 && seen.conflict_second == 409 && seen.conflict_charges
                == 1
        },
        r.passed <==> r.failures@.len() == 0,
        r.checks matches Some(checks) && checks@.len() == 4 && checks@[0].value == CheckValue::Flag(
            seen.unique_created == seen.concurrency,
        ),
{
    assert(texts(r.failures@).len() == r.failures@.len());
    let checks = r.checks->0@;
    assert(check_texts(checks).len() == checks.len());
    assert(check_texts(checks)[0] == (checks[0].name@, checks[0].value));
}

} // verus!
