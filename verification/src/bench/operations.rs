//! What whoever calls an operation of the benchmarks can rely on: how its arguments and its result hang
//! together.

use crate::bench::config::{
    BacklogConfig, BenchConfig, ClaimBatchConfig, EnvironmentConfig, FailureRate, IngestionConfig,
    RetryDegradationConfig,
};
use crate::bench::env_info::{
    first_word, is_dirty, kib_to_bytes, law_machines_are_described_as_they_answered, or_unknown,
    second_word, EnvInfo, MachineFacts,
};
use crate::bench::failpoint::{
    failpoint_label, CrashFirstAttempt, FailpointName,
};
use crate::bench::gate::{
    count, count_repeated_ids, count_repeated_texts, flag, judge_idempotency,
    law_contention_passes_on_single_charges, law_counts_are_numbers_of_elements,
    law_nothing_repeated_iff_all_differ, law_runs_pass_on_the_evidence, only_if, repeated, run_gate,
    tally_shared, texts, tracked_keys, CheckValue, CorrectnessResults, GateInput,
    IdempotencyObservations, SharedKeyTally, TrackedJob, WindowCheck,
};
use crate::bench::points::{
    all_scenarios, asked_for, backlog_points, claim_batch_points, crash_recovery_points,
    downstream_series, execution_points, execution_series, idempotency_points, ingestion_points,
    law_crashes_are_tried_everywhere, law_downstream_runs_every_latency,
    law_execution_runs_every_pair,
    law_ingestion_runs_every_concurrency, law_listed_settings_are_all_run,
    law_scaling_runs_every_pair, law_scenarios_are_asked_for_by_name, retry_degradation_points,
    scaling_points, scaling_series, selected_scenarios, CrashPoint, ExecutionPoint, IngestionPoint,
    ScalingAxis, ScalingPoint, Scenario, SettingPoint,
};
use crate::bench::procs::{
    api_env, assignments, binary_path, fake_charge_env, http_base,
    law_programs_are_found_in_their_directory, worker_env, EnvVar, WorkerSpec,
};
use crate::bench::record::{
    backlog_params, claim_batch_params, execution_params, failpoint_params, file_name,
    formatted_time, idempotency_params, in_quotes, ingestion_params, is_json_file,
    law_sanitized_names_are_plain, law_sanitizing_replaces_all_but_plain_characters, param_texts,
    real_kill_params, retry_degradation_params, sanitize, sanitized, scaling_params, ErrorCounts,
    Params, ResultPath, RunResult, RunSetup,
};
use crate::bench::resource::{
    law_the_largest_is_the_largest, peak, process_sample, ProcessSample,
};
use crate::bench::runs::{
    backlog_record, claim_batch_record, execution_record, failpoint_record, idempotency_record,
    ingestion_record, law_submissions_are_counted_by_their_identifier, real_kill_record,
    retry_degradation_record, scaling_record, StoredRows,
};
use crate::bench::submit::{
    accepted, batch_step, charge_payload, drain_step, driver_step,
    law_accepted_jobs_are_those_with_an_identifier, permits, ready_step, submit_outcome,
    tally_submissions, BatchStep, DriverEvent, DriverStep, SubmitOutcome, Wait,
};
use crate::bench::workload::{
    backlog_plan, claim_batch_plan, conflict_key, execution_plan, failpoint_plan, ingestion_plan,
    real_kill_plan, replay_key, retry_degradation_plan, scaling_plan, shared_key,
    unique_amount_cents, unique_key, DirectPlan, Downstream, KillPlan, Submission,
    WorkloadPlan,
};
use crate::ids::uuid_text;
use crate::text::{decimal, signed_decimal};
use crate::time::Timestamp;
use crate::validation::ChargePayload;
use vstd::prelude::*;

verus! {

// ---------------------------------------------------------------------------------------------
// Verdicts
// ---------------------------------------------------------------------------------------------

/// What a run passes on: as many jobs are found as were submitted; where they should all be finished,
/// each has succeeded or is dead; none was tried more often than allowed; no key was charged under twice
/// and no job succeeded twice; the requests in progress stayed within the capacity, where both are known;
/// and the latencies within the run, where they were measured.
pub open spec fn stands_up(
    stored: StoredRows,
    submitted: nat,
    finished: bool,
    capacity: Option<u64>,
    peak: Option<u64>,
    window: Option<WindowCheck>,
) -> bool {
    &&& stored.found@.len() == submitted
    &&& finished ==> all_ended(stored.found@)
    &&& all_within_budget(stored.found@)
    &&& texts(stored.charge_keys@).no_duplicates()
    &&& stored.succeeded_jobs@.no_duplicates()
    &&& capacity is Some && peak is Some ==> peak->0 <= capacity->0
    &&& window matches Some(w) ==> w.within
}

/// Each of the jobs has succeeded or is dead.
pub open spec fn all_ended(found: Seq<TrackedJob>) -> bool {
    forall|i: int|
        0 <= i < found.len() ==> (#[trigger] found[i]).status@ == "SUCCEEDED"@ || found[i].status@
            == "DEAD"@
}

/// None of the jobs was tried more often than allowed.
pub open spec fn all_within_budget(found: Seq<TrackedJob>) -> bool {
    forall|i: int| 0 <= i < found.len() ==> (#[trigger] found[i]).attempts <= found[i].max_attempts
}

/// A run passes if and only if it stands up, and there are failures if and only if it does not pass.
pub proof fn law_the_gate_passes_what_stands_up(
    input: GateInput,
    stored: StoredRows,
    r: CorrectnessResults,
)
    requires
        call_ensures(run_gate, (&input,), r),
        stored.found == input.found,
        stored.charge_keys == input.charge_keys,
        stored.succeeded_jobs == input.succeeded_jobs,
    ensures
        r.passed <==> stands_up(
            stored,
            input.submitted as nat,
            input.expect_all_terminal,
            input.worker_capacity,
            input.observed_peak_inflight,
            input.window,
        ),
        r.passed <==> r.failures@.len() == 0,
{
    law_runs_pass_on_the_evidence(input, r);
}

proof fn lemma_in_either<A>(a: Seq<A>, b: Seq<A>, x: A)
    ensures
        (a + b).contains(x) <==> a.contains(x) || b.contains(x),
{
    if a.contains(x) {
        let i = a.index_of(x);
        assert((a + b)[i] == x);
    }
    if b.contains(x) {
        let i = b.index_of(x);
        assert((a + b)[a.len() + i] == x);
    }
}

proof fn lemma_alone<A>(made: bool, value: A, x: A)
    ensures
        only_if(made, value).contains(x) <==> made && x == value,
        seq![value].contains(x) <==> x == value,
{
    assert(seq![value][0] == value);
}

proof fn lemma_checks_hold(input: GateInput, x: (Seq<char>, CheckValue))
    ensures
        input.checks().len() == 4 + (if input.expect_all_terminal { 1int } else { 0int }) + (
        if input.capacity_known() { 3int } else { 0int }) + (
        if input.window is Some { 1int } else { 0int }),
        input.checks().contains(x) <==> {
            ||| x == flag("all_tracked_jobs_found"@, input.all_found())
            ||| input.expect_all_terminal && x == flag(
                "all_tracked_jobs_terminal"@,
                input.unfinished() == 0,
            )
            ||| x == flag("no_job_over_attempt_budget"@, input.over_budget() == 0)
            ||| x == flag("at_most_one_charge_per_idempotency_key"@, input.duplicate_keys() == 0)
            ||| x == flag(
                "no_job_finalized_successful_more_than_once"@,
                input.multiple_successes() == 0,
            )
            ||| input.capacity_known() && x == flag(
                "peak_inflight_within_capacity"@,
                !input.over_capacity(),
            )
            ||| input.capacity_known() && x == (
                "observed_peak_inflight"@,
                CheckValue::Number(input.observed_peak_inflight->0),
            )
            ||| input.capacity_known() && x == (
                "configured_capacity"@,
                CheckValue::Number(input.worker_capacity->0),
            )
            ||| input.window is Some && x == flag(
                "latency_samples_within_measurement_window"@,
                !input.outside_window(),
            )
        },
{
    let a = seq![flag("all_tracked_jobs_found"@, input.all_found())];
    let b = only_if(
        input.expect_all_terminal,
        flag("all_tracked_jobs_terminal"@, input.unfinished() == 0),
    );
    let c = seq![flag("no_job_over_attempt_budget"@, input.over_budget() == 0)];
    let d = seq![flag("at_most_one_charge_per_idempotency_key"@, input.duplicate_keys() == 0)];
    let e = seq![
        flag("no_job_finalized_successful_more_than_once"@, input.multiple_successes() == 0),
    ];
    let f = only_if(
        input.capacity_known(),
        flag("peak_inflight_within_capacity"@, !input.over_capacity()),
    );
    let g = only_if(
        input.capacity_known(),
        ("observed_peak_inflight"@, CheckValue::Number(input.observed_peak_inflight->0)),
    );
    let h = only_if(
        input.capacity_known(),
        ("configured_capacity"@, CheckValue::Number(input.worker_capacity->0)),
    );
    let i = only_if(
        input.window is Some,
        flag("latency_samples_within_measurement_window"@, !input.outside_window()),
    );
    assert(input.checks() == a + b + c + d + e + f + g + h + i);
    assert(b.len() == if input.expect_all_terminal { 1int } else { 0int });
    assert(f.len() + g.len() + h.len() == if input.capacity_known() { 3int } else { 0int });
    assert(i.len() == if input.window is Some { 1int } else { 0int });
    assert(a.len() == 1 && c.len() == 1 && d.len() == 1 && e.len() == 1);
    lemma_in_either(a, b, x);
    lemma_in_either(a + b, c, x);
    lemma_in_either(a + b + c, d, x);
    lemma_in_either(a + b + c + d, e, x);
    lemma_in_either(a + b + c + d + e, f, x);
    lemma_in_either(a + b + c + d + e + f, g, x);
    lemma_in_either(a + b + c + d + e + f + g, h, x);
    lemma_in_either(a + b + c + d + e + f + g + h, i, x);
    lemma_alone(true, a[0], x);
    lemma_alone(
        input.expect_all_terminal,
        flag("all_tracked_jobs_terminal"@, input.unfinished() == 0),
        x,
    );
    lemma_alone(true, c[0], x);
    lemma_alone(true, d[0], x);
    lemma_alone(true, e[0], x);
    lemma_alone(
        input.capacity_known(),
        flag("peak_inflight_within_capacity"@, !input.over_capacity()),
        x,
    );
    lemma_alone(
        input.capacity_known(),
        ("observed_peak_inflight"@, CheckValue::Number(input.observed_peak_inflight->0)),
        x,
    );
    lemma_alone(
        input.capacity_known(),
        ("configured_capacity"@, CheckValue::Number(input.worker_capacity->0)),
        x,
    );
    lemma_alone(
        input.window is Some,
        flag("latency_samples_within_measurement_window"@, !input.outside_window()),
        x,
    );
}

/// Each check is on record under its name, with what was found, and no others are.
pub proof fn law_the_gate_records_what_it_checks(input: GateInput, r: CorrectnessResults)
    requires
        call_ensures(run_gate, (&input,), r),
    ensures
        ({
            let checks = r.check_texts()->0;
            let known = input.worker_capacity is Some && input.observed_peak_inflight is Some;
            &&& r.checks is Some
            &&& checks.len() == 4 + (if input.expect_all_terminal { 1int } else { 0int }) + (
            if known { 3int } else { 0int }) + (if input.window is Some { 1int } else { 0int })
            &&& checks.contains(
                (
                    "all_tracked_jobs_found"@,
                    CheckValue::Flag(input.found@.len() == input.submitted),
                ),
            )
            &&& input.expect_all_terminal ==> checks.contains(
                (
                    "all_tracked_jobs_terminal"@,
                    CheckValue::Flag(all_ended(input.found@)),
                ),
            )
            &&& checks.contains(
                (
                    "no_job_over_attempt_budget"@,
                    CheckValue::Flag(all_within_budget(input.found@)),
                ),
            )
            &&& checks.contains(
                (
                    "at_most_one_charge_per_idempotency_key"@,
                    CheckValue::Flag(texts(input.charge_keys@).no_duplicates()),
                ),
            )
            &&& checks.contains(
                (
                    "no_job_finalized_successful_more_than_once"@,
                    CheckValue::Flag(input.succeeded_jobs@.no_duplicates()),
                ),
            )
            &&& known ==> {
                let seen = input.observed_peak_inflight->0;
                let capacity = input.worker_capacity->0;
                &&& checks.contains(
                    ("peak_inflight_within_capacity"@, CheckValue::Flag(seen <= capacity)),
                )
                &&& checks.contains(("observed_peak_inflight"@, CheckValue::Number(seen)))
                &&& checks.contains(("configured_capacity"@, CheckValue::Number(capacity)))
            }
            &&& input.window matches Some(window) ==> checks.contains(
                (
                    "latency_samples_within_measurement_window"@,
                    CheckValue::Flag(window.within),
                ),
            )
        }),
{
    lemma_unfinished(input);
    lemma_over_budget(input);
    law_nothing_repeated_iff_all_differ(texts(input.charge_keys@));
    law_nothing_repeated_iff_all_differ(input.succeeded_jobs@);
    lemma_checks_hold(input, flag("all_tracked_jobs_found"@, input.all_found()));
    lemma_checks_hold(input, flag("all_tracked_jobs_terminal"@, input.unfinished() == 0));
    lemma_checks_hold(input, flag("no_job_over_attempt_budget"@, input.over_budget() == 0));
    lemma_checks_hold(
        input,
        flag("at_most_one_charge_per_idempotency_key"@, input.duplicate_keys() == 0),
    );
    lemma_checks_hold(
        input,
        flag("no_job_finalized_successful_more_than_once"@, input.multiple_successes() == 0),
    );
    lemma_checks_hold(input, flag("peak_inflight_within_capacity"@, !input.over_capacity()));
    lemma_checks_hold(
        input,
        ("observed_peak_inflight"@, CheckValue::Number(input.observed_peak_inflight->0)),
    );
    lemma_checks_hold(
        input,
        ("configured_capacity"@, CheckValue::Number(input.worker_capacity->0)),
    );
    lemma_checks_hold(
        input,
        flag("latency_samples_within_measurement_window"@, !input.outside_window()),
    );
}

proof fn lemma_none_counted<A>(s: Seq<A>, p: spec_fn(A) -> bool)
    ensures
        count(s, p) == 0 <==> forall|i: int| 0 <= i < s.len() ==> !p(#[trigger] s[i]),
    decreases s.len(),
{
    if s.len() > 0 {
        lemma_none_counted(s.drop_last(), p);
        assert(forall|i: int| 0 <= i < s.len() - 1 ==> s.drop_last()[i] == #[trigger] s[i]);
        assert(s.last() == s[s.len() - 1]);
        if forall|i: int| 0 <= i < s.len() ==> !p(#[trigger] s[i]) {
            assert forall|i: int| 0 <= i < s.len() - 1 implies !p(#[trigger] s.drop_last()[i]) by {
                assert(!p(s[i]));
            }
        }
        if count(s, p) == 0 {
            assert forall|i: int| 0 <= i < s.len() implies !p(#[trigger] s[i]) by {
                if i < s.len() - 1 {
                    assert(!p(s.drop_last()[i]));
                }
            }
        }
    }
}

proof fn lemma_unfinished(input: GateInput)
    ensures
        input.unfinished() == 0 <==> all_ended(input.found@),
{
    lemma_none_counted(input.found@, |j: TrackedJob| !j.finished());
}

proof fn lemma_over_budget(input: GateInput)
    ensures
        input.over_budget() == 0 <==> all_within_budget(input.found@),
{
    lemma_none_counted(input.found@, |j: TrackedJob| j.over_budget());
}

/// What is said of a run that does not pass, with the numbers that it is about.
pub proof fn law_the_gate_says_what_is_wrong(input: GateInput, r: CorrectnessResults)
    requires
        call_ensures(run_gate, (&input,), r),
    ensures
        ({
            let said = texts(r.failures@);
            let unfinished = input.found@.filter(|j: TrackedJob| !j.finished()).len();
            let over = input.found@.filter(|j: TrackedJob| j.attempts > j.max_attempts).len();
            &&& input.found@.len() != input.submitted ==> said.contains(
                "expected "@ + decimal(input.submitted as nat) + " tracked jobs, found "@ + decimal(
                    input.found@.len(),
                ) + " in the database"@,
            )
            &&& input.expect_all_terminal && unfinished > 0 ==> said.contains(
                decimal(unfinished) + " tracked jobs are still PENDING/RUNNING, expected 0"@,
            )
            &&& over > 0 ==> said.contains(decimal(over) + " jobs exceeded their attempt budget"@)
            &&& said.len() == (if input.found@.len() != input.submitted { 1int } else { 0int }) + (
            if input.expect_all_terminal && unfinished > 0 { 1int } else { 0int }) + (if over > 0 {
                1int
            } else {
                0int
            }) + (if !texts(input.charge_keys@).no_duplicates() { 1int } else { 0int }) + (
            if !input.succeeded_jobs@.no_duplicates() { 1int } else { 0int }) + (
            if input.worker_capacity is Some && input.observed_peak_inflight is Some
                && input.observed_peak_inflight->0 > input.worker_capacity->0 { 1int } else { 0int })
                + (if input.window is Some && !input.window->0.within { 1int } else { 0int })
        }),
{
    let finished = |j: TrackedJob| !j.finished();
    let tried = |j: TrackedJob| j.over_budget();
    law_counts_are_numbers_of_elements(input.found@, finished);
    law_counts_are_numbers_of_elements(input.found@, tried);
    assert((|j: TrackedJob| j.attempts > j.max_attempts) =~= tried);
    law_nothing_repeated_iff_all_differ(texts(input.charge_keys@));
    law_nothing_repeated_iff_all_differ(input.succeeded_jobs@);
    lemma_failures(input);
}

proof fn lemma_after<A>(s: Seq<A>, made: bool, value: A)
    ensures
        (s + only_if(made, value)).len() == s.len() + (if made { 1int } else { 0int }),
        made ==> (s + only_if(made, value)).contains(value),
        forall|x: A| s.contains(x) ==> #[trigger] (s + only_if(made, value)).contains(x),
{
    let t = s + only_if(made, value);
    if made {
        assert(t[s.len() as int] == value);
    }
    assert forall|x: A| s.contains(x) implies #[trigger] t.contains(x) by {
        assert(t[s.index_of(x)] == x);
    }
}

proof fn lemma_failures(input: GateInput)
    ensures
        ({
            let said = input.failures();
            &&& !input.all_found() ==> said.contains(
                "expected "@ + decimal(input.submitted as nat) + " tracked jobs, found "@ + decimal(
                    input.found@.len(),
                ) + " in the database"@,
            )
            &&& input.expect_all_terminal && input.unfinished() > 0 ==> said.contains(
                decimal(input.unfinished())
                    + " tracked jobs are still PENDING/RUNNING, expected 0"@,
            )
            &&& input.over_budget() > 0 ==> said.contains(
                decimal(input.over_budget()) + " jobs exceeded their attempt budget"@,
            )
            &&& said.len() == (if !input.all_found() { 1int } else { 0int }) + (
            if input.expect_all_terminal && input.unfinished() > 0 { 1int } else { 0int }) + (
            if input.over_budget() > 0 { 1int } else { 0int }) + (if input.duplicate_keys() > 0 {
                1int
            } else {
                0int
            }) + (if input.multiple_successes() > 0 { 1int } else { 0int }) + (
            if input.over_capacity() { 1int } else { 0int }) + (if input.outside_window() {
                1int
            } else {
                0int
            })
        }),
{
    let v1 = "expected "@ + decimal(input.submitted as nat) + " tracked jobs, found "@ + decimal(
        input.found@.len(),
    ) + " in the database"@;
    let v2 = decimal(input.unfinished()) + " tracked jobs are still PENDING/RUNNING, expected 0"@;
    let v3 = decimal(input.over_budget()) + " jobs exceeded their attempt budget"@;
    let v4 = decimal(input.duplicate_keys()) + " idempotency keys back more than one charge row"@;
    let v5 = decimal(input.multiple_successes())
        + " jobs have more than one SUCCEEDED attempt row (a stale/reclaimed owner may have finalized after losing its lease)"@;
    let v6 = "observed peak_inflight "@ + decimal(input.observed_peak_inflight->0 as nat)
        + " exceeded configured capacity "@ + decimal(input.worker_capacity->0 as nat);
    let v7 = "a latency sample of "@ + input.window->0.max_sample@
        + "ms far exceeds this run's own measurement window ("@ + input.window->0.threshold@
        + "ms threshold) — likely the host slept/woke mid-run, corrupting wall-clock (not monotonic) timestamps"@;
    let s1 = only_if(!input.all_found(), v1);
    let s2 = s1 + only_if(input.expect_all_terminal && input.unfinished() > 0, v2);
    let s3 = s2 + only_if(input.over_budget() > 0, v3);
    let s4 = s3 + only_if(input.duplicate_keys() > 0, v4);
    let s5 = s4 + only_if(input.multiple_successes() > 0, v5);
    let s6 = s5 + only_if(input.over_capacity(), v6);
    let s7 = s6 + only_if(input.outside_window(), v7);
    assert(input.failures() == s7);
    lemma_alone(!input.all_found(), v1, v1);
    lemma_after(s1, input.expect_all_terminal && input.unfinished() > 0, v2);
    lemma_after(s2, input.over_budget() > 0, v3);
    lemma_after(s3, input.duplicate_keys() > 0, v4);
    lemma_after(s4, input.multiple_successes() > 0, v5);
    lemma_after(s5, input.over_capacity(), v6);
    lemma_after(s6, input.outside_window(), v7);
}

/// One more element raises the number of repeated ones if and only if it occurred exactly once before.
pub proof fn law_repetitions_are_counted_once<A>(s: Seq<A>, x: A)
    ensures
        s.filter(|y: A| y == x).len() == 1 ==> repeated(s.push(x)) == repeated(s) + 1,
        s.filter(|y: A| y == x).len() != 1 ==> repeated(s.push(x)) == repeated(s),
        repeated(Seq::<A>::empty()) == 0,
{
    law_counts_are_numbers_of_elements(s, |y: A| y == x);
    assert(s.push(x).drop_last() == s);
    assert(s.push(x).last() == x);
}

/// The charge service passes under contention if a repeated request was charged once and answered as
/// such, as was a shared one, and a conflicting one was refused. Whether the others were all charged is on
/// record beside it.
pub proof fn law_contention_is_judged_by_single_charges(
    seen: IdempotencyObservations,
    r: CorrectnessResults,
)
    requires
        call_ensures(judge_idempotency, (&seen,), r),
    ensures
        ({
            let replayed = seen.replay_first == 201 && seen.replay_second == 200
                && seen.replay_charges == 1;
            let shared = seen.shared.created == 1 && seen.shared_charges == 1;
            let refused = seen.conflict_first == 201 && seen.conflict_second == 409
                && seen.conflict_charges == 1;
            &&& r.passed <==> replayed && shared && refused
            &&& r.passed <==> r.failures@.len() == 0
            &&& r.checks matches Some(checks) && {
                &&& checks@.len() == 4
                &&& checks@[0].name@ == "unique_requests_all_created"@ && checks@[0].value
                    == CheckValue::Flag(seen.unique_created == seen.concurrency)
                &&& checks@[1].name@ == "sequential_replay_returns_200_with_one_row"@
                    && checks@[1].value == CheckValue::Flag(replayed)
                &&& checks@[2].name@ == "concurrent_shared_key_creates_exactly_one_charge"@
                    && checks@[2].value == CheckValue::Flag(shared)
                &&& checks@[3].name@ == "conflicting_payload_rejected_not_silently_succeeded"@
                    && checks@[3].value == CheckValue::Flag(refused)
            }
        }),
{
    law_contention_passes_on_single_charges(seen, r);
    let said = r.check_texts()->0;
    let checks = r.checks->0@;
    assert(said.len() == checks.len());
    assert(said[0] == (checks[0].name@, checks[0].value));
    assert(said[1] == (checks[1].name@, checks[1].value));
    assert(said[2] == (checks[2].name@, checks[2].value));
    assert(said[3] == (checks[3].name@, checks[3].value));
}

/// Answers to a shared key are told apart by their status.
pub proof fn law_shared_answers_are_counted_by_status(statuses: Vec<u16>, t: SharedKeyTally)
    requires
        call_ensures(tally_shared, (&statuses,), t),
    ensures
        t.created == statuses@.filter(|s: u16| s == 201).len(),
        t.replayed == statuses@.filter(|s: u16| s == 200).len(),
        t.other == statuses@.filter(|s: u16| s != 200 && s != 201).len(),
{
    law_counts_are_numbers_of_elements(statuses@, |s: u16| s == 201);
    law_counts_are_numbers_of_elements(statuses@, |s: u16| s == 200);
    law_counts_are_numbers_of_elements(statuses@, |s: u16| s != 200 && s != 201);
}

/// Repetitions are found if and only if there are any, and each job has the key of its charge.
pub proof fn law_repetitions_are_found(
    ids: Vec<u128>,
    n: usize,
    keys: Vec<String>,
    m: usize,
    made: Vec<String>,
    i: int,
)
    requires
        call_ensures(count_repeated_ids, (&ids,), n),
        call_ensures(count_repeated_texts, (&keys,), m),
        call_ensures(tracked_keys, (&ids,), made),
        0 <= i < ids@.len(),
    ensures
        n == 0 <==> ids@.no_duplicates(),
        m == 0 <==> texts(keys@).no_duplicates(),
        made@.len() == ids@.len(),
        made@[i]@ == "reliableq:charge:"@ + uuid_text(ids@[i]),
{
    law_nothing_repeated_iff_all_differ(ids@);
    law_nothing_repeated_iff_all_differ(texts(keys@));
    let said = texts(made@);
    assert(said.len() == made@.len());
    assert(said[i] == made@[i]@);
}

// ---------------------------------------------------------------------------------------------
// Submitting and waiting
// ---------------------------------------------------------------------------------------------

/// The payload of a job names its scenario and its number, and is of 100 to 5099 rupee cents.
pub proof fn law_payloads_are_made_by_number(scenario: &str, i: u64, p: ChargePayload)
    requires
        call_ensures(charge_payload, (scenario, i), p),
    ensures
        p.customer_id@ == "bench-"@ + scenario@ + "-"@ + decimal(i as nat),
        100 <= p.amount_cents < 5100,
        (p.amount_cents - 100 - i) % 5000 == 0,
        p.currency@ == "INR"@,
{
}

/// A submission counts as accepted if and only if it was answered with 202 and a proper identifier, and
/// the tally has the identifiers of the accepted in order and the number of the others.
pub proof fn law_submissions_are_tallied(
    status: u16,
    id_text: Option<String>,
    outcome: SubmitOutcome,
    outcomes: Vec<SubmitOutcome>,
    tally: (Vec<u128>, usize),
)
    requires
        call_ensures(submit_outcome, (status, id_text), outcome),
        call_ensures(tally_submissions, (&outcomes,), tally),
    ensures
        outcome.status == status,
        outcome.id is Some <==> status == 202 && (id_text matches Some(text)
            && crate::ids::uuid_parsed(text@) is Some),
        outcome.id is Some ==> crate::ids::uuid_parsed(id_text->0@) == outcome.id,
        tally.0@ == outcomes@.filter(|o: SubmitOutcome| o.id is Some).map_values(
            |o: SubmitOutcome| o.id->0,
        ),
        tally.0.len() + tally.1 == outcomes.len(),
{
    law_accepted_jobs_are_those_with_an_identifier(outcomes@, outcome);
}

/// There is always at least one submission at a time.
pub proof fn law_permits_are_never_none(concurrency: u32, n: u32)
    requires
        call_ensures(permits, (concurrency,), n),
    ensures
        n >= 1,
        concurrency >= 1 ==> n == concurrency,
        concurrency == 0 ==> n == 1,
{
}

/// Waiting ends well as soon as what is waited for has come, whatever the time, and otherwise when the
/// time is up.
pub proof fn law_waiting_ends_when_it_is_over(
    depth: i64,
    answered: bool,
    time_is_up: bool,
    drained: Wait,
    prepared: Wait,
)
    requires
        call_ensures(drain_step, (depth, time_is_up), drained),
        call_ensures(ready_step, (answered, time_is_up), prepared),
    ensures
        drained == Wait::Done <==> depth == 0,
        drained == Wait::GiveUp <==> depth != 0 && time_is_up,
        drained == Wait::Again <==> depth != 0 && !time_is_up,
        prepared == Wait::Done <==> answered,
        prepared == Wait::GiveUp <==> !answered && time_is_up,
        prepared == Wait::Again <==> !answered && !time_is_up,
{
}

/// A batch is executed if it has a job. The driver claims while there is time, executes what it claimed,
/// and ends when nothing is left.
pub proof fn law_drivers_go_on_while_there_is_work(
    claimed: usize,
    batch: BatchStep,
    event: DriverEvent,
    next: DriverStep,
)
    requires
        call_ensures(batch_step, (claimed,), batch),
        call_ensures(driver_step, (event,), next),
    ensures
        batch is Execute <==> claimed > 0,
        batch is Stop <==> claimed == 0,
        match event {
            DriverEvent::Round { time_is_up } => {
                &&& time_is_up ==> next is GiveUp
                &&& !time_is_up ==> next is Claim
            },
            DriverEvent::Claimed { jobs } => {
                &&& jobs > 0 ==> next is Execute
                &&& jobs == 0 ==> next is CountRemaining
            },
            DriverEvent::Remaining { jobs } => {
                &&& jobs == 0 ==> next is Quiescent
                &&& jobs != 0 ==> next is Sleep
            },
        },
{
}

/// At its failpoint the first attempt of each job crashes, and no other does.
pub proof fn law_crashes_come_once(
    crash: &mut CrashFirstAttempt,
    name: FailpointName,
    job_id: u128,
    crashed: bool,
    fresh: CrashFirstAttempt,
    label: &'static str,
)
    requires
        call_ensures(CrashFirstAttempt::should_trigger, (crash, name, job_id), crashed),
        call_ensures(CrashFirstAttempt::new, (name,), fresh),
        call_ensures(failpoint_label, (name,), label),
    ensures
        crashed <==> name == old(crash).name && forall|i: int|
            0 <= i < old(crash).already_triggered@.len() ==> old(crash).already_triggered@[i]
                != job_id,
        final(crash).name == old(crash).name,
        crashed ==> final(crash).already_triggered@ == old(crash).already_triggered@.push(job_id),
        !crashed ==> final(crash).already_triggered@ == old(crash).already_triggered@,
        fresh.name == name && fresh.already_triggered@.len() == 0,
        name is AfterClaimBeforeEffect ==> label@ == "after_claim_before_effect"@,
        name is AfterEffectBeforeFinalize ==> label@ == "after_effect_before_finalize"@,
        name is DuringFinalize ==> label@ == "during_finalize"@,
{
    let seen = old(crash).already_triggered@;
    if old(crash).triggers(old(crash).name, job_id) {
        assert forall|i: int| 0 <= i < seen.len() implies seen[i] != job_id by {
            assert(seen.contains(seen[i]));
        }
    }
}

/// The peak of some samples is the largest of them.
pub proof fn law_peaks_are_the_largest(samples: Vec<u64>, n: u64)
    requires
        call_ensures(peak, (&samples,), n),
    ensures
        forall|i: int| 0 <= i < samples@.len() ==> #[trigger] samples@[i] <= n,
        samples@.len() > 0 ==> samples@.contains(n),
        samples@.len() == 0 ==> n == 0,
{
    law_the_largest_is_the_largest(samples@);
}

// ---------------------------------------------------------------------------------------------
// Plans
// ---------------------------------------------------------------------------------------------

/// The submission has this label, begins with this job and is of this many, this many at a time, each
/// allowed this many attempts.
pub open spec fn submits(
    s: Submission,
    label: Seq<char>,
    start: int,
    jobs: int,
    at_a_time: int,
    attempts: int,
) -> bool {
    &&& s.label@ == label
    &&& s.start_index == start && s.count == jobs
    &&& s.concurrency == at_a_time && s.max_attempts == attempts
}

/// Ingestion is measured without workers, on jobs that come after those to warm up.
pub proof fn law_ingestion_is_planned(
    cfg: IngestionConfig,
    point: IngestionPoint,
    plan: WorkloadPlan,
)
    requires
        call_ensures(ingestion_plan, (&cfg, &point), plan),
    ensures
        plan.downstream is Untouched && plan.drain is None && plan.capacity is None,
        !plan.reset_inflight && !plan.observe_peak,
        plan.workers@.len() == 0 && plan.warmup_workers@.len() == 0,
        plan.warmup matches Some(warmup) && submits(
            warmup,
            "ingestion-warmup"@,
            0,
            cfg.warmup_requests as int,
            point.concurrency as int,
            5,
        ) && submits(
            plan.measured,
            "ingestion"@,
            warmup.start_index + warmup.count,
            cfg.requests as int,
            point.concurrency as int,
            5,
        ),
{
    assert(plan@.workers.len() == plan.workers@.len());
    assert(plan@.warmup_workers.len() == plan.warmup_workers@.len());
}

/// Execution is measured with one worker, of the concurrency of the point and with leases of ten
/// seconds, which is also the capacity, and on jobs that come after those to warm up.
pub proof fn law_execution_is_planned(
    env: EnvironmentConfig,
    point: ExecutionPoint,
    plan: WorkloadPlan,
)
    requires
        call_ensures(execution_plan, (&env, &point), plan),
        env.has_port(0),
    ensures
        plan.downstream == Downstream::DelayMs(point.latency_ms),
        plan.capacity == Some(point.concurrency as u64),
        plan.reset_inflight && plan.observe_peak,
        plan.drain matches Some(wait) && wait.deadline_secs == 180 && wait.poll_ms == 150,
        plan.workers@.len() == 1 && plan.workers@[0].concurrency == point.concurrency
            && plan.workers@[0].lease_duration_secs == 10,
        plan.warmup is Some <==> point.warmup_jobs > 0,
        plan.warmup matches Some(warmup) ==> submits(
            warmup,
            "exec-warmup"@,
            0,
            point.warmup_jobs as int,
            32,
            5,
        ) && plan.warmup_workers@.len() == 1,
        submits(
            plan.measured,
            point.sweep.text(),
            point.warmup_jobs as int,
            point.job_count as int,
            64,
            5,
        ),
{
    assert(plan@.workers.len() == plan.workers@.len());
    assert(plan@.workers[0] == plan.workers@[0]@);
    assert(plan@.warmup_workers.len() == plan.warmup_workers@.len());
}

/// Scaling is measured with the workers of the point, whose concurrency together is the capacity, and on
/// jobs that come after those to warm up.
pub proof fn law_scaling_is_planned(
    env: EnvironmentConfig,
    point: ScalingPoint,
    plan: WorkloadPlan,
    i: int,
)
    requires
        call_ensures(scaling_plan, (&env, &point), plan),
        point.worker_count * point.concurrency_per_worker <= u32::MAX,
        0 <= i < point.worker_count,
    ensures
        plan.downstream == Downstream::DelayMs(point.latency_ms),
        plan.capacity matches Some(n) && n == point.worker_count * point.concurrency_per_worker,
        plan.reset_inflight && plan.observe_peak,
        plan.drain matches Some(wait) && wait.deadline_secs == 180 && wait.poll_ms == 150,
        plan.workers@.len() == point.worker_count,
        plan.workers@[i].concurrency == point.concurrency_per_worker
            && plan.workers@[i].lease_duration_secs == 10,
        plan.warmup is Some <==> point.warmup_jobs > 0,
        plan.warmup matches Some(warmup) ==> submits(
            warmup,
            "scaling-warmup"@,
            0,
            point.warmup_jobs as int,
            32,
            5,
        ),
        submits(
            plan.measured,
            "scaling"@,
            point.warmup_jobs as int,
            point.job_count as int,
            64,
            5,
        ),
{
    assert(plan@.workers.len() == plan.workers@.len());
    assert(plan@.workers[i] == plan.workers@[i]@);
    assert(0 <= point.worker_count * point.concurrency_per_worker) by (nonlinear_arith);
}

/// Retries are measured with one worker that begins with a fifth of a second, against a service that
/// fails with 503 unless the rate is none. Each run has a seed of its own.
pub proof fn law_retries_are_planned(
    env: EnvironmentConfig,
    cfg: RetryDegradationConfig,
    rate: FailureRate,
    run_number: u32,
    plan: WorkloadPlan,
)
    requires
        call_ensures(retry_degradation_plan, (&env, &cfg, &rate, run_number), plan),
    ensures
        !rate.positive ==> plan.downstream is Normal,
        rate.positive ==> plan.downstream == (Downstream::FailRate {
            status: 503,
            seed: (20260818 + run_number) as u64,
        }),
        plan.capacity == Some(cfg.worker_concurrency as u64),
        !plan.reset_inflight && plan.observe_peak && plan.warmup is None,
        plan.drain matches Some(wait) && wait.deadline_secs == 180 && wait.poll_ms == 200,
        plan.workers@.len() == 1 && plan.workers@[0].concurrency == cfg.worker_concurrency
            && plan.workers@[0].lease_duration_secs == 10 && plan.workers@[0].retry_base_delay_ms
            == Some(200u64),
        submits(plan.measured, "retry-degradation"@, 0, cfg.job_count as int, 64, 6),
{
    assert(plan@.workers.len() == plan.workers@.len());
    assert(plan@.workers[0] == plan.workers@[0]@);
}

/// A backlog is worked off by one worker, after all of it was submitted.
pub proof fn law_backlogs_are_planned(
    env: EnvironmentConfig,
    cfg: BacklogConfig,
    backlog: u64,
    plan: WorkloadPlan,
)
    requires
        call_ensures(backlog_plan, (&env, &cfg, backlog), plan),
    ensures
        plan.downstream is Untouched && plan.warmup is None,
        plan.capacity == Some(cfg.worker_concurrency as u64),
        !plan.reset_inflight && !plan.observe_peak,
        plan.drain matches Some(wait) && wait.deadline_secs == 900 && wait.poll_ms == 500,
        plan.workers@.len() == 1 && plan.workers@[0].concurrency == cfg.worker_concurrency
            && plan.workers@[0].lease_duration_secs == 15,
        submits(plan.measured, "backlog"@, 0, backlog as int, 128, 5),
{
    assert(plan@.workers.len() == plan.workers@.len());
    assert(plan@.workers[0] == plan.workers@[0]@);
}

/// Claims of a batch size, and crashes at a failpoint, are measured without worker processes.
pub proof fn law_direct_runs_are_planned(
    cfg: ClaimBatchConfig,
    batch_size: i64,
    claims: DirectPlan,
    name: FailpointName,
    job_count: u64,
    crashes: DirectPlan,
)
    requires
        call_ensures(claim_batch_plan, (&cfg, batch_size), claims),
        call_ensures(failpoint_plan, (name, job_count), crashes),
    ensures
        claims.label@ == "claim-batch"@ && claims.job_count == cfg.job_count && claims.batch_size
            == batch_size,
        claims.max_attempts == 5 && claims.lease_secs == 10 && claims.deadline_secs is None,
        crashes.job_count == job_count && crashes.batch_size == 10 && crashes.max_attempts == 6,
        crashes.lease_secs == 2 && crashes.deadline_secs == Some(60u64),
        name is AfterClaimBeforeEffect ==> crashes.label@ == "crash-"@
            + "after_claim_before_effect"@,
        name is AfterEffectBeforeFinalize ==> crashes.label@ == "crash-"@
            + "after_effect_before_finalize"@,
        name is DuringFinalize ==> crashes.label@ == "crash-"@ + "during_finalize"@,
{
}

/// A worker is killed while it holds all jobs: it can take each of them, and the charges last longer
/// than its leases, so that a second worker, set up alike, takes them over.
pub proof fn law_kills_are_planned(
    env: EnvironmentConfig,
    job_count: u64,
    plan: KillPlan,
)
    requires
        call_ensures(real_kill_plan, (&env, job_count), plan),
        1 <= job_count <= u32::MAX,
    ensures
        submits(plan.measured, "crash-real-kill"@, 0, job_count as int, job_count as int, 5),
        plan.first_worker.concurrency == job_count && plan.second_worker.concurrency == job_count,
        plan.first_worker.lease_duration_secs == 5 && plan.second_worker.lease_duration_secs == 5,
        plan.delay_before_kill_ms > 1000 * plan.first_worker.lease_duration_secs,
        plan.delay_before_kill_ms == 10_000 && plan.pause_ms == 800,
        plan.drain.deadline_secs == 120 && plan.drain.poll_ms == 200,
{
}

// ---------------------------------------------------------------------------------------------
// Records
// ---------------------------------------------------------------------------------------------

/// The record is of that scenario, that run and that time.
pub open spec fn records(
    r: RunResult,
    scenario: Seq<char>,
    run_number: u32,
    now: Timestamp,
) -> bool {
    r.scenario@ == scenario && r.run_number == run_number && r.timestamp_utc == now
        && r.schema_version == 1 && r.status is Complete
}

/// How many of the submissions were accepted.
pub open spec fn taken(outcomes: Seq<SubmitOutcome>) -> nat {
    outcomes.filter(|o: SubmitOutcome| o.id is Some).len()
}

/// The setup has these processes, this concurrency, these leases and this many jobs.
pub open spec fn set_up(
    s: RunSetup,
    servers: int,
    workers: int,
    concurrency: int,
    lease_secs: int,
    jobs: int,
) -> bool {
    &&& s.api_process_count == servers && s.worker_process_count == workers
    &&& s.worker_concurrency == concurrency && s.lease_duration_secs == lease_secs
    &&& s.job_count == jobs
}

/// The setup counts these errors of the interface and no others.
pub open spec fn counts_errors(e: ErrorCounts, refused: int) -> bool {
    e.http_errors == refused && e.timeouts == 0 && e.other == 0
}

/// An ingestion passes on the accepted submissions, whether or not they are finished.
pub proof fn law_ingestions_are_recorded(
    env: EnvInfo,
    point: IngestionPoint,
    now: Timestamp,
    outcomes: Vec<SubmitOutcome>,
    stored: StoredRows,
    window: Option<WindowCheck>,
    r: RunResult,
)
    requires
        call_ensures(ingestion_record, (&env, &point, now, &outcomes, stored, window), r),
        outcomes@.len() <= usize::MAX,
    ensures
        records(r, "ingestion"@, point.run_number, now),
        set_up(r.setup, 1, 0, 0, 0, outcomes@.len() as int),
        r.setup.throughput_unit@ == "requests_per_sec"@,
        counts_errors(r.setup.error_counts, outcomes@.len() - taken(outcomes@)),
        r.correctness_results.passed <==> stands_up(
            stored,
            taken(outcomes@),
            false,
            None,
            None,
            window,
        ),
{
    law_submissions_are_counted_by_their_identifier(outcomes@);
    let n = crate::bench::runs::accepted_count(outcomes@);
    law_runs_pass_on_the_evidence(
        stored.evidence(n, false, None, None, window),
        r.correctness_results,
    );
    assert(r.setup@.job_count == r.setup.job_count);
}

/// An execution passes on the accepted submissions, all finished if the queue was drained, within the
/// concurrency of its worker.
pub proof fn law_executions_are_recorded(
    env: EnvInfo,
    point: ExecutionPoint,
    now: Timestamp,
    outcomes: Vec<SubmitOutcome>,
    drained: bool,
    stored: StoredRows,
    peak: Option<u64>,
    window: Option<WindowCheck>,
    r: RunResult,
)
    requires
        call_ensures(
            execution_record,
            (&env, &point, now, &outcomes, drained, stored, peak, window),
            r,
        ),
        outcomes@.len() <= usize::MAX,
    ensures
        records(r, point.sweep.text(), point.run_number, now),
        set_up(r.setup, 1, 1, point.concurrency as int, 10, taken(outcomes@) as int),
        r.setup.fake_charge_latency_ms == point.latency_ms,
        counts_errors(r.setup.error_counts, outcomes@.len() - taken(outcomes@)),
        r.correctness_results.passed <==> stands_up(
            stored,
            taken(outcomes@),
            drained,
            Some(point.concurrency as u64),
            peak,
            window,
        ),
{
    law_submissions_are_counted_by_their_identifier(outcomes@);
    let n = crate::bench::runs::accepted_count(outcomes@);
    law_runs_pass_on_the_evidence(
        stored.evidence(n, drained, Some(point.concurrency as u64), peak, window),
        r.correctness_results,
    );
    assert(r.setup@.job_count == r.setup.job_count);
}

/// A run of several workers passes on the same, within their concurrency together.
pub proof fn law_scaling_is_recorded(
    env: EnvInfo,
    point: ScalingPoint,
    now: Timestamp,
    outcomes: Vec<SubmitOutcome>,
    drained: bool,
    stored: StoredRows,
    peak: Option<u64>,
    window: Option<WindowCheck>,
    r: RunResult,
)
    requires
        call_ensures(
            scaling_record,
            (&env, &point, now, &outcomes, drained, stored, peak, window),
            r,
        ),
        outcomes@.len() <= usize::MAX,
    ensures
        records(r, "scaling"@, point.run_number, now),
        set_up(
            r.setup,
            1,
            point.worker_count as int,
            point.concurrency_per_worker as int,
            10,
            taken(outcomes@) as int,
        ),
        r.setup.fake_charge_latency_ms == point.latency_ms,
        counts_errors(r.setup.error_counts, outcomes@.len() - taken(outcomes@)),
        r.correctness_results.passed <==> stands_up(
            stored,
            taken(outcomes@),
            drained,
            Some((point.worker_count * point.concurrency_per_worker) as u64),
            peak,
            window,
        ),
{
    law_submissions_are_counted_by_their_identifier(outcomes@);
    let n = crate::bench::runs::accepted_count(outcomes@);
    law_runs_pass_on_the_evidence(
        stored.evidence(
            n,
            drained,
            Some((point.worker_count * point.concurrency_per_worker) as u64),
            peak,
            window,
        ),
        r.correctness_results,
    );
    assert(r.setup@.job_count == r.setup.job_count);
}

/// So does a run with retries.
pub proof fn law_retries_are_on_record(
    env: EnvInfo,
    worker_concurrency: u32,
    rate_json: &str,
    rate_text: &str,
    run_number: u32,
    now: Timestamp,
    outcomes: Vec<SubmitOutcome>,
    drained: bool,
    stored: StoredRows,
    peak: Option<u64>,
    window: Option<WindowCheck>,
    r: RunResult,
)
    requires
        call_ensures(
            retry_degradation_record,
            (
                &env,
                worker_concurrency,
                rate_json,
                rate_text,
                run_number,
                now,
                &outcomes,
                drained,
                stored,
                peak,
                window,
            ),
            r,
        ),
        outcomes@.len() <= usize::MAX,
    ensures
        records(r, "retry_degradation"@, run_number, now),
        set_up(r.setup, 1, 1, worker_concurrency as int, 10, taken(outcomes@) as int),
        r.setup.fake_charge_failure_mode@ == "fail_rate="@ + rate_text@,
        r.setup.retry_configuration matches Some(retry) && retry.base_delay_ms == 200
            && retry.multiplier == 2 && retry.max_delay_secs == 60,
        r.correctness_results.passed <==> stands_up(
            stored,
            taken(outcomes@),
            drained,
            Some(worker_concurrency as u64),
            peak,
            window,
        ),
{
    law_submissions_are_counted_by_their_identifier(outcomes@);
    let n = crate::bench::runs::accepted_count(outcomes@);
    law_runs_pass_on_the_evidence(
        stored.evidence(n, drained, Some(worker_concurrency as u64), peak, window),
        r.correctness_results,
    );
    assert(r.setup@.job_count == r.setup.job_count);
    crate::bench::record::law_setups_say_what_they_hold(r.setup);
    crate::bench::record::law_setups_begin_empty(0);
}

/// So does a run over a backlog, of which no peak is known.
pub proof fn law_backlogs_are_recorded(
    env: EnvInfo,
    worker_concurrency: u32,
    backlog: u64,
    run_number: u32,
    now: Timestamp,
    outcomes: Vec<SubmitOutcome>,
    drained: bool,
    stored: StoredRows,
    window: Option<WindowCheck>,
    r: RunResult,
)
    requires
        call_ensures(
            backlog_record,
            (
                &env,
                worker_concurrency,
                backlog,
                run_number,
                now,
                &outcomes,
                drained,
                stored,
                window,
            ),
            r,
        ),
        outcomes@.len() <= usize::MAX,
    ensures
        records(r, "backlog"@, run_number, now),
        set_up(r.setup, 1, 1, worker_concurrency as int, 15, taken(outcomes@) as int),
        counts_errors(r.setup.error_counts, outcomes@.len() - taken(outcomes@)),
        r.correctness_results.passed <==> stands_up(
            stored,
            taken(outcomes@),
            drained,
            Some(worker_concurrency as u64),
            None,
            window,
        ),
{
    law_submissions_are_counted_by_their_identifier(outcomes@);
    let n = crate::bench::runs::accepted_count(outcomes@);
    law_runs_pass_on_the_evidence(
        stored.evidence(n, drained, Some(worker_concurrency as u64), None, window),
        r.correctness_results,
    );
    assert(r.setup@.job_count == r.setup.job_count);
}

/// Claims of a batch size pass on all their jobs, finished; crashes at a failpoint on all of theirs,
/// finished if the driver came to an end.
pub proof fn law_direct_runs_are_recorded(
    env: EnvInfo,
    batch_size: i64,
    name: FailpointName,
    run_number: u32,
    now: Timestamp,
    ids: Vec<u128>,
    quiescent: bool,
    stored: StoredRows,
    window: Option<WindowCheck>,
    claims: RunResult,
    crashes: RunResult,
)
    requires
        call_ensures(
            claim_batch_record,
            (&env, batch_size, run_number, now, &ids, stored, window),
            claims,
        ),
        call_ensures(
            failpoint_record,
            (&env, name, run_number, now, &ids, quiescent, stored, window),
            crashes,
        ),
        ids@.len() <= usize::MAX,
    ensures
        records(claims, "claim_batch"@, run_number, now),
        claims.setup.claim_batch_size == batch_size,
        set_up(claims.setup, 0, 0, 0, 0, ids@.len() as int),
        claims.correctness_results.passed <==> stands_up(
            stored,
            ids@.len(),
            true,
            None,
            None,
            window,
        ),
        records(crashes, "crash_recovery_failpoint"@, run_number, now),
        set_up(crashes.setup, 0, 0, 0, 2, ids@.len() as int),
        crashes.correctness_results.passed <==> stands_up(
            stored,
            ids@.len(),
            quiescent,
            None,
            None,
            window,
        ),
{
    law_runs_pass_on_the_evidence(
        stored.evidence(ids.len(), true, None, None, window),
        claims.correctness_results,
    );
    law_runs_pass_on_the_evidence(
        stored.evidence(ids.len(), quiescent, None, None, window),
        crashes.correctness_results,
    );
    assert(claims.setup@.job_count == claims.setup.job_count);
    assert(crashes.setup@.job_count == crashes.setup.job_count);
}

/// A run with a killed worker passes on the accepted submissions, finished if the queue was drained; one
/// under contention by its own verdict.
pub proof fn law_kills_and_contention_are_recorded(
    env: EnvInfo,
    run_number: u32,
    now: Timestamp,
    outcomes: Vec<SubmitOutcome>,
    drained: bool,
    stored: StoredRows,
    window: Option<WindowCheck>,
    killed: RunResult,
    seen: IdempotencyObservations,
    contended: RunResult,
)
    requires
        call_ensures(
            real_kill_record,
            (&env, run_number, now, &outcomes, drained, stored, window),
            killed,
        ),
        call_ensures(idempotency_record, (&env, run_number, now, &seen), contended),
        outcomes@.len() <= usize::MAX,
    ensures
        records(killed, "crash_recovery_real_kill"@, run_number, now),
        set_up(killed.setup, 1, 2, 0, 5, taken(outcomes@) as int),
        killed.correctness_results.passed <==> stands_up(
            stored,
            taken(outcomes@),
            drained,
            None,
            None,
            window,
        ),
        records(contended, "idempotency_contention"@, run_number, now),
        contended.setup.job_count == seen.concurrency,
        counts_errors(contended.setup.error_counts, seen.shared.other as int),
        contended.correctness_results.passed <==> {
            &&& seen.replay_first == 201 && seen.replay_second == 200 && seen.replay_charges == 1
            &&& seen.shared.created == 1 && seen.shared_charges == 1
            &&& seen.conflict_first == 201 && seen.conflict_second == 409 && seen.conflict_charges
                == 1
        },
{
    law_submissions_are_counted_by_their_identifier(outcomes@);
    let n = crate::bench::runs::accepted_count(outcomes@);
    law_runs_pass_on_the_evidence(
        stored.evidence(n, drained, None, None, window),
        killed.correctness_results,
    );
    law_contention_passes_on_single_charges(seen, contended.correctness_results);
    assert(killed.setup@.job_count == killed.setup.job_count);
    assert(contended.setup@.job_count == contended.setup.job_count);
}

// ---------------------------------------------------------------------------------------------
// Points
// ---------------------------------------------------------------------------------------------

/// Every concurrency is run as often as the configuration says; without one, or a disabled one, nothing
/// is.
pub proof fn law_ingestion_points_cover_the_concurrencies(
    config: BenchConfig,
    points: Vec<IngestionPoint>,
    setting: int,
    number: int,
)
    requires
        call_ensures(ingestion_points, (&config,), points),
        config.ingestion matches Some(cfg) ==> 0 <= setting < cfg.concurrencies@.len(),
        1 <= number <= config.repeat,
    ensures
        config.ingestion is None ==> points@.len() == 0,
        config.ingestion matches Some(cfg) ==> {
            &&& !cfg.enabled ==> points@.len() == 0
            &&& cfg.enabled ==> {
                let run = points@[setting * config.repeat + number - 1];
                &&& points@.len() == cfg.concurrencies@.len() * config.repeat
                &&& 0 <= setting * config.repeat + number - 1 < points@.len()
                &&& run.concurrency == cfg.concurrencies@[setting] && run.run_number == number
            }
        },
{
    if config.ingestion is Some {
        law_ingestion_runs_every_concurrency(
            config.ingestion->0,
            config.repeat,
            setting,
            number,
        );
    }
}

/// The points run each of so many settings so often, one after the other.
pub open spec fn runs_each(points: Seq<SettingPoint>, settings: nat, repeat: u32) -> bool {
    &&& points.len() == settings * repeat
    &&& forall|setting: int, number: int|
        0 <= setting < settings && 1 <= number <= repeat ==> {
            let run = #[trigger] points[place_of(setting, number, repeat)];
            run.setting == setting && run.run_number == number
        }
}

/// Where the run of that number, counted from one, of that setting stands.
pub open spec fn place_of(setting: int, number: int, repeat: u32) -> int {
    setting * repeat + number - 1
}

proof fn lemma_runs_each(settings: nat, repeat: u32)
    requires
        settings <= usize::MAX,
    ensures
        crate::bench::points::setting_series(false, settings, repeat).len() == 0,
        runs_each(crate::bench::points::setting_series(true, settings, repeat), settings, repeat),
{
    let points = crate::bench::points::setting_series(true, settings, repeat);
    assert forall|setting: int, number: int|
        0 <= setting < settings && 1 <= number <= repeat implies {
        let run = #[trigger] points[place_of(setting, number, repeat)];
        run.setting == setting && run.run_number == number
    } by {
        law_listed_settings_are_all_run(settings, repeat, setting, number);
    }
}

/// Every batch size, failure rate, backlog and level of contention is run as often as the configuration
/// says; where a scenario is missing or disabled, nothing is.
pub proof fn law_setting_points_cover_the_settings(
    config: BenchConfig,
    batches: Vec<SettingPoint>,
    rates: Vec<SettingPoint>,
    backlogs: Vec<SettingPoint>,
    levels: Vec<SettingPoint>,
)
    requires
        call_ensures(claim_batch_points, (&config,), batches),
        call_ensures(retry_degradation_points, (&config,), rates),
        call_ensures(backlog_points, (&config,), backlogs),
        call_ensures(idempotency_points, (&config,), levels),
        config.claim_batch matches Some(cfg) ==> cfg.batch_sizes@.len() <= usize::MAX,
        config.retry_degradation matches Some(cfg) ==> cfg.failure_rates@.len() <= usize::MAX,
        config.backlog matches Some(cfg) ==> cfg.backlogs@.len() <= usize::MAX,
        config.idempotency matches Some(cfg) ==> cfg.concurrency_levels@.len() <= usize::MAX,
    ensures
        config.claim_batch matches Some(cfg) && cfg.enabled ==> runs_each(
            batches@,
            config.claim_batch->0.batch_sizes@.len(),
            config.repeat,
        ),
        !(config.claim_batch matches Some(cfg) && cfg.enabled) ==> batches@.len() == 0,
        config.retry_degradation matches Some(cfg) && cfg.enabled ==> runs_each(
            rates@,
            config.retry_degradation->0.failure_rates@.len(),
            config.repeat,
        ),
        !(config.retry_degradation matches Some(cfg) && cfg.enabled) ==> rates@.len() == 0,
        config.backlog matches Some(cfg) && cfg.enabled ==> runs_each(
            backlogs@,
            config.backlog->0.backlogs@.len(),
            config.repeat,
        ),
        !(config.backlog matches Some(cfg) && cfg.enabled) ==> backlogs@.len() == 0,
        config.idempotency matches Some(cfg) && cfg.enabled ==> runs_each(
            levels@,
            config.idempotency->0.concurrency_levels@.len(),
            config.repeat,
        ),
        !(config.idempotency matches Some(cfg) && cfg.enabled) ==> levels@.len() == 0,
{
    if config.claim_batch is Some {
        lemma_runs_each(config.claim_batch->0.batch_sizes@.len(), config.repeat);
    }
    if config.retry_degradation is Some {
        lemma_runs_each(config.retry_degradation->0.failure_rates@.len(), config.repeat);
    }
    if config.backlog is Some {
        lemma_runs_each(config.backlog->0.backlogs@.len(), config.repeat);
    }
    if config.idempotency is Some {
        lemma_runs_each(config.idempotency->0.concurrency_levels@.len(), config.repeat);
    }
}

/// The scenarios that are run are those that were asked for by name, or all of them, each once.
pub proof fn law_selected_scenarios_were_asked_for(
    requested: &str,
    chosen: Vec<Scenario>,
    scenario: Scenario,
    name: &'static str,
)
    requires
        call_ensures(selected_scenarios, (requested,), chosen),
        call_ensures(Scenario::name, (scenario,), name),
    ensures
        chosen@.contains(scenario) <==> requested@ == "all"@ || requested@ == name@,
        name@ == match scenario {
            Scenario::Ingestion => "ingestion"@,
            Scenario::Execution => "execution"@,
            Scenario::Scaling => "scaling"@,
            Scenario::ClaimBatch => "claim_batch"@,
            Scenario::RetryDegradation => "retry_degradation"@,
            Scenario::Backlog => "backlog"@,
            Scenario::CrashRecovery => "crash_recovery"@,
            Scenario::Idempotency => "idempotency"@,
        },
{
    law_scenarios_are_asked_for_by_name(requested@, scenario);
    let p = |s: Scenario| asked_for(requested@, s);
    broadcast use vstd::seq_lib::group_filter_ensures;

    if asked_for(requested@, scenario) {
        let i = all_scenarios().index_of(scenario);
        assert(p(all_scenarios()[i]));
        assert(all_scenarios().filter(p).contains(all_scenarios()[i]));
    }
    if chosen@.contains(scenario) {
        let i = chosen@.index_of(scenario);
        assert(p(all_scenarios().filter(p)[i]));
    }
}

/// Every pair of a latency and a concurrency is run as often as the configuration says, and after all of
/// them every latency of the second sweep, with a tenth of its jobs to warm up.
pub proof fn law_execution_points_cover_both_sweeps(
    config: BenchConfig,
    points: Vec<ExecutionPoint>,
    latency: int,
    concurrency: int,
    number: int,
)
    requires
        call_ensures(execution_points, (&config,), Some(points)),
        1 <= number <= config.repeat,
    ensures
        ({
            let pairs = match config.execution {
                Some(cfg) => if cfg.enabled {
                    cfg.latencies_ms@.len() * cfg.concurrencies@.len() * config.repeat
                } else {
                    0
                },
                None => 0,
            };
            &&& config.execution matches Some(cfg) ==> (cfg.enabled && 0 <= latency
                < cfg.latencies_ms@.len() && 0 <= concurrency < cfg.concurrencies@.len() ==> {
                let place = (latency * cfg.concurrencies@.len() + concurrency) * config.repeat
                    + number - 1;
                let run = points@[place];
                &&& 0 <= place < points@.len()
                &&& run.sweep is Execution && run.latency_ms == cfg.latencies_ms@[latency]
                    && run.concurrency == cfg.concurrencies@[concurrency]
                &&& run.job_count == cfg.job_count && run.warmup_jobs == cfg.warmup_jobs
                    && run.run_number == number
            })
            &&& config.downstream_latency matches Some(cfg) ==> (cfg.enabled && 0 <= latency
                < cfg.latencies_ms@.len() ==> {
                let place = pairs + latency * config.repeat + number - 1;
                let run = points@[place];
                &&& 0 <= place < points@.len()
                &&& run.sweep is DownstreamLatency && run.latency_ms == cfg.latencies_ms@[latency]
                    && run.concurrency == cfg.worker_concurrency
                &&& run.job_count == cfg.job_count && run.warmup_jobs * 10 <= cfg.job_count
                    < run.warmup_jobs * 10 + 10 && run.run_number == number
            })
        }),
{
    let first = execution_series(config.execution, config.repeat);
    let second = downstream_series(config.downstream_latency, config.repeat);
    if config.execution is Some {
        let cfg = config.execution->0;
        if cfg.enabled && 0 <= latency < cfg.latencies_ms@.len() && 0 <= concurrency
            < cfg.concurrencies@.len() {
            law_execution_runs_every_pair(cfg, config.repeat, latency, concurrency, number);
        }
    }
    if config.downstream_latency is Some {
        let cfg = config.downstream_latency->0;
        if cfg.enabled && 0 <= latency < cfg.latencies_ms@.len() {
            law_downstream_runs_every_latency(cfg, config.repeat, latency, number);
            let place = latency * config.repeat + number - 1;
            assert((first + second)[first.len() + place] == second[place]);
        }
    }
}

/// Every pair of workers and concurrency is run as often as the configuration says: those of a fixed
/// total first, then those of a growing one.
pub proof fn law_scaling_points_cover_both_axes(
    config: BenchConfig,
    points: Vec<ScalingPoint>,
    setting: int,
    number: int,
)
    requires
        call_ensures(scaling_points, (&config,), points),
        1 <= number <= config.repeat,
    ensures
        !(config.scaling matches Some(cfg) && cfg.enabled) ==> points@.len() == 0,
        config.scaling matches Some(cfg) ==> (cfg.enabled ==> {
            let fixed = cfg.fixed_total@.len() * config.repeat;
            let place = setting * config.repeat + number - 1;
            &&& 0 <= setting < cfg.fixed_total@.len() ==> {
                let run = points@[place];
                &&& 0 <= place < points@.len()
                &&& run.axis is FixedTotal && run.run_number == number
                &&& (run.worker_count, run.concurrency_per_worker) == cfg.fixed_total@[setting]
                &&& run.job_count == cfg.job_count && run.warmup_jobs == cfg.warmup_jobs
                    && run.latency_ms == cfg.latency_ms
            }
            &&& 0 <= setting < cfg.increasing@.len() ==> {
                let run = points@[fixed + place];
                &&& 0 <= fixed + place < points@.len()
                &&& run.axis is Increasing && run.run_number == number
                &&& (run.worker_count, run.concurrency_per_worker) == cfg.increasing@[setting]
                &&& run.job_count == cfg.job_count && run.warmup_jobs == cfg.warmup_jobs
                    && run.latency_ms == cfg.latency_ms
            }
        }),
{
    if config.scaling is Some {
        let cfg = config.scaling->0;
        let first = scaling_series(cfg, ScalingAxis::FixedTotal, cfg.fixed_total@, config.repeat);
        let second = scaling_series(cfg, ScalingAxis::Increasing, cfg.increasing@, config.repeat);
        if 0 <= setting < cfg.fixed_total@.len() {
            law_scaling_runs_every_pair(
                cfg,
                ScalingAxis::FixedTotal,
                cfg.fixed_total@,
                config.repeat,
                setting,
                number,
            );
        }
        if 0 <= setting < cfg.increasing@.len() {
            law_scaling_runs_every_pair(
                cfg,
                ScalingAxis::Increasing,
                cfg.increasing@,
                config.repeat,
                setting,
                number,
            );
            let place = setting * config.repeat + number - 1;
            assert((first + second)[first.len() + place] == second[place]);
        }
    }
}

/// Crashes are run as often as the configuration says, first that of a process, of three jobs, and then
/// those at each failpoint, of as many as the configuration says.
pub proof fn law_crash_points_cover_the_failpoints(
    config: BenchConfig,
    points: Vec<CrashPoint>,
    number: int,
)
    requires
        call_ensures(crash_recovery_points, (&config,), points),
        1 <= number <= config.repeat,
    ensures
        !(config.crash_recovery matches Some(cfg) && cfg.enabled) ==> points@.len() == 0,
        config.crash_recovery matches Some(cfg) ==> (cfg.enabled ==> {
            let repeat = config.repeat;
            &&& points@.len() == 4 * repeat
            &&& points@[number - 1] == (CrashPoint::RealKill {
                job_count: 3,
                run_number: number as u32,
            })
            &&& points@[repeat + number - 1] == (CrashPoint::Failpoint {
                name: FailpointName::AfterClaimBeforeEffect,
                job_count: cfg.jobs_per_failpoint,
                run_number: number as u32,
            })
            &&& points@[2 * repeat + number - 1] == (CrashPoint::Failpoint {
                name: FailpointName::AfterEffectBeforeFinalize,
                job_count: cfg.jobs_per_failpoint,
                run_number: number as u32,
            })
            &&& points@[3 * repeat + number - 1] == (CrashPoint::Failpoint {
                name: FailpointName::DuringFinalize,
                job_count: cfg.jobs_per_failpoint,
                run_number: number as u32,
            })
        }),
{
    if config.crash_recovery is Some {
        law_crashes_are_tried_everywhere(config.crash_recovery->0, config.repeat, number);
    }
}

// ---------------------------------------------------------------------------------------------
// Processes, files and machines
// ---------------------------------------------------------------------------------------------

/// The programs are started with their database, their address and what the benchmark asks of them.
pub proof fn law_programs_are_started_with_their_settings(
    database_url: &str,
    bind_addr: &str,
    service: Vec<EnvVar>,
    server: Vec<EnvVar>,
    base: String,
)
    requires
        call_ensures(fake_charge_env, (database_url, bind_addr), service),
        call_ensures(api_env, (database_url, bind_addr), server),
        call_ensures(http_base, (bind_addr,), base),
    ensures
        base@ == "http://"@ + bind_addr@,
        service@.len() == 5 && server@.len() == 4,
        sets(service@, 0, "DATABASE_URL"@, database_url@),
        sets(service@, 1, "FAKE_CHARGE_BIND_ADDR"@, bind_addr@),
        sets(service@, 2, "FAKE_CHARGE_ENABLE_TEST_CONTROL"@, "true"@),
        sets(service@, 3, "LOG_FORMAT"@, "pretty"@),
        sets(service@, 4, "RUST_LOG"@, "warn"@),
        sets(server@, 0, "DATABASE_URL"@, database_url@),
        sets(server@, 1, "API_BIND_ADDR"@, bind_addr@),
        sets(server@, 2, "LOG_FORMAT"@, "pretty"@),
        sets(server@, 3, "RUST_LOG"@, "warn"@),
{
    lemma_sets(service@);
    lemma_sets(server@);
}

/// The variable at that place has this name and this value.
pub open spec fn sets(vars: Seq<EnvVar>, i: int, name: Seq<char>, value: Seq<char>) -> bool {
    vars[i].name@ == name && vars[i].value@ == value
}

proof fn lemma_sets(vars: Seq<EnvVar>)
    ensures
        assignments(vars).len() == vars.len(),
        forall|i: int|
            0 <= i < vars.len() ==> sets(
                vars,
                i,
                (#[trigger] assignments(vars)[i]).0,
                assignments(vars)[i].1,
            ),
{
}

/// A worker is started with what its specification says.
pub proof fn law_workers_are_started_with_their_settings(spec: WorkerSpec, vars: Vec<EnvVar>)
    requires
        call_ensures(worker_env, (&spec,), vars),
    ensures
        vars@.len() == (if spec.retry_base_delay_ms is Some { 9int } else { 8int }),
        sets(vars@, 0, "DATABASE_URL"@, spec.database_url@),
        sets(vars@, 1, "WORKER_CHARGE_SERVICE_URL"@, spec.charge_service_url@),
        sets(vars@, 2, "WORKER_CONCURRENCY"@, decimal(spec.concurrency as nat)),
        sets(vars@, 3, "WORKER_LEASE_DURATION_SECS"@, decimal(spec.lease_duration_secs as nat)),
        sets(vars@, 4, "WORKER_POLL_INTERVAL_MS"@, decimal(spec.poll_interval_ms as nat)),
        sets(vars@, 5, "WORKER_METRICS_BIND_ADDR"@, spec.metrics_bind_addr@),
        sets(vars@, 6, "LOG_FORMAT"@, "pretty"@),
        sets(vars@, 7, "RUST_LOG"@, "warn"@),
        spec.retry_base_delay_ms matches Some(base) ==> sets(
            vars@,
            8,
            "WORKER_RETRY_BASE_DELAY_MS"@,
            decimal(base as nat),
        ),
{
    lemma_sets(vars@);
    let said = assignments(vars@);
    assert(said == spec@.env());
    assert(said[0] == ("DATABASE_URL"@, spec.database_url@));
    assert(said[1] == ("WORKER_CHARGE_SERVICE_URL"@, spec.charge_service_url@));
    assert(said[2] == ("WORKER_CONCURRENCY"@, decimal(spec.concurrency as nat)));
    assert(said[3] == ("WORKER_LEASE_DURATION_SECS"@, decimal(spec.lease_duration_secs as nat)));
    assert(said[4] == ("WORKER_POLL_INTERVAL_MS"@, decimal(spec.poll_interval_ms as nat)));
    assert(said[5] == ("WORKER_METRICS_BIND_ADDR"@, spec.metrics_bind_addr@));
    assert(said[6] == ("LOG_FORMAT"@, "pretty"@));
    assert(said[7] == ("RUST_LOG"@, "warn"@));
    if spec.retry_base_delay_ms is Some {
        assert(said[8].0 == "WORKER_RETRY_BASE_DELAY_MS"@);
    }
}

/// A program stands in its directory, unless its name says where it stands.
pub proof fn law_programs_have_their_path(dir: &str, name: &str, path: String)
    requires
        call_ensures(binary_path, (dir, name), path),
    ensures
        name@.len() > 0 && name@[0] == '/' || dir@.len() == 0 ==> path@ == name@,
        !(name@.len() > 0 && name@[0] == '/') && dir@.len() > 0 && dir@.last() == '/' ==> path@
            == dir@ + name@,
        !(name@.len() > 0 && name@[0] == '/') && dir@.len() > 0 && dir@.last() != '/' ==> path@
            == dir@ + seq!['/'] + name@,
{
    law_programs_are_found_in_their_directory(dir@, name@);
}

/// Characters other than letters, digits, `-` and `_` do not get into the names of files, which say of
/// which run they are.
pub proof fn law_files_are_named_plainly(
    s: &str,
    plain: String,
    stamp: &str,
    run_number: u32,
    name: String,
    found: &str,
    is_result: bool,
    i: int,
)
    requires
        call_ensures(sanitize, (s,), plain),
        call_ensures(file_name, (stamp, run_number), name),
        call_ensures(is_json_file, (found,), is_result),
        0 <= i < s@.len(),
    ensures
        plain@.len() == s@.len(),
        ({
            let c = s@[i];
            if 'a' <= c <= 'z' || 'A' <= c <= 'Z' || '0' <= c <= '9' || c == '-' || c == '_' {
                plain@[i] == c
            } else {
                plain@[i] == '_'
            }
        }),
        name@ == stamp@ + "-run"@ + decimal(run_number as nat) + ".json"@,
        is_result <==> found@.len() > 5 && ".json"@.is_suffix_of(found@),
{
    law_sanitized_names_are_plain(s@);
    law_sanitizing_replaces_all_but_plain_characters(s@, i);
}

/// A machine is described as it answered, and what it did not answer is not made up.
pub proof fn law_machines_are_captured(facts: MachineFacts, info: EnvInfo)
    requires
        call_ensures(EnvInfo::capture, (&facts,), info),
    ensures
        facts.git_head matches Some(text) ==> info.git_commit@ == text@,
        facts.git_head is None ==> info.git_commit@ == "unknown"@,
        facts.git_status is None ==> info.git_dirty,
        facts.git_status matches Some(text) ==> (info.git_dirty <==> exists|i: int|
            0 <= i < text@.len() && !crate::text::white_space(#[trigger] text@[i])),
        facts.rustc_version matches Some(text) ==> info.rust_version@ == text@,
        facts.rustc_version is None ==> info.rust_version@ == "unknown"@,
        facts.kernel matches Some(text) ==> info.os_version@ == text@,
        facts.kernel is None ==> info.os_version@ == "unknown"@,
        info.os@ == facts.os@ && info.architecture@ == facts.architecture@,
        info.memory_bytes == facts.memory_bytes,
        facts.parallelism matches Some(n) ==> info.logical_cpu_count == n,
        facts.parallelism is None ==> info.logical_cpu_count == 1,
        info.cpu_model is Some <==> facts.cpu_model is Some,
        info.cpu_model is Some ==> info.cpu_model->0@ == facts.cpu_model->0@,
        info.docker_version is Some <==> facts.docker_version is Some,
        info.docker_version is Some ==> info.docker_version->0@ == facts.docker_version->0@,
{
    law_machines_are_described_as_they_answered(info, facts);
}

/// What a tree is called where nothing is known of it, when it counts as changed, and how memory is
/// counted.
pub proof fn law_answers_are_read(
    text: Option<String>,
    dirty: bool,
    shown: String,
    kib: u64,
    bytes: u64,
)
    requires
        call_ensures(is_dirty, (&text,), dirty),
        call_ensures(or_unknown, (&text,), shown),
        call_ensures(kib_to_bytes, (kib,), bytes),
    ensures
        text is None ==> dirty && shown@ == "unknown"@,
        text matches Some(t) ==> shown@ == t@ && (dirty <==> exists|i: int|
            0 <= i < t@.len() && !crate::text::white_space(#[trigger] t@[i])),
        bytes == kib * 1024,
{
}

/// The record has these parameters, in this order.
pub open spec fn has_fields(p: Params, fields: Seq<(Seq<char>, Seq<char>)>) -> bool {
    p matches Params::Fields(v) && v@.len() == fields.len() && forall|i: int|
        0 <= i < fields.len() ==> v@[i].key@ == (#[trigger] fields[i]).0 && v@[i].value@
            == fields[i].1
}

proof fn lemma_fields(p: Params, fields: Seq<(Seq<char>, Seq<char>)>)
    requires
        p matches Params::Fields(v) && param_texts(v@) == fields,
    ensures
        has_fields(p, fields),
{
    let v = p->Fields_0@;
    assert(param_texts(v).len() == v.len());
    assert forall|i: int| 0 <= i < fields.len() implies v[i].key@ == (#[trigger] fields[i]).0
        && v[i].value@ == fields[i].1 by {
        assert(param_texts(v)[i] == (v[i].key@, v[i].value@));
    }
}

/// Each run is on record with the parameters that set it apart.
pub proof fn law_runs_are_set_apart_by_their_parameters(
    ingestion: IngestionPoint,
    a: Params,
    execution: ExecutionPoint,
    b: Params,
    rate: &str,
    c: Params,
    backlog: u64,
    d: Params,
    batch_size: i64,
    e: Params,
    name: FailpointName,
    f: Params,
    g: Params,
    level: u32,
    h: Params,
)
    requires
        call_ensures(ingestion_params, (&ingestion,), a),
        call_ensures(execution_params, (&execution,), b),
        call_ensures(retry_degradation_params, (rate,), c),
        call_ensures(backlog_params, (backlog,), d),
        call_ensures(claim_batch_params, (batch_size,), e),
        call_ensures(failpoint_params, (name,), f),
        call_ensures(real_kill_params, (), g),
        call_ensures(idempotency_params, (level,), h),
    ensures
        has_fields(a, seq![("concurrency"@, decimal(ingestion.concurrency as nat))]),
        has_fields(
            b,
            seq![
                ("downstream_latency_ms"@, decimal(execution.latency_ms as nat)),
                ("worker_concurrency"@, decimal(execution.concurrency as nat)),
            ],
        ),
        has_fields(c, seq![("transient_failure_rate"@, rate@)]),
        has_fields(d, seq![("backlog_size"@, decimal(backlog as nat))]),
        has_fields(e, seq![("batch_size"@, signed_decimal(batch_size as int))]),
        name is AfterClaimBeforeEffect ==> has_fields(
            f,
            seq![("failpoint"@, in_quotes("after_claim_before_effect"@))],
        ),
        name is AfterEffectBeforeFinalize ==> has_fields(
            f,
            seq![("failpoint"@, in_quotes("after_effect_before_finalize"@))],
        ),
        name is DuringFinalize ==> has_fields(
            f,
            seq![("failpoint"@, in_quotes("during_finalize"@))],
        ),
        has_fields(g, seq![("lease_duration_secs"@, decimal(5))]),
        has_fields(h, seq![("concurrency"@, decimal(level as nat))]),
{
    lemma_fields(a, param_texts(a->Fields_0@));
    lemma_fields(b, param_texts(b->Fields_0@));
    lemma_fields(c, param_texts(c->Fields_0@));
    lemma_fields(d, param_texts(d->Fields_0@));
    lemma_fields(e, param_texts(e->Fields_0@));
    lemma_fields(f, param_texts(f->Fields_0@));
    lemma_fields(g, param_texts(g->Fields_0@));
    lemma_fields(h, param_texts(h->Fields_0@));
}

/// A run of several workers is set apart by its axis, its workers and their concurrency.
pub proof fn law_scaling_is_set_apart_by_its_workers(point: ScalingPoint, p: Params)
    requires
        call_ensures(scaling_params, (&point,), p),
    ensures
        has_fields(
            p,
            seq![
                (
                    "axis"@,
                    in_quotes(
                        match point.axis {
                            ScalingAxis::FixedTotal => "fixed_total_concurrency"@,
                            ScalingAxis::Increasing => "increasing_total_concurrency"@,
                        },
                    ),
                ),
                ("concurrency_per_worker"@, decimal(point.concurrency_per_worker as nat)),
                (
                    "total_concurrency"@,
                    decimal((point.worker_count * point.concurrency_per_worker) as nat),
                ),
                ("worker_count"@, decimal(point.worker_count as nat)),
            ],
        ),
{
    lemma_fields(p, param_texts(p->Fields_0@));
}

/// A record that was not judged has not passed, and stands where its scenario, its parameters, its time
/// and its number say.
pub proof fn law_records_begin_unjudged(
    env: EnvInfo,
    scenario: &str,
    params: Params,
    run_number: u32,
    now: Timestamp,
    r: RunResult,
    p: ResultPath,
)
    requires
        call_ensures(RunResult::base, (&env, scenario, params, run_number, now), r),
        call_ensures(RunResult::path, (&r,), p),
    ensures
        records(r, scenario@, run_number, now),
        r.scenario_params == params,
        !r.correctness_results.passed && r.correctness_results.checks is None,
        set_up(r.setup, 0, 0, 0, 0, 0),
        counts_errors(r.setup.error_counts, 0),
        r.setup.throughput_unit@ == "jobs_per_sec"@,
        p.scenario_dir@ == sanitized(scenario@),
        p.params_dir@ == sanitized(params.fragment()),
        p.file_name@ == formatted_time(now.secs, now.nanos, "%Y%m%dT%H%M%S%.3fZ"@) + "-run"@
            + decimal(run_number as nat) + ".json"@,
{
    assert(r.setup@.job_count == r.setup.job_count);
}

/// A sample of a process is its first two words: its share of a processor and its memory.
pub proof fn law_samples_are_read(printed: &str, r: Option<ProcessSample>)
    requires
        call_ensures(process_sample, (printed,), r),
    ensures
        r is Some <==> (second_word(printed@) matches Some(rss) && crate::text::unsigned_value(rss) matches Some(n)
            && n <= u64::MAX) && first_word(printed@) is Some,
        r matches Some(sample) ==> first_word(printed@) == Some(sample.cpu_text@)
            && crate::text::unsigned_value(second_word(printed@)->0) == Some(sample.rss_kib as nat),
{
}

/// Each kind of request of a run has a key of its own.
pub proof fn law_keys_are_made_of_the_run(
    run_number: u32,
    i: u32,
    unique: String,
    amount: i64,
    replay: String,
    shared: String,
    conflict: String,
)
    requires
        call_ensures(unique_key, (run_number, i), unique),
        call_ensures(unique_amount_cents, (i,), amount),
        call_ensures(replay_key, (run_number,), replay),
        call_ensures(shared_key, (run_number,), shared),
        call_ensures(conflict_key, (run_number,), conflict),
    ensures
        unique@ == "bench-unique-"@ + decimal(run_number as nat) + "-"@ + decimal(i as nat),
        amount == 100 + i,
        replay@ == "bench-replay-"@ + decimal(run_number as nat),
        shared@ == "bench-shared-"@ + decimal(run_number as nat),
        conflict@ == "bench-conflict-"@ + decimal(run_number as nat),
{
}

} // verus!
