//! The records of finished runs: what was counted, and the verdict on it.

use crate::bench::env_info::EnvInfo;
use crate::bench::failpoint::{label_text, FailpointName};
use crate::bench::gate::{
    judge_idempotency, run_gate, CorrectnessResults, GateInput, IdempotencyObservations, TrackedJob,
    WindowCheck,
};
use crate::bench::points::{ExecutionPoint, IngestionPoint, ScalingPoint};
use crate::bench::record::{
    backlog_params, backlog_setup, claim_batch_params, claim_batch_setup, compressed_retries,
    execution_params, execution_setup, failpoint_params, failpoint_setup, http_errors,
    idempotency_params, idempotency_setup, in_quotes, ingestion_params, ingestion_setup, param_texts,
    real_kill_params, real_kill_setup, retry_degradation_params, retry_degradation_setup,
    scaling_params, scaling_setup, ErrorCounts, Params, RunResult, RunSetup, SetupFacts,
};
use crate::bench::submit::{accepted, tally_submissions, SubmitOutcome};
use crate::text::{decimal, signed_decimal};
use crate::time::Timestamp;
use vstd::prelude::*;

verus! {

/// What is stored of the jobs of a run.
#[derive(Debug)]
pub struct StoredRows {
    /// Those of the jobs that were found.
    pub found: Vec<TrackedJob>,
    /// The idempotency keys of the charges made for these jobs, one for each charge.
    pub charge_keys: Vec<String>,
    /// The jobs of the attempts that succeeded, one for each attempt.
    pub succeeded_jobs: Vec<u128>,
}

impl StoredRows {
    /// What the verdict on the jobs of a run rests on.
    pub open spec fn evidence(
        self,
        submitted: usize,
        expect_all_terminal: bool,
        worker_capacity: Option<u64>,
        observed_peak_inflight: Option<u64>,
        window: Option<WindowCheck>,
    ) -> GateInput {
        GateInput {
            submitted,
            found: self.found,
            expect_all_terminal,
            charge_keys: self.charge_keys,
            succeeded_jobs: self.succeeded_jobs,
            worker_capacity,
            observed_peak_inflight,
            window,
        }
    }

    fn judge(
        self,
        submitted: usize,
        expect_all_terminal: bool,
        worker_capacity: Option<u64>,
        observed_peak_inflight: Option<u64>,
        window: Option<WindowCheck>,
    ) -> (r: CorrectnessResults)
        ensures
            r.is_verdict_on(
                self.evidence(
                    submitted,
                    expect_all_terminal,
                    worker_capacity,
                    observed_peak_inflight,
                    window,
                ),
            ),
    {
        run_gate(
            &GateInput {
                submitted,
                found: self.found,
                expect_all_terminal,
                charge_keys: self.charge_keys,
                succeeded_jobs: self.succeeded_jobs,
                worker_capacity,
                observed_peak_inflight,
                window,
            },
        )
    }
}

/// How many submissions were accepted.
pub open spec fn accepted_count(outcomes: Seq<SubmitOutcome>) -> usize {
    accepted(outcomes).len() as usize
}

/// How many submissions were not.
pub open spec fn failed_count(outcomes: Seq<SubmitOutcome>) -> usize {
    (outcomes.len() - accepted(outcomes).len()) as usize
}

/// No more submissions are accepted than are made.
pub proof fn law_accepted_and_failed_submissions_add_up(outcomes: Seq<SubmitOutcome>)
    ensures
        accepted(outcomes).len() <= outcomes.len(),
        outcomes.len() <= usize::MAX ==> accepted_count(outcomes) + failed_count(outcomes)
            == outcomes.len(),
    decreases outcomes.len(),
{
    if outcomes.len() > 0 {
        law_accepted_and_failed_submissions_add_up(outcomes.drop_last());
    }
}

/// The parameters of a record.
pub open spec fn has_params(r: RunResult, fields: Seq<(Seq<char>, Seq<char>)>) -> bool {
    r.scenario_params matches Params::Fields(v) && param_texts(v@) == fields
}

/// A finished run.
fn finished(
    env: &EnvInfo,
    scenario: &str,
    params: Params,
    run_number: u32,
    now: Timestamp,
    setup: RunSetup,
    correctness_results: CorrectnessResults,
) -> (r: RunResult)
    ensures
        r.is_of(*env, scenario@, run_number, now),
        r.scenario_params == params,
        r.setup == setup,
        r.correctness_results == correctness_results,
{
    let mut r = RunResult::base(env, scenario, params, run_number, now);
    r.setup = setup;
    r.correctness_results = correctness_results;
    r
}

/// Ingestion: every submission counts; the accepted ones must be found. Nothing is executed.
pub fn ingestion_record(
    env: &EnvInfo,
    point: &IngestionPoint,
    now: Timestamp,
    outcomes: &Vec<SubmitOutcome>,
    stored: StoredRows,
    window: Option<WindowCheck>,
) -> (r: RunResult)
    ensures
        r.is_of(*env, "ingestion"@, point.run_number, now),
        has_params(r, seq![("concurrency"@, decimal(point.concurrency as nat))]),
        r.setup@ == (SetupFacts {
            api_process_count: 1,
            job_count: outcomes.len() as u64,
            throughput_unit: "requests_per_sec"@,
            error_counts: http_errors(failed_count(outcomes@)),
            ..SetupFacts::base()
        }),
        r.correctness_results.is_verdict_on(
            stored.evidence(accepted_count(outcomes@), false, None, None, window),
        ),
{
    let (ids, failed) = tally_submissions(outcomes);
    finished(
        env,
        "ingestion",
        ingestion_params(point),
        point.run_number,
        now,
        ingestion_setup(outcomes.len(), failed),
        stored.judge(ids.len(), false, None, None, window),
    )
}

/// Execution: the accepted jobs count, and are judged. If the queue drained they must all be finished.
pub fn execution_record(
    env: &EnvInfo,
    point: &ExecutionPoint,
    now: Timestamp,
    outcomes: &Vec<SubmitOutcome>,
    drained: bool,
    stored: StoredRows,
    peak: Option<u64>,
    window: Option<WindowCheck>,
) -> (r: RunResult)
    ensures
        r.is_of(*env, point.sweep.text(), point.run_number, now),
        has_params(
            r,
            seq![
                ("downstream_latency_ms"@, decimal(point.latency_ms as nat)),
                ("worker_concurrency"@, decimal(point.concurrency as nat)),
            ],
        ),
        r.setup@ == (SetupFacts {
            api_process_count: 1,
            worker_process_count: 1,
            worker_concurrency: point.concurrency,
            lease_duration_secs: 10,
            fake_charge_latency_ms: point.latency_ms,
            job_count: accepted_count(outcomes@) as u64,
            error_counts: http_errors(failed_count(outcomes@)),
            ..SetupFacts::base()
        }),
        r.setup@.job_count == accepted(outcomes@).len(),
        r.setup@.job_count + r.setup@.error_counts.http_errors == outcomes.len(),
        r.correctness_results.is_verdict_on(
            stored.evidence(
                accepted_count(outcomes@),
                drained,
                Some(point.concurrency as u64),
                peak,
                window,
            ),
        ),
{
    let (ids, failed) = tally_submissions(outcomes);
    finished(
        env,
        point.sweep.name(),
        execution_params(point),
        point.run_number,
        now,
        execution_setup(point, ids.len(), failed),
        stored.judge(ids.len(), drained, Some(point.concurrency as u64), peak, window),
    )
}

/// Scaling: as execution, with the capacity of all workers together.
pub fn scaling_record(
    env: &EnvInfo,
    point: &ScalingPoint,
    now: Timestamp,
    outcomes: &Vec<SubmitOutcome>,
    drained: bool,
    stored: StoredRows,
    peak: Option<u64>,
    window: Option<WindowCheck>,
) -> (r: RunResult)
    requires
        point.worker_count * point.concurrency_per_worker <= u32::MAX,
    ensures
        r.is_of(*env, "scaling"@, point.run_number, now),
        has_params(
            r,
            seq![
                ("axis"@, in_quotes(point.axis.text())),
                ("concurrency_per_worker"@, decimal(point.concurrency_per_worker as nat)),
                (
                    "total_concurrency"@,
                    decimal((point.worker_count * point.concurrency_per_worker) as nat),
                ),
                ("worker_count"@, decimal(point.worker_count as nat)),
            ],
        ),
        r.setup@ == (SetupFacts {
            api_process_count: 1,
            worker_process_count: point.worker_count,
            worker_concurrency: point.concurrency_per_worker,
            lease_duration_secs: 10,
            fake_charge_latency_ms: point.latency_ms,
            job_count: accepted_count(outcomes@) as u64,
            error_counts: http_errors(failed_count(outcomes@)),
            ..SetupFacts::base()
        }),
        r.setup@.job_count == accepted(outcomes@).len(),
        r.setup@.job_count + r.setup@.error_counts.http_errors == outcomes.len(),
        r.correctness_results.is_verdict_on(
            stored.evidence(
                accepted_count(outcomes@),
                drained,
                Some((point.worker_count * point.concurrency_per_worker) as u64),
                peak,
                window,
            ),
        ),
{
    let (ids, failed) = tally_submissions(outcomes);
    let capacity: u32 = point.worker_count * point.concurrency_per_worker;
    finished(
        env,
        "scaling",
        scaling_params(point),
        point.run_number,
        now,
        scaling_setup(point, ids.len(), failed),
        stored.judge(ids.len(), drained, Some(capacity as u64), peak, window),
    )
}

/// Retry degradation: as execution; submissions that failed are not counted as errors. The rate is given
/// as it is written in JSON and as it is written in words.
pub fn retry_degradation_record(
    env: &EnvInfo,
    worker_concurrency: u32,
    rate_json: &str,
    rate_text: &str,
    run_number: u32,
    now: Timestamp,
    outcomes: &Vec<SubmitOutcome>,
    drained: bool,
    stored: StoredRows,
    peak: Option<u64>,
    window: Option<WindowCheck>,
) -> (r: RunResult)
    ensures
        r.is_of(*env, "retry_degradation"@, run_number, now),
        has_params(r, seq![("transient_failure_rate"@, rate_json@)]),
        r.setup@ == (SetupFacts {
            api_process_count: 1,
            worker_process_count: 1,
            worker_concurrency,
            lease_duration_secs: 10,
            retry_configuration: Some(compressed_retries()),
            fake_charge_failure_mode: "fail_rate="@ + rate_text@,
            job_count: accepted_count(outcomes@) as u64,
            ..SetupFacts::base()
        }),
        r.setup@.job_count == accepted(outcomes@).len(),
        r.correctness_results.is_verdict_on(
            stored.evidence(
                accepted_count(outcomes@),
                drained,
                Some(worker_concurrency as u64),
                peak,
                window,
            ),
        ),
{
    let (ids, _failed) = tally_submissions(outcomes);
    finished(
        env,
        "retry_degradation",
        retry_degradation_params(rate_json),
        run_number,
        now,
        retry_degradation_setup(worker_concurrency, rate_text, ids.len()),
        stored.judge(ids.len(), drained, Some(worker_concurrency as u64), peak, window),
    )
}

/// Backlog: as execution, without a look at the requests in progress.
pub fn backlog_record(
    env: &EnvInfo,
    worker_concurrency: u32,
    backlog: u64,
    run_number: u32,
    now: Timestamp,
    outcomes: &Vec<SubmitOutcome>,
    drained: bool,
    stored: StoredRows,
    window: Option<WindowCheck>,
) -> (r: RunResult)
    ensures
        r.is_of(*env, "backlog"@, run_number, now),
        has_params(r, seq![("backlog_size"@, decimal(backlog as nat))]),
        r.setup@ == (SetupFacts {
            api_process_count: 1,
            worker_process_count: 1,
            worker_concurrency,
            lease_duration_secs: 15,
            job_count: accepted_count(outcomes@) as u64,
            error_counts: http_errors(failed_count(outcomes@)),
            ..SetupFacts::base()
        }),
        r.setup@.job_count == accepted(outcomes@).len(),
        r.setup@.job_count + r.setup@.error_counts.http_errors == outcomes.len(),
        r.correctness_results.is_verdict_on(
            stored.evidence(
                accepted_count(outcomes@),
                drained,
                Some(worker_concurrency as u64),
                None,
                window,
            ),
        ),
{
    let (ids, failed) = tally_submissions(outcomes);
    finished(
        env,
        "backlog",
        backlog_params(backlog),
        run_number,
        now,
        backlog_setup(worker_concurrency, ids.len(), failed),
        stored.judge(ids.len(), drained, Some(worker_concurrency as u64), None, window),
    )
}

/// Claim batch: the jobs `ids` were put into the store, and must all be finished.
pub fn claim_batch_record(
    env: &EnvInfo,
    batch_size: i64,
    run_number: u32,
    now: Timestamp,
    ids: &Vec<u128>,
    stored: StoredRows,
    window: Option<WindowCheck>,
) -> (r: RunResult)
    ensures
        r.is_of(*env, "claim_batch"@, run_number, now),
        has_params(r, seq![("batch_size"@, signed_decimal(batch_size as int))]),
        r.setup@ == (SetupFacts {
            claim_batch_size: batch_size,
            job_count: ids.len() as u64,
            ..SetupFacts::base()
        }),
        r.correctness_results.is_verdict_on(
            stored.evidence(ids.len(), true, None, None, window),
        ),
{
    finished(
        env,
        "claim_batch",
        claim_batch_params(batch_size),
        run_number,
        now,
        claim_batch_setup(batch_size, ids.len()),
        stored.judge(ids.len(), true, None, None, window),
    )
}

/// Failpoint: the jobs `ids` were put into the store. If no job was left in the end they must all be
/// finished.
pub fn failpoint_record(
    env: &EnvInfo,
    name: FailpointName,
    run_number: u32,
    now: Timestamp,
    ids: &Vec<u128>,
    reached_quiescence: bool,
    stored: StoredRows,
    window: Option<WindowCheck>,
) -> (r: RunResult)
    ensures
        r.is_of(*env, "crash_recovery_failpoint"@, run_number, now),
        has_params(r, seq![("failpoint"@, in_quotes(label_text(name)))]),
        r.setup@ == (SetupFacts {
            lease_duration_secs: 2,
            job_count: ids.len() as u64,
            ..SetupFacts::base()
        }),
        r.correctness_results.is_verdict_on(
            stored.evidence(ids.len(), reached_quiescence, None, None, window),
        ),
{
    finished(
        env,
        "crash_recovery_failpoint",
        failpoint_params(name),
        run_number,
        now,
        failpoint_setup(ids.len()),
        stored.judge(ids.len(), reached_quiescence, None, None, window),
    )
}

/// Real kill: the accepted jobs count, and are judged. If the queue drained they must all be finished.
pub fn real_kill_record(
    env: &EnvInfo,
    run_number: u32,
    now: Timestamp,
    outcomes: &Vec<SubmitOutcome>,
    drained: bool,
    stored: StoredRows,
    window: Option<WindowCheck>,
) -> (r: RunResult)
    ensures
        r.is_of(*env, "crash_recovery_real_kill"@, run_number, now),
        has_params(r, seq![("lease_duration_secs"@, decimal(5))]),
        r.setup@ == (SetupFacts {
            api_process_count: 1,
            worker_process_count: 2,
            lease_duration_secs: 5,
            job_count: accepted_count(outcomes@) as u64,
            ..SetupFacts::base()
        }),
        r.setup@.job_count == accepted(outcomes@).len(),
        r.correctness_results.is_verdict_on(
            stored.evidence(accepted_count(outcomes@), drained, None, None, window),
        ),
{
    let (ids, _failed) = tally_submissions(outcomes);
    finished(
        env,
        "crash_recovery_real_kill",
        real_kill_params(),
        run_number,
        now,
        real_kill_setup(ids.len()),
        stored.judge(ids.len(), drained, None, None, window),
    )
}

/// Idempotency: the requests that share a key count, and what was seen of them is judged.
pub fn idempotency_record(
    env: &EnvInfo,
    run_number: u32,
    now: Timestamp,
    seen: &IdempotencyObservations,
) -> (r: RunResult)
    ensures
        r.is_of(*env, "idempotency_contention"@, run_number, now),
        has_params(r, seq![("concurrency"@, decimal(seen.concurrency as nat))]),
        r.setup@ == (SetupFacts {
            job_count: seen.concurrency as u64,
            throughput_unit: "requests_per_sec"@,
            error_counts: ErrorCounts {
                http_errors: seen.shared.other as u64,
                timeouts: 0,
                other: 0,
            },
            ..SetupFacts::base()
        }),
        r.correctness_results.is_idempotency_verdict_on(*seen),
{
    finished(
        env,
        "idempotency_contention",
        idempotency_params(seen.concurrency),
        run_number,
        now,
        idempotency_setup(seen.concurrency, seen.shared.other),
        judge_idempotency(seen),
    )
}

/// A verdict rests on what is stored, and on what is known of the run, without any change.
pub proof fn law_evidence_is_what_was_handed_in(
    stored: StoredRows,
    submitted: usize,
    expect_all_terminal: bool,
    worker_capacity: Option<u64>,
    observed_peak_inflight: Option<u64>,
    window: Option<WindowCheck>,
)
    ensures
        ({
            let evidence = stored.evidence(
                submitted,
                expect_all_terminal,
                worker_capacity,
                observed_peak_inflight,
                window,
            );
            &&& evidence.submitted == submitted
            &&& evidence.found == stored.found && evidence.charge_keys == stored.charge_keys
                && evidence.succeeded_jobs == stored.succeeded_jobs
            &&& evidence.expect_all_terminal == expect_all_terminal
            &&& evidence.worker_capacity == worker_capacity && evidence.observed_peak_inflight
                == observed_peak_inflight
            &&& evidence.window == window
        }),
{
}

/// As many submissions were accepted as have an identifier, and as many failed as have none.
pub proof fn law_submissions_are_counted_by_their_identifier(outcomes: Seq<SubmitOutcome>)
    requires
        outcomes.len() <= usize::MAX,
    ensures
        accepted_count(outcomes) == outcomes.filter(|o: SubmitOutcome| o.id is Some).len(),
        failed_count(outcomes) == outcomes.len() - outcomes.filter(
            |o: SubmitOutcome| o.id is Some,
        ).len(),
{
    law_accepted_and_failed_submissions_add_up(outcomes);
    crate::bench::submit::law_accepted_jobs_are_those_with_an_identifier(
        outcomes,
        SubmitOutcome { status: 0, id: None },
    );
}

/// A record holds its parameters under their names, in that order.
pub proof fn law_records_hold_their_parameters(r: RunResult, fields: Seq<(Seq<char>, Seq<char>)>)
    ensures
        has_params(r, fields) <==> {
            &&& r.scenario_params matches Params::Fields(v)
            &&& v@.len() == fields.len()
            &&& forall|i: int|
                0 <= i < fields.len() ==> v@[i].key@ == (#[trigger] fields[i]).0 && v@[i].value@
                    == fields[i].1
        },
{
    if r.scenario_params is Fields {
        let v = r.scenario_params->Fields_0;
        if has_params(r, fields) {
            assert forall|i: int| 0 <= i < fields.len() implies v@[i].key@ == (
            #[trigger] fields[i]).0 && v@[i].value@ == fields[i].1 by {
                assert(param_texts(v@)[i] == (v@[i].key@, v@[i].value@));
            }
        }
        if v@.len() == fields.len() && (forall|i: int|
            0 <= i < fields.len() ==> v@[i].key@ == (#[trigger] fields[i]).0 && v@[i].value@
                == fields[i].1) {
            assert(param_texts(v@) =~= fields);
        }
    }
}

} // verus!
