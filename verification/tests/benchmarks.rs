//! Which benchmark runs there are, what they do, and how they are judged and recorded.

use reliableq::bench::config::{
    default_repeat, default_scaling_latency_ms, BacklogConfig, BenchConfig, ClaimBatchConfig,
    CrashRecoveryConfig, DownstreamLatencyConfig, EnvironmentConfig, ExecutionConfig, FailureRate,
    IdempotencyConfig, IngestionConfig, RetryDegradationConfig, ScalingConfig,
};
use reliableq::bench::env_info::{
    cpu_model, memory_bytes, memory_kib, take_first_word, take_second_word, EnvInfo, MachineFacts,
    PostgresFacts,
};
use reliableq::bench::failpoint::{failpoint_label, CrashFirstAttempt, FailpointName};
use reliableq::bench::gate::{
    count_repeated_ids, count_repeated_texts, judge_idempotency, run_gate, tally_shared,
    tracked_keys, CheckValue, CorrectnessResults, GateInput, IdempotencyObservations,
    SharedKeyTally, TrackedJob, WindowCheck,
};
use reliableq::bench::points::{
    backlog_points, claim_batch_points, crash_recovery_points, execution_points,
    idempotency_points, ingestion_points, retry_degradation_points, scaling_points,
    selected_scenarios, CrashPoint, ExecutionPoint, ExecutionSweep, IngestionPoint, Scenario,
    ScalingAxis, ScalingPoint,
};
use reliableq::bench::procs::{
    api_env, binary_path, fake_charge_env, worker_env, EnvVar, WorkerSpec,
};
use reliableq::bench::record::{
    backlog_params, backlog_setup, claim_batch_params, claim_batch_setup, execution_params, execution_setup,
    failpoint_params, failpoint_setup, idempotency_params, idempotency_setup, ingestion_params,
    ingestion_setup, is_json_file, params_fragment, real_kill_params, real_kill_setup, result_path,
    retry_degradation_params, retry_degradation_setup, sanitize, scaling_params, scaling_setup,
    ErrorCounts, Params, RunResult, RunSetup, RunStatus,
};
use reliableq::bench::resource::{container_cpu_text, peak, process_sample};
use reliableq::bench::runs::{
    backlog_record, claim_batch_record, execution_record, failpoint_record, idempotency_record,
    ingestion_record, real_kill_record, retry_degradation_record, scaling_record, StoredRows,
};
use reliableq::bench::submit::{
    batch_step, charge_payload, drain_step, driver_step, permits, ready_step, submit_outcome,
    tally_submissions, BatchStep, DriverEvent, DriverStep, SubmitOutcome, Wait,
};
use reliableq::bench::workload::{
    backlog_plan, claim_batch_plan, conflict_key, execution_plan, failpoint_plan, ingestion_plan,
    real_kill_plan, replay_key, retry_degradation_plan, scaling_plan, shared_key,
    unique_amount_cents, unique_key, Downstream, DrainWait,
};
use reliableq::config::{EnvValue, Environment, WorkerConfig};
use reliableq::time::{Duration, Timestamp};
use reliableq::validation::validate_charge_payload;

fn environment() -> EnvironmentConfig {
    EnvironmentConfig {
        api_bind: "127.0.0.1:18080".to_string(),
        worker_metrics_bind_base_port: 19090,
        fake_charge_bind: "127.0.0.1:18081".to_string(),
        database_url: "postgres://localhost/reliableq".to_string(),
        binary_dir: "target/release".to_string(),
    }
}

fn profile() -> BenchConfig {
    BenchConfig {
        environment: environment(),
        repeat: 2,
        ingestion: Some(IngestionConfig {
            enabled: true,
            requests: 100,
            warmup_requests: 10,
            concurrencies: vec![1, 8],
        }),
        execution: Some(ExecutionConfig {
            enabled: true,
            job_count: 50,
            warmup_jobs: 5,
            concurrencies: vec![1, 4],
            latencies_ms: vec![0, 100],
        }),
        scaling: Some(ScalingConfig {
            enabled: true,
            job_count: 60,
            warmup_jobs: 6,
            fixed_total: vec![(1, 8)],
            increasing: vec![(1, 4), (2, 4)],
            latency_ms: 20,
        }),
        claim_batch: Some(ClaimBatchConfig {
            enabled: true,
            job_count: 30,
            batch_sizes: vec![1, 10],
        }),
        downstream_latency: Some(DownstreamLatencyConfig {
            enabled: true,
            job_count: 45,
            worker_concurrency: 8,
            latencies_ms: vec![10],
        }),
        retry_degradation: Some(RetryDegradationConfig {
            enabled: true,
            job_count: 20,
            worker_concurrency: 4,
            failure_rates: vec![rate(false, "0"), rate(true, "0.5")],
        }),
        backlog: Some(BacklogConfig {
            enabled: false,
            backlogs: vec![1000],
            worker_concurrency: 16,
        }),
        crash_recovery: Some(CrashRecoveryConfig {
            enabled: true,
            jobs_per_failpoint: 5,
        }),
        idempotency: None,
    }
}

fn rate(positive: bool, text: &str) -> FailureRate {
    FailureRate {
        positive,
        text: text.to_string(),
    }
}

// --- which runs there are ---

#[test]
fn scenarios_are_asked_for_by_name_or_all_at_once() {
    assert_eq!(selected_scenarios("backlog"), [Scenario::Backlog]);
    assert_eq!(selected_scenarios("nonsense"), []);
    let names: Vec<&str> = selected_scenarios("all").iter().map(|s| s.name()).collect();
    assert_eq!(
        names,
        [
            "ingestion",
            "execution",
            "scaling",
            "claim_batch",
            "retry_degradation",
            "backlog",
            "crash_recovery",
            "idempotency",
        ]
    );
}

#[test]
fn every_setting_is_run_as_often_as_asked_for() {
    let runs: Vec<(u32, u32)> = ingestion_points(&profile())
        .iter()
        .map(|p| (p.concurrency, p.run_number))
        .collect();
    assert_eq!(runs, [(1, 1), (1, 2), (8, 1), (8, 2)]);

    let batches: Vec<(usize, u32)> = claim_batch_points(&profile())
        .iter()
        .map(|p| (p.setting, p.run_number))
        .collect();
    assert_eq!(batches, [(0, 1), (0, 2), (1, 1), (1, 2)]);
    assert_eq!(retry_degradation_points(&profile()).len(), 4);
    // Not enabled, and not there at all.
    assert!(backlog_points(&profile()).is_empty());
    assert!(idempotency_points(&profile()).is_empty());

    let mut other = profile();
    other.repeat = 0;
    other.idempotency = Some(IdempotencyConfig {
        enabled: true,
        concurrency_levels: vec![4],
    });
    assert!(ingestion_points(&other).is_empty());
    assert!(idempotency_points(&other).is_empty());
    other.repeat = 1;
    assert_eq!(idempotency_points(&other).len(), 1);
}

#[test]
fn execution_runs_over_latencies_and_concurrencies_and_then_over_latencies() {
    let points = execution_points(&profile()).unwrap();
    let runs: Vec<(ExecutionSweep, u64, u32, u64, u64, u32)> = points
        .iter()
        .map(|p| {
            (
                p.sweep,
                p.latency_ms,
                p.concurrency,
                p.job_count,
                p.warmup_jobs,
                p.run_number,
            )
        })
        .collect();
    let first = ExecutionSweep::Execution;
    let second = ExecutionSweep::DownstreamLatency;
    assert_eq!(
        runs,
        [
            (first, 0, 1, 50, 5, 1),
            (first, 0, 1, 50, 5, 2),
            (first, 0, 4, 50, 5, 1),
            (first, 0, 4, 50, 5, 2),
            (first, 100, 1, 50, 5, 1),
            (first, 100, 1, 50, 5, 2),
            (first, 100, 4, 50, 5, 1),
            (first, 100, 4, 50, 5, 2),
            (second, 10, 8, 45, 4, 1),
            (second, 10, 8, 45, 4, 2),
        ]
    );
}

#[test]
fn scaling_runs_go_along_two_axes() {
    let runs: Vec<(ScalingAxis, u32, u32, u32)> = scaling_points(&profile())
        .iter()
        .map(|p| (p.axis, p.worker_count, p.concurrency_per_worker, p.run_number))
        .collect();
    assert_eq!(
        runs,
        [
            (ScalingAxis::FixedTotal, 1, 8, 1),
            (ScalingAxis::FixedTotal, 1, 8, 2),
            (ScalingAxis::Increasing, 1, 4, 1),
            (ScalingAxis::Increasing, 1, 4, 2),
            (ScalingAxis::Increasing, 2, 4, 1),
            (ScalingAxis::Increasing, 2, 4, 2),
        ]
    );
}

#[test]
fn crash_runs_are_real_kills_and_then_failpoints() {
    let mut config = profile();
    config.repeat = 1;
    let failpoint = |name: FailpointName| CrashPoint::Failpoint {
        name,
        job_count: 5,
        run_number: 1,
    };
    assert_eq!(
        crash_recovery_points(&config),
        [
            CrashPoint::RealKill {
                job_count: 3,
                run_number: 1
            },
            failpoint(FailpointName::AfterClaimBeforeEffect),
            failpoint(FailpointName::AfterEffectBeforeFinalize),
            failpoint(FailpointName::DuringFinalize),
        ]
    );
    config.repeat = 3;
    assert_eq!(crash_recovery_points(&config).len(), 12);
    assert_eq!(default_repeat(), 3);
    assert_eq!(default_scaling_latency_ms(), 20);
}

// --- what they do ---

#[test]
fn only_the_first_attempt_of_a_job_crashes() {
    let mut crash = CrashFirstAttempt::new(FailpointName::DuringFinalize);
    assert!(!crash.should_trigger(FailpointName::AfterClaimBeforeEffect, 1));
    assert!(crash.should_trigger(FailpointName::DuringFinalize, 1));
    assert!(!crash.should_trigger(FailpointName::DuringFinalize, 1));
    assert!(crash.should_trigger(FailpointName::DuringFinalize, 2));
    assert_eq!(
        failpoint_label(FailpointName::AfterEffectBeforeFinalize),
        "after_effect_before_finalize"
    );
}

#[test]
fn payloads_are_numbered_and_acceptable() {
    let payload = charge_payload("backlog", 5001);
    assert_eq!(payload.customer_id, "bench-backlog-5001");
    assert_eq!(payload.amount_cents, 101);
    assert_eq!(payload.currency, "INR");
    assert!(validate_charge_payload(&payload).is_ok());
}

#[test]
fn a_submission_counts_once_it_was_accepted_with_an_identifier() {
    let id = "67e55044-10b1-426f-9247-bb680e5fe0c8";
    let number = 0x67e5_5044_10b1_426f_9247_bb68_0e5f_e0c8;
    let text = |s: &str| Some(s.to_string());
    assert_eq!(submit_outcome(202, text(id)).id, Some(number));
    assert_eq!(submit_outcome(200, text(id)).id, None);
    assert_eq!(submit_outcome(202, text("nonsense")).id, None);
    assert_eq!(submit_outcome(202, None).id, None);
    assert_eq!(submit_outcome(503, None).status, 503);

    let outcome = |id: Option<u128>| SubmitOutcome { status: 202, id };
    let (ids, failed) =
        tally_submissions(&vec![outcome(Some(3)), outcome(None), outcome(Some(1))]);
    assert_eq!(ids, [3, 1]);
    assert_eq!(failed, 1);
    assert_eq!(permits(0), 1);
    assert_eq!(permits(32), 32);
}

#[test]
fn waiting_ends_when_it_is_done_or_the_time_is_up() {
    assert_eq!(drain_step(0, true), Wait::Done);
    assert_eq!(drain_step(3, true), Wait::GiveUp);
    assert_eq!(drain_step(3, false), Wait::Again);
    assert_eq!(ready_step(true, true), Wait::Done);
    assert_eq!(ready_step(false, true), Wait::GiveUp);
    assert_eq!(ready_step(false, false), Wait::Again);
    assert_eq!(batch_step(0), BatchStep::Stop);
    assert_eq!(batch_step(1), BatchStep::Execute);
}

#[test]
fn the_driver_goes_on_until_no_job_is_left() {
    let next = |event: DriverEvent| driver_step(event);
    assert_eq!(next(DriverEvent::Round { time_is_up: false }), DriverStep::Claim);
    assert_eq!(next(DriverEvent::Round { time_is_up: true }), DriverStep::GiveUp);
    assert_eq!(next(DriverEvent::Claimed { jobs: 2 }), DriverStep::Execute);
    assert_eq!(next(DriverEvent::Claimed { jobs: 0 }), DriverStep::CountRemaining);
    assert_eq!(next(DriverEvent::Remaining { jobs: 0 }), DriverStep::Quiescent);
    assert_eq!(next(DriverEvent::Remaining { jobs: 1 }), DriverStep::Sleep);
}

#[test]
fn programs_are_found_in_their_directory() {
    for (dir, name) in [
        ("target/release", "fake-charge"),
        ("target/release/", "fake-charge"),
        ("", "fake-charge"),
        ("/", "x"),
        ("a", "/b"),
    ] {
        assert_eq!(
            binary_path(dir, name),
            std::path::Path::new(dir).join(name).to_string_lossy()
        );
    }
}

fn pairs(vars: &[EnvVar]) -> Vec<(&str, &str)> {
    vars.iter().map(|v| (v.name, v.value.as_str())).collect()
}

#[test]
fn programs_are_started_with_their_settings() {
    let url = "postgres://localhost/reliableq";
    assert_eq!(
        pairs(&fake_charge_env(url, "127.0.0.1:18081")),
        [
            ("DATABASE_URL", url),
            ("FAKE_CHARGE_BIND_ADDR", "127.0.0.1:18081"),
            ("FAKE_CHARGE_ENABLE_TEST_CONTROL", "true"),
            ("LOG_FORMAT", "pretty"),
            ("RUST_LOG", "warn"),
        ]
    );
    assert_eq!(
        pairs(&api_env(url, "127.0.0.1:18080")),
        [
            ("DATABASE_URL", url),
            ("API_BIND_ADDR", "127.0.0.1:18080"),
            ("LOG_FORMAT", "pretty"),
            ("RUST_LOG", "warn"),
        ]
    );
}

fn worker(retry_base_delay_ms: Option<u64>) -> WorkerSpec {
    WorkerSpec {
        binary_dir: "target/release".to_string(),
        database_url: "postgres://localhost/reliableq".to_string(),
        charge_service_url: "http://127.0.0.1:18081".to_string(),
        concurrency: 16,
        lease_duration_secs: 10,
        poll_interval_ms: 100,
        metrics_bind_addr: "127.0.0.1:19090".to_string(),
        retry_base_delay_ms,
    }
}

#[test]
fn workers_run_with_what_they_are_started_with() {
    for base in [None, Some(200)] {
        let mut env = Environment::new();
        for var in worker_env(&worker(base)) {
            env.set(var.name, EnvValue::Text(var.value));
        }
        let config = WorkerConfig::from_env(&env).unwrap();
        assert_eq!(config.concurrency, 16);
        assert_eq!(config.lease_duration, Duration::from_secs(10));
        assert_eq!(config.poll_interval, Duration::from_millis(100));
        assert_eq!(config.charge_service_url, "http://127.0.0.1:18081");
        assert_eq!(
            config.retry_policy().base_delay,
            Duration::from_millis(base.unwrap_or(1000))
        );
    }
    assert_eq!(pairs(&worker_env(&worker(None))).len(), 8);
    assert_eq!(
        pairs(&worker_env(&worker(Some(200))))[8],
        ("WORKER_RETRY_BASE_DELAY_MS", "200")
    );
}

#[test]
fn ingestion_starts_no_workers() {
    let config = profile();
    let point = IngestionPoint {
        concurrency: 8,
        run_number: 1,
    };
    let plan = ingestion_plan(config.ingestion.as_ref().unwrap(), &point);
    let warmup = plan.warmup.unwrap();
    assert_eq!((warmup.label.as_str(), warmup.count), ("ingestion-warmup", 10));
    assert_eq!(
        (plan.measured.label.as_str(), plan.measured.start_index, plan.measured.count),
        ("ingestion", 10, 100)
    );
    assert_eq!(plan.measured.concurrency, 8);
    assert_eq!(plan.measured.max_attempts, 5);
    assert!(plan.workers.is_empty());
    assert_eq!(plan.drain, None);
    assert_eq!(plan.downstream, Downstream::Untouched);
}

fn execution_point(warmup_jobs: u64) -> ExecutionPoint {
    ExecutionPoint {
        sweep: ExecutionSweep::DownstreamLatency,
        latency_ms: 100,
        concurrency: 4,
        job_count: 50,
        warmup_jobs,
        run_number: 1,
    }
}

#[test]
fn execution_warms_up_only_if_there_is_something_to_warm_up_with() {
    let plan = execution_plan(&environment(), &execution_point(5));
    assert_eq!(plan.downstream, Downstream::DelayMs(100));
    assert_eq!(plan.warmup.unwrap().count, 5);
    assert_eq!(plan.warmup_workers.len(), 1);
    assert_eq!(plan.measured.label, "downstream_latency_sensitivity");
    assert_eq!(plan.measured.start_index, 5);
    assert_eq!(plan.workers[0].charge_service_url, "http://127.0.0.1:18081");
    assert_eq!(plan.workers[0].metrics_bind_addr, "127.0.0.1:19090");
    assert_eq!(plan.workers[0].lease_duration_secs, 10);
    assert_eq!(plan.capacity, Some(4));
    assert!(plan.reset_inflight && plan.observe_peak);
    assert_eq!(
        plan.drain,
        Some(DrainWait {
            deadline_secs: 180,
            poll_ms: 150
        })
    );
    let plan = execution_plan(&environment(), &execution_point(0));
    assert!(plan.warmup.is_none());
    assert!(plan.warmup_workers.is_empty());
}

fn scaling_point() -> ScalingPoint {
    ScalingPoint {
        axis: ScalingAxis::Increasing,
        worker_count: 3,
        concurrency_per_worker: 4,
        job_count: 60,
        warmup_jobs: 6,
        latency_ms: 20,
        run_number: 2,
    }
}

#[test]
fn scaling_starts_workers_with_ports_of_their_own() {
    let plan = scaling_plan(&environment(), &scaling_point());
    let addrs: Vec<&str> = plan
        .workers
        .iter()
        .map(|w| w.metrics_bind_addr.as_str())
        .collect();
    assert_eq!(addrs, ["127.0.0.1:19090", "127.0.0.1:19091", "127.0.0.1:19092"]);
    assert_eq!(plan.capacity, Some(12));
    assert_eq!(plan.warmup.unwrap().label, "scaling-warmup");
    assert!(plan.warmup_workers.is_empty());
}

#[test]
fn retries_are_quick_and_failures_repeatable() {
    let config = profile();
    let cfg = config.retry_degradation.as_ref().unwrap();
    let plan = retry_degradation_plan(&environment(), cfg, &cfg.failure_rates[1], 3);
    assert_eq!(
        plan.downstream,
        Downstream::FailRate {
            status: 503,
            seed: 20_260_821
        }
    );
    assert_eq!(plan.workers[0].retry_base_delay_ms, Some(200));
    assert_eq!(plan.measured.max_attempts, 6);
    let plan = retry_degradation_plan(&environment(), cfg, &cfg.failure_rates[0], 3);
    assert_eq!(plan.downstream, Downstream::Normal);
}

#[test]
fn a_backlog_is_waited_for_longer() {
    let config = profile();
    let plan = backlog_plan(&environment(), config.backlog.as_ref().unwrap(), 1000);
    assert_eq!(plan.measured.count, 1000);
    assert_eq!(plan.measured.concurrency, 128);
    assert_eq!(plan.workers[0].lease_duration_secs, 15);
    assert_eq!(
        plan.drain,
        Some(DrainWait {
            deadline_secs: 900,
            poll_ms: 500
        })
    );
}

#[test]
fn direct_runs_claim_for_themselves() {
    let config = profile();
    let plan = claim_batch_plan(config.claim_batch.as_ref().unwrap(), 10);
    assert_eq!(plan.label, "claim-batch");
    assert_eq!((plan.job_count, plan.batch_size, plan.lease_secs), (30, 10, 10));
    assert_eq!(plan.deadline_secs, None);
    let plan = failpoint_plan(FailpointName::DuringFinalize, 5);
    assert_eq!(plan.label, "crash-during_finalize");
    assert_eq!(plan.worker_id, "bench-crash-worker");
    assert_eq!((plan.job_count, plan.batch_size, plan.lease_secs), (5, 10, 2));
    assert_eq!(plan.deadline_secs, Some(60));
    assert_eq!(plan.max_attempts, 6);
}

#[test]
fn a_killed_worker_is_slower_than_its_lease() {
    let plan = real_kill_plan(&environment(), 3);
    assert_eq!(plan.delay_before_kill_ms, 10_000);
    assert!(plan.delay_before_kill_ms > 1000 * plan.first_worker.lease_duration_secs);
    assert_eq!(plan.first_worker.concurrency, 3);
    assert_eq!(plan.first_worker.metrics_bind_addr, "127.0.0.1:19090");
    assert_eq!(plan.second_worker.metrics_bind_addr, "127.0.0.1:19091");
    assert_eq!(plan.pause_ms, 800);
    assert_eq!(real_kill_plan(&environment(), 0).first_worker.concurrency, 1);
}

#[test]
fn keys_of_the_contention_runs() {
    assert_eq!(unique_key(2, 11), "bench-unique-2-11");
    assert_ne!(unique_key(1, 11), unique_key(1, 1));
    assert_eq!(unique_amount_cents(11), 111);
    assert_eq!(replay_key(2), "bench-replay-2");
    assert_eq!(shared_key(2), "bench-shared-2");
    assert_eq!(conflict_key(2), "bench-conflict-2");
}

// --- how they are judged ---

fn stored_job(id: u128, status: &str, attempts: i32, max_attempts: i32) -> TrackedJob {
    TrackedJob {
        id,
        status: status.to_string(),
        attempts,
        max_attempts,
    }
}

fn input() -> GateInput {
    GateInput {
        submitted: 2,
        found: vec![stored_job(1, "SUCCEEDED", 1, 5), stored_job(2, "DEAD", 5, 5)],
        expect_all_terminal: true,
        charge_keys: tracked_keys(&vec![1, 2]),
        succeeded_jobs: vec![1],
        worker_capacity: Some(4),
        observed_peak_inflight: Some(4),
        window: None,
    }
}

fn checks(r: &CorrectnessResults) -> Vec<(&'static str, CheckValue)> {
    let checks = r.checks.as_ref().expect("the run was judged");
    checks.iter().map(|c| (c.name, c.value)).collect()
}

#[test]
fn a_run_in_order_passes() {
    let r = run_gate(&input());
    assert!(r.passed);
    assert!(r.failures.is_empty());
    let yes = CheckValue::Flag(true);
    assert_eq!(
        checks(&r),
        [
            ("all_tracked_jobs_found", yes),
            ("all_tracked_jobs_terminal", yes),
            ("no_job_over_attempt_budget", yes),
            ("at_most_one_charge_per_idempotency_key", yes),
            ("no_job_finalized_successful_more_than_once", yes),
            ("peak_inflight_within_capacity", yes),
            ("observed_peak_inflight", CheckValue::Number(4)),
            ("configured_capacity", CheckValue::Number(4)),
        ]
    );
    let mut early = input();
    early.expect_all_terminal = false;
    early.found[0].status = "RUNNING".to_string();
    early.observed_peak_inflight = None;
    let r = run_gate(&early);
    assert!(r.passed);
    assert_eq!(checks(&r).len(), 4);
}

#[test]
fn every_rule_is_reported() {
    let r = run_gate(&GateInput {
        submitted: 4,
        found: vec![
            stored_job(1, "PENDING", 1, 5),
            stored_job(2, "RUNNING", 6, 5),
            stored_job(3, "DEAD", 9, 5),
        ],
        expect_all_terminal: true,
        charge_keys: vec!["a".to_string(), "a".to_string(), "a".to_string()],
        succeeded_jobs: vec![1, 2, 1, 2],
        worker_capacity: Some(4),
        observed_peak_inflight: Some(5),
        window: Some(WindowCheck {
            within: false,
            max_sample: "90000".to_string(),
            threshold: "32000".to_string(),
        }),
    });
    assert!(!r.passed);
    assert_eq!(
        r.failures,
        [
            "expected 4 tracked jobs, found 3 in the database",
            "2 tracked jobs are still PENDING/RUNNING, expected 0",
            "2 jobs exceeded their attempt budget",
            "1 idempotency keys back more than one charge row",
            "2 jobs have more than one SUCCEEDED attempt row (a stale/reclaimed owner may have \
             finalized after losing its lease)",
            "observed peak_inflight 5 exceeded configured capacity 4",
            "a latency sample of 90000ms far exceeds this run's own measurement window (32000ms \
             threshold) — likely the host slept/woke mid-run, corrupting wall-clock (not \
             monotonic) timestamps",
        ]
    );
    assert_eq!(checks(&r).len(), 9);
}

#[test]
fn repetitions_are_counted_once_for_each_value() {
    assert_eq!(count_repeated_ids(&vec![]), 0);
    assert_eq!(count_repeated_ids(&vec![1, 2, 3]), 0);
    assert_eq!(count_repeated_ids(&vec![1, 2, 1, 1, 2]), 2);
    let texts = |v: &[&str]| v.iter().map(|s| s.to_string()).collect::<Vec<String>>();
    assert_eq!(count_repeated_texts(&texts(&["a", "b"])), 0);
    assert_eq!(count_repeated_texts(&texts(&["a", "b", "a", "a"])), 1);
}

fn observations() -> IdempotencyObservations {
    IdempotencyObservations {
        concurrency: 8,
        unique_created: 8,
        replay_first: 201,
        replay_second: 200,
        replay_charges: 1,
        shared: SharedKeyTally {
            created: 1,
            replayed: 6,
            other: 1,
        },
        shared_charges: 1,
        conflict_first: 201,
        conflict_second: 409,
        conflict_charges: 1,
    }
}

#[test]
fn contention_is_judged_by_what_was_charged() {
    assert!(judge_idempotency(&observations()).passed);
    let mut seen = observations();
    seen.unique_created = 7;
    let r = judge_idempotency(&seen);
    assert!(r.passed, "reported, but not a failure");
    assert_eq!(
        checks(&r)[0],
        ("unique_requests_all_created", CheckValue::Flag(false))
    );
    for broken in [
        IdempotencyObservations {
            replay_second: 201,
            ..observations()
        },
        IdempotencyObservations {
            shared_charges: 2,
            ..observations()
        },
        IdempotencyObservations {
            conflict_second: 200,
            ..observations()
        },
    ] {
        let r = judge_idempotency(&broken);
        assert!(!r.passed);
        assert_eq!(
            r.failures,
            ["one or more idempotency invariants failed; see checks"]
        );
    }
    let tally = tally_shared(&vec![201, 200, 200, 500, 0]);
    assert_eq!((tally.created, tally.replayed, tally.other), (1, 2, 2));
}

// --- how they are recorded ---

#[test]
fn names_of_directories_and_files() {
    assert_eq!(sanitize("a b/c=1,é-_Z9"), "a_b_c_1__-_Z9");
    assert_eq!(sanitize(&sanitize("a b")), sanitize("a b"));
    let at = Timestamp {
        secs: 1_700_000_000,
        nanos: 123_456_789,
    };
    let path = result_path("scaling", &scaling_params(&scaling_point()), at, 2);
    assert_eq!(path.scenario_dir, "scaling");
    assert_eq!(
        path.params_dir,
        "axis_increasing_total_concurrency_concurrency_per_worker_4_total_concurrency_12_worker_count_3"
    );
    assert_eq!(path.file_name, "20231114T221320.123Z-run2.json");

    for (name, holds) in [
        ("a.json", true),
        (".json", false),
        ("json", false),
        ("a.json.bak", false),
        ("a.JSON", false),
        ("..json", true),
    ] {
        assert_eq!(is_json_file(name), holds, "{name}");
        let extension = std::path::Path::new(name).extension();
        assert_eq!(extension.and_then(|e| e.to_str()) == Some("json"), holds);
    }
}

#[test]
fn parameters_in_one_word() {
    assert_eq!(params_fragment(&Params::Null), "default");
    assert_eq!(params_fragment(&Params::Value("[1]".to_string())), "[1]");
    assert_eq!(params_fragment(&Params::Fields(vec![])), "");
    let point = IngestionPoint {
        concurrency: 8,
        run_number: 1,
    };
    assert_eq!(params_fragment(&ingestion_params(&point)), "concurrency=8");
    assert_eq!(
        params_fragment(&execution_params(&execution_point(0))),
        "downstream_latency_ms=100,worker_concurrency=4"
    );
    assert_eq!(
        params_fragment(&failpoint_params(FailpointName::DuringFinalize)),
        "failpoint=during_finalize"
    );
    assert_eq!(
        params_fragment(&retry_degradation_params("0.5")),
        "transient_failure_rate=0.5"
    );
    assert_eq!(params_fragment(&backlog_params(1000)), "backlog_size=1000");
    assert_eq!(params_fragment(&claim_batch_params(-1)), "batch_size=-1");
    assert_eq!(params_fragment(&real_kill_params()), "lease_duration_secs=5");
    assert_eq!(params_fragment(&idempotency_params(4)), "concurrency=4");
}

fn counts(s: &RunSetup) -> (u32, u32, u32, u64, u64, u64) {
    (
        s.api_process_count,
        s.worker_process_count,
        s.worker_concurrency,
        s.lease_duration_secs,
        s.job_count,
        s.error_counts.http_errors,
    )
}

#[test]
fn what_is_recorded_of_the_runs() {
    let ingestion = ingestion_setup(100, 3);
    assert_eq!(counts(&ingestion), (1, 0, 0, 0, 100, 3));
    assert_eq!(ingestion.throughput_unit, "requests_per_sec");
    let execution = execution_setup(&execution_point(0), 48, 2);
    assert_eq!(counts(&execution), (1, 1, 4, 10, 48, 2));
    assert_eq!(execution.fake_charge_latency_ms, 100);
    assert_eq!(execution.throughput_unit, "jobs_per_sec");
    assert_eq!(counts(&scaling_setup(&scaling_point(), 60, 0)), (1, 3, 4, 10, 60, 0));
    let retry = retry_degradation_setup(4, "0.5", 20);
    assert_eq!(counts(&retry), (1, 1, 4, 10, 20, 0));
    assert_eq!(retry.fake_charge_failure_mode, "fail_rate=0.5");
    assert_eq!(counts(&backlog_setup(16, 990, 10)), (1, 1, 16, 15, 990, 10));
    let batch = claim_batch_setup(10, 30);
    assert_eq!(counts(&batch), (0, 0, 0, 0, 30, 0));
    assert_eq!(batch.claim_batch_size, 10);
    assert_eq!(counts(&failpoint_setup(5)), (0, 0, 0, 2, 5, 0));
    assert_eq!(counts(&real_kill_setup(3)), (1, 2, 0, 5, 3, 0));
    let idempotency = idempotency_setup(8, 1);
    assert_eq!(counts(&idempotency), (0, 0, 0, 0, 8, 1));
    assert_eq!(idempotency.throughput_unit, "requests_per_sec");
    assert_eq!(
        ErrorCounts::default(),
        ErrorCounts {
            http_errors: 0,
            timeouts: 0,
            other: 0
        }
    );
}

fn silent_machine() -> MachineFacts {
    MachineFacts {
        git_head: None,
        git_status: None,
        rustc_version: None,
        docker_version: None,
        os: "linux".to_string(),
        architecture: "x86_64".to_string(),
        kernel: None,
        cpu_model: None,
        parallelism: None,
        memory_bytes: None,
        postgres: None,
    }
}

#[test]
fn a_record_has_not_passed_until_it_is_judged() {
    let env = EnvInfo::capture(&silent_machine());
    let record = RunResult::base(&env, "backlog", backlog_params(10), 2, run_time());
    assert_eq!(record.schema_version, 1);
    assert_eq!(record.scenario, "backlog");
    assert_eq!(record.run_number, 2);
    assert_eq!(record.status, RunStatus::Complete);
    assert_eq!(record.build_profile, "release");
    assert_eq!(record.env.git_commit, "unknown");
    assert!(!record.correctness_results.passed);
    assert!(record.correctness_results.checks.is_none());
    assert_eq!(record.correctness_results.failures, ["not yet run"]);
    assert_eq!(counts(&record.setup), (0, 0, 0, 0, 0, 0));
    assert_eq!(record.setup.fake_charge_failure_mode, "normal");
    assert!(record.setup.retry_configuration.is_none());
    assert_eq!(record.timestamp_utc, run_time());
    let path = record.path();
    assert_eq!(
        (path.scenario_dir.as_str(), path.params_dir.as_str(), path.file_name.as_str()),
        ("backlog", "backlog_size_10", "20231114T221320.123Z-run2.json")
    );
}

fn run_time() -> Timestamp {
    Timestamp {
        secs: 1_700_000_000,
        nanos: 123_456_789,
    }
}

fn run_env() -> EnvInfo {
    let mut facts = silent_machine();
    facts.git_head = Some("abc123".to_string());
    facts.postgres = Some(PostgresFacts {
        version: Some("PostgreSQL 16".to_string()),
        max_connections: Some("100".to_string()),
        shared_buffers: None,
        effective_cache_size: None,
    });
    EnvInfo::capture(&facts)
}

/// Jobs 1 and 2 were accepted, one submission was not.
fn outcomes() -> Vec<SubmitOutcome> {
    vec![
        SubmitOutcome { status: 202, id: Some(1) },
        SubmitOutcome { status: 503, id: None },
        SubmitOutcome { status: 202, id: Some(2) },
    ]
}

fn stored(second: &str) -> StoredRows {
    StoredRows {
        found: vec![stored_job(1, "SUCCEEDED", 1, 5), stored_job(2, second, 1, 5)],
        charge_keys: tracked_keys(&vec![1, 2]),
        succeeded_jobs: vec![1],
    }
}

/// Where it is written, apart from the time.
fn place(record: &RunResult) -> (String, String) {
    let path = record.path();
    (path.scenario_dir, path.params_dir)
}

fn place_of(scenario: &str, params: &str) -> (String, String) {
    (scenario.to_string(), params.to_string())
}

#[test]
fn records_hold_what_was_counted_and_the_verdict() {
    let (env, now) = (run_env(), run_time());
    let point = IngestionPoint { concurrency: 8, run_number: 3 };
    let r = ingestion_record(&env, &point, now, &outcomes(), stored("PENDING"), None);
    assert_eq!(place(&r), place_of("ingestion", "concurrency_8"));
    assert_eq!(counts(&r.setup), (1, 0, 0, 0, 3, 1));
    assert!(r.correctness_results.passed, "jobs need not be finished");
    assert_eq!((r.run_number, r.timestamp_utc), (3, now));
    assert_eq!(r.env.git_commit, "abc123");
    assert_eq!(
        r.env.postgres_configuration,
        Some(vec![("max_connections".to_string(), "100".to_string())])
    );

    let point = execution_point(0);
    let run = |drained: bool, peak: Option<u64>| {
        execution_record(&env, &point, now, &outcomes(), drained, stored("RUNNING"), peak, None)
    };
    let r = run(false, Some(4));
    assert_eq!(
        place(&r),
        place_of(point.sweep.name(), "downstream_latency_ms_100_worker_concurrency_4")
    );
    assert_eq!(counts(&r.setup), (1, 1, 4, 10, 2, 1));
    assert_eq!(r.setup.fake_charge_latency_ms, 100);
    assert!(r.correctness_results.passed);
    assert_eq!(
        run(true, None).correctness_results.failures,
        ["1 tracked jobs are still PENDING/RUNNING, expected 0"]
    );
    assert_eq!(
        run(false, Some(5)).correctness_results.failures,
        ["observed peak_inflight 5 exceeded configured capacity 4"]
    );

    let point = scaling_point();
    let r = scaling_record(&env, &point, now, &outcomes(), true, stored("DEAD"), Some(13), None);
    assert_eq!(r.scenario, "scaling");
    assert_eq!(counts(&r.setup), (1, 3, 4, 10, 2, 1));
    assert_eq!(
        r.correctness_results.failures,
        ["observed peak_inflight 13 exceeded configured capacity 12"]
    );

    let r = backlog_record(&env, 16, 1000, 1, now, &outcomes(), true, stored("DEAD"), None);
    assert_eq!(place(&r), place_of("backlog", "backlog_size_1000"));
    assert_eq!(counts(&r.setup), (1, 1, 16, 15, 2, 1));
    assert!(r.correctness_results.passed);
    assert_eq!(checks(&r.correctness_results).len(), 5, "the peak is not looked at");
}

#[test]
fn only_retry_runs_record_how_they_retry() {
    let (env, now) = (run_env(), run_time());
    let r = retry_degradation_record(
        &env,
        4,
        "0.5",
        "0.5",
        1,
        now,
        &outcomes(),
        true,
        stored("DEAD"),
        None,
        None,
    );
    assert_eq!(place(&r), place_of("retry_degradation", "transient_failure_rate_0_5"));
    assert_eq!(counts(&r.setup), (1, 1, 4, 10, 2, 0));
    assert_eq!(r.setup.fake_charge_failure_mode, "fail_rate=0.5");
    let retries = r.setup.retry_configuration.unwrap();
    assert_eq!(
        (retries.base_delay_ms, retries.multiplier, retries.max_delay_secs, retries.note),
        (
            200,
            2,
            60,
            "compressed base_delay for this scenario only, see run_point doc comment"
        )
    );
    let r = real_kill_record(&env, 1, now, &outcomes(), true, stored("DEAD"), None);
    assert_eq!(
        place(&r),
        place_of("crash_recovery_real_kill", "lease_duration_secs_5")
    );
    assert_eq!(counts(&r.setup), (1, 2, 0, 5, 2, 0));
    assert!(r.correctness_results.passed);
    assert!(r.setup.retry_configuration.is_none());
}

#[test]
fn records_of_runs_without_workers() {
    let (env, now) = (run_env(), run_time());
    let late = || {
        Some(WindowCheck {
            within: false,
            max_sample: "90000".to_string(),
            threshold: "32000".to_string(),
        })
    };
    let r = claim_batch_record(&env, 10, 1, now, &vec![1, 2], stored("DEAD"), None);
    assert_eq!(place(&r), place_of("claim_batch", "batch_size_10"));
    assert_eq!(counts(&r.setup), (0, 0, 0, 0, 2, 0));
    assert_eq!(r.setup.claim_batch_size, 10);
    assert!(r.correctness_results.passed);
    let r = claim_batch_record(&env, 10, 1, now, &vec![1, 2, 3], stored("PENDING"), late());
    assert_eq!(r.correctness_results.failures.len(), 3);

    let name = FailpointName::DuringFinalize;
    let ids = vec![1, 2];
    let r = failpoint_record(&env, name, 1, now, &ids, true, stored("PENDING"), None);
    assert_eq!(
        place(&r),
        (
            "crash_recovery_failpoint".to_string(),
            format!("failpoint_{}", sanitize(failpoint_label(name)))
        )
    );
    assert_eq!(counts(&r.setup), (0, 0, 0, 2, 2, 0));
    assert!(!r.correctness_results.passed);
    let r = failpoint_record(&env, name, 1, now, &ids, false, stored("PENDING"), None);
    assert!(r.correctness_results.passed);

    let r = idempotency_record(&env, 2, now, &observations());
    assert_eq!(place(&r), place_of("idempotency_contention", "concurrency_8"));
    assert_eq!(counts(&r.setup), (0, 0, 0, 0, 8, 1));
    assert!(r.correctness_results.passed);
    let mut twice = observations();
    twice.shared.created = 2;
    assert!(!idempotency_record(&env, 2, now, &twice).correctness_results.passed);
}

// --- what is known of the machine ---

#[test]
fn what_the_machine_does_not_tell_is_left_open() {
    let info = EnvInfo::capture(&silent_machine());
    assert_eq!(info.git_commit, "unknown");
    assert!(info.git_dirty, "unknown counts as changed");
    assert_eq!(info.rust_version, "unknown");
    assert_eq!(info.os_version, "unknown");
    assert_eq!(info.cpu_model, None);
    assert_eq!(info.logical_cpu_count, 1);
    assert_eq!(info.docker_version, None);
    assert_eq!(info.postgres_version, None);
    assert_eq!(info.postgres_configuration, None);

    let mut facts = silent_machine();
    facts.git_head = Some("abc123".to_string());
    facts.git_status = Some(" \n".to_string());
    facts.parallelism = Some(8);
    let info = EnvInfo::capture(&facts);
    assert_eq!(info.git_commit, "abc123");
    assert!(!info.git_dirty);
    assert_eq!(info.logical_cpu_count, 8);
    facts.git_status = Some("M src/lib.rs".to_string());
    assert!(EnvInfo::capture(&facts).git_dirty);
}

#[test]
fn the_settings_that_the_database_tells_are_kept() {
    let text = |s: &str| Some(s.to_string());
    let pair = |name: &str, value: &str| (name.to_string(), value.to_string());
    let mut facts = silent_machine();
    facts.postgres = Some(PostgresFacts {
        version: None,
        max_connections: None,
        shared_buffers: None,
        effective_cache_size: None,
    });
    let info = EnvInfo::capture(&facts);
    assert_eq!(info.postgres_version, None);
    assert_eq!(info.postgres_configuration, Some(vec![]), "asked, but not answered");

    facts.postgres = Some(PostgresFacts {
        version: text("PostgreSQL 16"),
        max_connections: text("100"),
        shared_buffers: None,
        effective_cache_size: text("4GB"),
    });
    let info = EnvInfo::capture(&facts);
    assert_eq!(info.postgres_version.as_deref(), Some("PostgreSQL 16"));
    assert_eq!(
        info.postgres_configuration,
        Some(vec![pair("max_connections", "100"), pair("effective_cache_size", "4GB")])
    );
}

#[test]
fn processor_and_memory_are_read_from_proc() {
    let cpuinfo = "processor\t: 0\nmodel name\t: Some CPU @ 3.0: GHz\nmodel name\t: Other\n";
    assert_eq!(cpu_model(cpuinfo).unwrap(), "Some CPU @ 3.0");
    assert_eq!(cpu_model("model name without a colon\n"), None);
    assert_eq!(cpu_model("vendor_id: x\r\nmodel name: y\r\n").unwrap(), "y");
    assert_eq!(cpu_model(""), None);

    let meminfo = "MemFree:  1 kB\nMemTotal:       16384 kB\n";
    assert_eq!(memory_kib(meminfo), Some(16384));
    assert_eq!(memory_bytes(meminfo), Some(16_777_216));
    assert_eq!(memory_bytes("MemTotal: much kB\n"), None);
    assert_eq!(memory_bytes("MemTotal:\n"), None);
    assert_eq!(memory_bytes("MemFree: 1 kB"), None);
    assert_eq!(take_first_word("  a  b c").unwrap(), "a");
    assert_eq!(take_second_word("  a  b c").unwrap(), "b");
    assert_eq!(take_second_word(" a "), None);
    assert_eq!(take_first_word("  "), None);
}

#[test]
fn samples_of_processes_and_containers() {
    let sample = process_sample("  1.5 20480\n").unwrap();
    assert_eq!(sample.cpu_text, "1.5");
    assert_eq!(sample.rss_kib, 20480);
    assert!(process_sample("1.5").is_none());
    assert!(process_sample("1.5 much").is_none());
    assert!(process_sample("").is_none());
    assert_eq!(container_cpu_text("12.34%\t1GiB / 2GiB\n"), "12.34");
    assert_eq!(container_cpu_text("--\n"), "--");
    assert_eq!(peak(&vec![3, 9, 4]), 9);
    assert_eq!(peak(&vec![]), 0);
}
