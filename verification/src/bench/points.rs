//! Which runs a profile asks for, and in which order.

use crate::bench::config::{
    BenchConfig, CrashRecoveryConfig, DownstreamLatencyConfig, ExecutionConfig, IngestionConfig,
    ScalingConfig,
};
use crate::bench::failpoint::FailpointName;
use crate::text::same_text;
use vstd::arithmetic::div_mod::lemma_fundamental_div_mod_converse;
use vstd::prelude::*;

verus! {

// ---------------------------------------------------------------------------------------------
// Scenarios
// ---------------------------------------------------------------------------------------------

#[derive(Debug, Clone, Copy, PartialEq, Eq, Structural)]
pub enum Scenario {
    Ingestion,
    Execution,
    Scaling,
    ClaimBatch,
    RetryDegradation,
    Backlog,
    CrashRecovery,
    Idempotency,
}

impl Scenario {
    /// The name by which a scenario is asked for.
    pub open spec fn text(self) -> Seq<char> {
        match self {
            Scenario::Ingestion => "ingestion"@,
            Scenario::Execution => "execution"@,
            Scenario::Scaling => "scaling"@,
            Scenario::ClaimBatch => "claim_batch"@,
            Scenario::RetryDegradation => "retry_degradation"@,
            Scenario::Backlog => "backlog"@,
            Scenario::CrashRecovery => "crash_recovery"@,
            Scenario::Idempotency => "idempotency"@,
        }
    }

    pub fn name(self) -> (s: &'static str)
        ensures
            s@ == self.text(),
    {
        match self {
            Scenario::Ingestion => "ingestion",
            Scenario::Execution => "execution",
            Scenario::Scaling => "scaling",
            Scenario::ClaimBatch => "claim_batch",
            Scenario::RetryDegradation => "retry_degradation",
            Scenario::Backlog => "backlog",
            Scenario::CrashRecovery => "crash_recovery",
            Scenario::Idempotency => "idempotency",
        }
    }
}

/// All scenarios, in the order in which they are run.
pub open spec fn all_scenarios() -> Seq<Scenario> {
    seq![
        Scenario::Ingestion,
        Scenario::Execution,
        Scenario::Scaling,
        Scenario::ClaimBatch,
        Scenario::RetryDegradation,
        Scenario::Backlog,
        Scenario::CrashRecovery,
        Scenario::Idempotency,
    ]
}

/// The scenario is among those asked for: by its name, or because all are.
pub open spec fn asked_for(requested: Seq<char>, scenario: Scenario) -> bool {
    requested == "all"@ || requested == scenario.text()
}

/// The scenarios asked for, in the order in which they are run.
pub fn selected_scenarios(requested: &str) -> (chosen: Vec<Scenario>)
    ensures
        chosen@ == all_scenarios().filter(|s: Scenario| asked_for(requested@, s)),
{
    let all = same_text(requested, "all");
    let order: Vec<Scenario> = vec![
        Scenario::Ingestion,
        Scenario::Execution,
        Scenario::Scaling,
        Scenario::ClaimBatch,
        Scenario::RetryDegradation,
        Scenario::Backlog,
        Scenario::CrashRecovery,
        Scenario::Idempotency,
    ];
    assert(order@ =~= all_scenarios());
    let ghost wanted = |s: Scenario| asked_for(requested@, s);
    let mut chosen: Vec<Scenario> = Vec::new();
    let mut i: usize = 0;
    proof {
        reveal(Seq::filter);
    }
    assert(order@.take(0).filter(wanted) =~= Seq::<Scenario>::empty());
    while i < order.len()
        invariant
            i <= order.len(),
            order@ == all_scenarios(),
            wanted == (|s: Scenario| asked_for(requested@, s)),
            all == (requested@ == "all"@),
            chosen@ == order@.take(i as int).filter(wanted),
        decreases order.len() - i,
    {
        assert(order@.take(i + 1).drop_last() =~= order@.take(i as int));
        proof {
            reveal(Seq::filter);
        }
        if all || same_text(requested, order[i].name()) {
            chosen.push(order[i]);
        }
        i = i + 1;
    }
    assert(order@.take(i as int) =~= order@);
    chosen
}

// ---------------------------------------------------------------------------------------------
// Repetition
// ---------------------------------------------------------------------------------------------

/// Run `k` of a series in which each of some settings is run `repeat` times: the place of its setting,
/// and its number among the runs of that setting, counted from 1.
pub open spec fn run_at(k: int, repeat: u32) -> (int, int) {
    (k / repeat as int, k % repeat as int + 1)
}

/// Each of `settings` settings `repeat` times, one setting after the other.
fn series(settings: usize, repeat: u32) -> (runs: Vec<(usize, u32)>)
    ensures
        runs.len() == settings * repeat,
        forall|k: int|
            0 <= k < runs.len() ==> (#[trigger] runs@[k]).0 < settings && (
                runs@[k].0 as int,
                runs@[k].1 as int,
            ) == run_at(k, repeat) && 1 <= runs@[k].1 <= repeat,
{
    let mut runs: Vec<(usize, u32)> = Vec::new();
    let mut i: usize = 0;
    while i < settings
        invariant
            i <= settings,
            runs.len() == i * repeat,
            forall|k: int|
                0 <= k < runs.len() ==> (#[trigger] runs@[k]).0 < settings && (
                    runs@[k].0 as int,
                    runs@[k].1 as int,
                ) == run_at(k, repeat) && 1 <= runs@[k].1 <= repeat,
        decreases settings - i,
    {
        let mut j: u32 = 0;
        assert(i * repeat + 0 == i * repeat);
        while j < repeat
            invariant
                i < settings,
                j <= repeat,
                runs.len() == i * repeat + j,
                forall|k: int|
                    0 <= k < runs.len() ==> (#[trigger] runs@[k]).0 < settings && (
                        runs@[k].0 as int,
                        runs@[k].1 as int,
                    ) == run_at(k, repeat) && 1 <= runs@[k].1 <= repeat,
            decreases repeat - j,
        {
            proof {
                let k = i * repeat + j;
                assert(k == repeat as int * i as int + j as int) by (nonlinear_arith)
                    requires
                        k == i * repeat + j,
                ;
                lemma_fundamental_div_mod_converse(k, repeat as int, i as int, j as int);
            }
            runs.push((i, j + 1));
            j = j + 1;
        }
        assert((i + 1) * repeat == i * repeat + repeat) by (nonlinear_arith);
        i = i + 1;
    }
    runs
}

/// Every setting is run `repeat` times in a row, and its runs are numbered from 1.
pub proof fn law_every_setting_is_repeated(setting: int, number: int, repeat: u32)
    requires
        0 <= setting,
        1 <= number <= repeat,
    ensures
        run_at(setting * repeat + number - 1, repeat) == (setting, number),
{
    let k = setting * repeat + number - 1;
    assert(k == repeat as int * setting + (number - 1)) by (nonlinear_arith)
        requires
            k == setting * repeat + number - 1,
    ;
    lemma_fundamental_div_mod_converse(k, repeat as int, setting, number - 1);
}

/// The place of the setting that run `k` of a series has.
pub open spec fn setting_at(k: int, repeat: u32) -> int {
    run_at(k, repeat).0
}

/// The number that run `k` of a series has among the runs of its setting.
pub open spec fn number_at(k: int, repeat: u32) -> u32 {
    run_at(k, repeat).1 as u32
}

// ---------------------------------------------------------------------------------------------
// Ingestion
// ---------------------------------------------------------------------------------------------

#[derive(Debug, Clone, Copy)]
pub struct IngestionPoint {
    pub concurrency: u32,
    pub run_number: u32,
}

/// Every concurrency, `repeat` times.
pub open spec fn ingestion_series(cfg: Option<IngestionConfig>, repeat: u32) -> Seq<IngestionPoint> {
    match cfg {
        Some(cfg) => if cfg.enabled {
            Seq::new(
                (cfg.concurrencies@.len() * repeat) as nat,
                |k: int|
                    IngestionPoint {
                        concurrency: cfg.concurrencies@[setting_at(k, repeat)],
                        run_number: number_at(k, repeat),
                    },
            )
        } else {
            seq![]
        },
        None => seq![],
    }
}

pub fn ingestion_points(config: &BenchConfig) -> (points: Vec<IngestionPoint>)
    ensures
        points@ == ingestion_series(config.ingestion, config.repeat),
{
    let mut points: Vec<IngestionPoint> = Vec::new();
    if let Some(cfg) = &config.ingestion {
        if cfg.enabled {
            let runs = series(cfg.concurrencies.len(), config.repeat);
            let ghost all = ingestion_series(config.ingestion, config.repeat);
            let mut k: usize = 0;
            while k < runs.len()
                invariant
                    k <= runs.len(),
                    points.len() == k,
                    config.ingestion == Some(*cfg),
                    cfg.enabled,
                    all == ingestion_series(config.ingestion, config.repeat),
                    runs.len() == cfg.concurrencies.len() * config.repeat,
                    forall|n: int|
                        0 <= n < runs.len() ==> (#[trigger] runs@[n]).0 < cfg.concurrencies.len()
                            && (runs@[n].0 as int, runs@[n].1 as int) == run_at(n, config.repeat),
                    forall|n: int| 0 <= n < k ==> #[trigger] points@[n] == all[n],
                decreases runs.len() - k,
            {
                let (i, run_number) = runs[k];
                assert(runs@[k as int].0 == i);
                points.push(IngestionPoint { concurrency: cfg.concurrencies[i], run_number });
                k = k + 1;
            }
        }
    }
    assert(points@ =~= ingestion_series(config.ingestion, config.repeat));
    points
}

// ---------------------------------------------------------------------------------------------
// Execution
// ---------------------------------------------------------------------------------------------

#[derive(Debug, Clone, Copy, PartialEq, Eq, Structural)]
pub enum ExecutionSweep {
    /// Over latencies and concurrencies.
    Execution,
    /// Over latencies, at one concurrency.
    DownstreamLatency,
}

#[derive(Debug, Clone, Copy)]
pub struct ExecutionPoint {
    pub sweep: ExecutionSweep,
    pub latency_ms: u64,
    pub concurrency: u32,
    pub job_count: u64,
    pub warmup_jobs: u64,
    pub run_number: u32,
}

/// Every latency, for each of them every concurrency, `repeat` times.
pub open spec fn execution_series(cfg: Option<ExecutionConfig>, repeat: u32) -> Seq<ExecutionPoint> {
    match cfg {
        Some(cfg) => if cfg.enabled {
            Seq::new(
                (cfg.latencies_ms@.len() * cfg.concurrencies@.len() * repeat) as nat,
                |k: int|
                    ExecutionPoint {
                        sweep: ExecutionSweep::Execution,
                        latency_ms: cfg.latencies_ms@[setting_at(k, repeat)
                            / cfg.concurrencies@.len() as int],
                        concurrency: cfg.concurrencies@[setting_at(k, repeat)
                            % cfg.concurrencies@.len() as int],
                        job_count: cfg.job_count,
                        warmup_jobs: cfg.warmup_jobs,
                        run_number: number_at(k, repeat),
                    },
            )
        } else {
            seq![]
        },
        None => seq![],
    }
}

/// Every latency, `repeat` times; a tenth of the jobs warms up.
pub open spec fn downstream_series(cfg: Option<DownstreamLatencyConfig>, repeat: u32) -> Seq<
    ExecutionPoint,
> {
    match cfg {
        Some(cfg) => if cfg.enabled {
            Seq::new(
                (cfg.latencies_ms@.len() * repeat) as nat,
                |k: int|
                    ExecutionPoint {
                        sweep: ExecutionSweep::DownstreamLatency,
                        latency_ms: cfg.latencies_ms@[setting_at(k, repeat)],
                        concurrency: cfg.worker_concurrency,
                        job_count: cfg.job_count,
                        warmup_jobs: (cfg.job_count / 10) as u64,
                        run_number: number_at(k, repeat),
                    },
            )
        } else {
            seq![]
        },
        None => seq![],
    }
}

/// The runs of the execution scenario: the sweep over latencies and concurrencies, and after it the
/// sweep over latencies alone. `None` if they are too many to be counted.
pub fn execution_points(config: &BenchConfig) -> (r: Option<Vec<ExecutionPoint>>)
    ensures
        match r {
            Some(points) => points@ == execution_series(config.execution, config.repeat)
                + downstream_series(config.downstream_latency, config.repeat),
            None => config.execution matches Some(cfg) && cfg.enabled && cfg.latencies_ms.len()
                * cfg.concurrencies.len() > usize::MAX,
        },
{
    let mut points: Vec<ExecutionPoint> = Vec::new();
    if let Some(cfg) = &config.execution {
        if cfg.enabled {
            let settings: usize = match cfg.latencies_ms.len().checked_mul(cfg.concurrencies.len()) {
                Some(n) => n,
                None => {
                    return None;
                },
            };
            let runs = series(settings, config.repeat);
            let ghost all = execution_series(config.execution, config.repeat);
            let mut k: usize = 0;
            while k < runs.len()
                invariant
                    k <= runs.len(),
                    points.len() == k,
                    config.execution == Some(*cfg),
                    cfg.enabled,
                    settings == cfg.latencies_ms.len() * cfg.concurrencies.len(),
                    all == execution_series(config.execution, config.repeat),
                    runs.len() == settings * config.repeat,
                    forall|n: int|
                        0 <= n < runs.len() ==> (#[trigger] runs@[n]).0 < settings && (
                            runs@[n].0 as int,
                            runs@[n].1 as int,
                        ) == run_at(n, config.repeat),
                    forall|n: int| 0 <= n < k ==> #[trigger] points@[n] == all[n],
                decreases runs.len() - k,
            {
                let (i, run_number) = runs[k];
                assert(runs@[k as int].0 == i);
                let width: usize = cfg.concurrencies.len();
                assert(width > 0 && i / width < cfg.latencies_ms.len()) by (nonlinear_arith)
                    requires
                        i < cfg.latencies_ms.len() * width,
                ;
                points.push(
                    ExecutionPoint {
                        sweep: ExecutionSweep::Execution,
                        latency_ms: cfg.latencies_ms[i / width],
                        concurrency: cfg.concurrencies[i % width],
                        job_count: cfg.job_count,
                        warmup_jobs: cfg.warmup_jobs,
                        run_number,
                    },
                );
                k = k + 1;
            }
        }
    }
    assert(points@ =~= execution_series(config.execution, config.repeat));
    let ghost first = points@;
    if let Some(cfg) = &config.downstream_latency {
        if cfg.enabled {
            let runs = series(cfg.latencies_ms.len(), config.repeat);
            let ghost all = downstream_series(config.downstream_latency, config.repeat);
            let mut k: usize = 0;
            while k < runs.len()
                invariant
                    k <= runs.len(),
                    config.downstream_latency == Some(*cfg),
                    cfg.enabled,
                    all == downstream_series(config.downstream_latency, config.repeat),
                    runs.len() == cfg.latencies_ms.len() * config.repeat,
                    forall|n: int|
                        0 <= n < runs.len() ==> (#[trigger] runs@[n]).0 < cfg.latencies_ms.len() && (
                            runs@[n].0 as int,
                            runs@[n].1 as int,
                        ) == run_at(n, config.repeat),
                    points@ == first + all.take(k as int),
                decreases runs.len() - k,
            {
                let (i, run_number) = runs[k];
                assert(runs@[k as int].0 == i);
                points.push(
                    ExecutionPoint {
                        sweep: ExecutionSweep::DownstreamLatency,
                        latency_ms: cfg.latencies_ms[i],
                        concurrency: cfg.worker_concurrency,
                        job_count: cfg.job_count,
                        warmup_jobs: cfg.job_count / 10,
                        run_number,
                    },
                );
                assert(points@ =~= first + all.take(k + 1));
                k = k + 1;
            }
            assert(all.take(k as int) =~= all);
        }
    }
    assert(points@ =~= first + downstream_series(config.downstream_latency, config.repeat));
    Some(points)
}

// ---------------------------------------------------------------------------------------------
// Scaling
// ---------------------------------------------------------------------------------------------

#[derive(Debug, Clone, Copy, PartialEq, Eq, Structural)]
pub enum ScalingAxis {
    FixedTotal,
    Increasing,
}

#[derive(Debug, Clone, Copy)]
pub struct ScalingPoint {
    pub axis: ScalingAxis,
    pub worker_count: u32,
    pub concurrency_per_worker: u32,
    pub job_count: u64,
    pub warmup_jobs: u64,
    pub latency_ms: u64,
    pub run_number: u32,
}

/// Every pair of one axis, `repeat` times.
pub open spec fn scaling_series(
    cfg: ScalingConfig,
    axis: ScalingAxis,
    pairs: Seq<(u32, u32)>,
    repeat: u32,
) -> Seq<ScalingPoint> {
    Seq::new(
        (pairs.len() * repeat) as nat,
        |k: int|
            ScalingPoint {
                axis,
                worker_count: pairs[setting_at(k, repeat)].0,
                concurrency_per_worker: pairs[setting_at(k, repeat)].1,
                job_count: cfg.job_count,
                warmup_jobs: cfg.warmup_jobs,
                latency_ms: cfg.latency_ms,
                run_number: number_at(k, repeat),
            },
    )
}

fn push_scaling_points(
    points: &mut Vec<ScalingPoint>,
    cfg: &ScalingConfig,
    axis: ScalingAxis,
    pairs: &Vec<(u32, u32)>,
    repeat: u32,
)
    ensures
        final(points)@ == old(points)@ + scaling_series(*cfg, axis, pairs@, repeat),
{
    let runs = series(pairs.len(), repeat);
    let ghost first = old(points)@;
    let ghost all = scaling_series(*cfg, axis, pairs@, repeat);
    assert(points@ =~= first + all.take(0));
    let mut k: usize = 0;
    while k < runs.len()
        invariant
            k <= runs.len(),
            all == scaling_series(*cfg, axis, pairs@, repeat),
            runs.len() == pairs.len() * repeat,
            forall|n: int|
                0 <= n < runs.len() ==> (#[trigger] runs@[n]).0 < pairs.len() && (
                    runs@[n].0 as int,
                    runs@[n].1 as int,
                ) == run_at(n, repeat),
            points@ == first + all.take(k as int),
        decreases runs.len() - k,
    {
        let (i, run_number) = runs[k];
        assert(runs@[k as int].0 == i);
        let pair = pairs[i];
        points.push(
            ScalingPoint {
                axis,
                worker_count: pair.0,
                concurrency_per_worker: pair.1,
                job_count: cfg.job_count,
                warmup_jobs: cfg.warmup_jobs,
                latency_ms: cfg.latency_ms,
                run_number,
            },
        );
        assert(points@ =~= first + all.take(k + 1));
        k = k + 1;
    }
    assert(all.take(k as int) =~= all);
}

/// The runs of the scaling scenario: first those with a fixed total, then those with a growing one.
pub fn scaling_points(config: &BenchConfig) -> (points: Vec<ScalingPoint>)
    ensures
        points@ == match config.scaling {
            Some(cfg) => if cfg.enabled {
                scaling_series(cfg, ScalingAxis::FixedTotal, cfg.fixed_total@, config.repeat)
                    + scaling_series(cfg, ScalingAxis::Increasing, cfg.increasing@, config.repeat)
            } else {
                seq![]
            },
            None => seq![],
        },
{
    let mut points: Vec<ScalingPoint> = Vec::new();
    if let Some(cfg) = &config.scaling {
        if cfg.enabled {
            push_scaling_points(
                &mut points,
                cfg,
                ScalingAxis::FixedTotal,
                &cfg.fixed_total,
                config.repeat,
            );
            assert(points@ =~= scaling_series(
                *cfg,
                ScalingAxis::FixedTotal,
                cfg.fixed_total@,
                config.repeat,
            ));
            push_scaling_points(
                &mut points,
                cfg,
                ScalingAxis::Increasing,
                &cfg.increasing,
                config.repeat,
            );
        }
    }
    points
}

// ---------------------------------------------------------------------------------------------
// One list of settings
// ---------------------------------------------------------------------------------------------

/// A run of a scenario with one list of settings: the place of its setting, and its number.
#[derive(Debug, Clone, Copy)]
pub struct SettingPoint {
    pub setting: usize,
    pub run_number: u32,
}

/// Every setting of a list, `repeat` times; nothing if the scenario is not enabled.
pub open spec fn setting_series(enabled: bool, settings: nat, repeat: u32) -> Seq<SettingPoint> {
    if enabled {
        Seq::new(
            (settings * repeat) as nat,
            |k: int|
                SettingPoint {
                    setting: setting_at(k, repeat) as usize,
                    run_number: number_at(k, repeat),
                },
        )
    } else {
        seq![]
    }
}

fn setting_points(enabled: bool, settings: usize, repeat: u32) -> (points: Vec<SettingPoint>)
    ensures
        points@ == setting_series(enabled, settings as nat, repeat),
        forall|k: int| 0 <= k < points.len() ==> (#[trigger] points@[k]).setting < settings,
{
    let mut points: Vec<SettingPoint> = Vec::new();
    if enabled {
        let runs = series(settings, repeat);
        let ghost all = setting_series(enabled, settings as nat, repeat);
        let mut k: usize = 0;
        while k < runs.len()
            invariant
                enabled,
                k <= runs.len(),
                points.len() == k,
                all == setting_series(enabled, settings as nat, repeat),
                runs.len() == settings * repeat,
                forall|n: int|
                    0 <= n < runs.len() ==> (#[trigger] runs@[n]).0 < settings && (
                        runs@[n].0 as int,
                        runs@[n].1 as int,
                    ) == run_at(n, repeat),
                forall|n: int| 0 <= n < k ==> #[trigger] points@[n] == all[n],
                forall|n: int| 0 <= n < k ==> (#[trigger] points@[n]).setting < settings,
            decreases runs.len() - k,
        {
            let (setting, run_number) = runs[k];
            assert(runs@[k as int].0 == setting);
            points.push(SettingPoint { setting, run_number });
            k = k + 1;
        }
    }
    assert(points@ =~= setting_series(enabled, settings as nat, repeat));
    points
}

/// The runs of the claim-batch scenario: every batch size.
pub fn claim_batch_points(config: &BenchConfig) -> (points: Vec<SettingPoint>)
    ensures
        points@ == match config.claim_batch {
            Some(cfg) => setting_series(cfg.enabled, cfg.batch_sizes@.len(), config.repeat),
            None => seq![],
        },
{
    match &config.claim_batch {
        Some(cfg) => setting_points(cfg.enabled, cfg.batch_sizes.len(), config.repeat),
        None => Vec::new(),
    }
}

/// The runs of the retry scenario: every failure rate.
pub fn retry_degradation_points(config: &BenchConfig) -> (points: Vec<SettingPoint>)
    ensures
        points@ == match config.retry_degradation {
            Some(cfg) => setting_series(cfg.enabled, cfg.failure_rates@.len(), config.repeat),
            None => seq![],
        },
{
    match &config.retry_degradation {
        Some(cfg) => setting_points(cfg.enabled, cfg.failure_rates.len(), config.repeat),
        None => Vec::new(),
    }
}

/// The runs of the backlog scenario: every backlog size.
pub fn backlog_points(config: &BenchConfig) -> (points: Vec<SettingPoint>)
    ensures
        points@ == match config.backlog {
            Some(cfg) => setting_series(cfg.enabled, cfg.backlogs@.len(), config.repeat),
            None => seq![],
        },
{
    match &config.backlog {
        Some(cfg) => setting_points(cfg.enabled, cfg.backlogs.len(), config.repeat),
        None => Vec::new(),
    }
}

/// The runs of the idempotency scenario: every level of concurrency.
pub fn idempotency_points(config: &BenchConfig) -> (points: Vec<SettingPoint>)
    ensures
        points@ == match config.idempotency {
            Some(cfg) => setting_series(cfg.enabled, cfg.concurrency_levels@.len(), config.repeat),
            None => seq![],
        },
{
    match &config.idempotency {
        Some(cfg) => setting_points(cfg.enabled, cfg.concurrency_levels.len(), config.repeat),
        None => Vec::new(),
    }
}

// ---------------------------------------------------------------------------------------------
// Crash recovery
// ---------------------------------------------------------------------------------------------

#[derive(Debug, Clone, Copy, PartialEq, Eq, Structural)]
pub enum CrashPoint {
    /// A worker process is killed.
    RealKill { job_count: u64, run_number: u32 },
    /// A crash is simulated at a failpoint.
    Failpoint { name: FailpointName, job_count: u64, run_number: u32 },
}

/// The failpoints, in the order in which they are tried.
pub open spec fn failpoint_order(i: int) -> FailpointName {
    if i == 0 {
        FailpointName::AfterClaimBeforeEffect
    } else if i == 1 {
        FailpointName::AfterEffectBeforeFinalize
    } else {
        FailpointName::DuringFinalize
    }
}

/// `repeat` real kills of workers with three jobs, and after them every failpoint, `repeat` times.
pub open spec fn crash_series(cfg: CrashRecoveryConfig, repeat: u32) -> Seq<CrashPoint> {
    Seq::new(
        repeat as nat,
        |k: int| CrashPoint::RealKill { job_count: 3, run_number: (k + 1) as u32 },
    ) + Seq::new(
        (3 * repeat) as nat,
        |k: int|
            CrashPoint::Failpoint {
                name: failpoint_order(setting_at(k, repeat)),
                job_count: cfg.jobs_per_failpoint,
                run_number: number_at(k, repeat),
            },
    )
}

pub fn crash_recovery_points(config: &BenchConfig) -> (points: Vec<CrashPoint>)
    ensures
        points@ == match config.crash_recovery {
            Some(cfg) => if cfg.enabled {
                crash_series(cfg, config.repeat)
            } else {
                seq![]
            },
            None => seq![],
        },
{
    let mut points: Vec<CrashPoint> = Vec::new();
    if let Some(cfg) = &config.crash_recovery {
        if cfg.enabled {
            let ghost all = crash_series(*cfg, config.repeat);
            let repeat: u32 = config.repeat;
            let mut n: u32 = 0;
            while n < repeat
                invariant
                    n <= repeat,
                    all == crash_series(*cfg, repeat),
                    points@ == all.take(n as int),
                decreases repeat - n,
            {
                points.push(CrashPoint::RealKill { job_count: 3, run_number: n + 1 });
                assert(points@ =~= all.take(n + 1));
                n = n + 1;
            }
            let runs = series(3, repeat);
            let mut k: usize = 0;
            while k < runs.len()
                invariant
                    k <= runs.len(),
                    runs.len() == 3 * repeat,
                    all == crash_series(*cfg, repeat),
                    forall|m: int|
                        0 <= m < runs.len() ==> (#[trigger] runs@[m]).0 < 3 && (
                            runs@[m].0 as int,
                            runs@[m].1 as int,
                        ) == run_at(m, repeat),
                    points@ == all.take(repeat + k),
                decreases runs.len() - k,
            {
                let (i, run_number) = runs[k];
                assert(runs@[k as int].0 == i);
                let name = if i == 0 {
                    FailpointName::AfterClaimBeforeEffect
                } else if i == 1 {
                    FailpointName::AfterEffectBeforeFinalize
                } else {
                    FailpointName::DuringFinalize
                };
                points.push(
                    CrashPoint::Failpoint { name, job_count: cfg.jobs_per_failpoint, run_number },
                );
                assert(all[repeat + k] == points@.last());
                assert(points@ =~= all.take(repeat + k + 1));
                k = k + 1;
            }
            assert(all.take(repeat + k) =~= all);
        }
    }
    points
}

/// Every setting of the ingestion scenario is run as often as asked for, one after the other, with its
/// runs numbered from 1. A scenario that is not asked for has no runs.
pub proof fn law_ingestion_runs_every_concurrency(
    cfg: IngestionConfig,
    repeat: u32,
    setting: int,
    number: int,
)
    requires
        0 <= setting < cfg.concurrencies@.len(),
        1 <= number <= repeat,
    ensures
        ingestion_series(None, repeat).len() == 0,
        !cfg.enabled ==> ingestion_series(Some(cfg), repeat).len() == 0,
        cfg.enabled ==> {
            let runs = ingestion_series(Some(cfg), repeat);
            let run = runs[setting * repeat + number - 1];
            &&& runs.len() == cfg.concurrencies@.len() * repeat
            &&& 0 <= setting * repeat + number - 1 < runs.len()
            &&& run.concurrency == cfg.concurrencies@[setting]
            &&& run.run_number == number
        },
{
    law_every_setting_is_repeated(setting, number, repeat);
    lemma_run_is_in_series(setting, number, repeat, cfg.concurrencies@.len() as int);
}

/// The place of a run lies within its series.
proof fn lemma_run_is_in_series(setting: int, number: int, repeat: u32, settings: int)
    requires
        0 <= setting < settings,
        1 <= number <= repeat,
    ensures
        0 <= setting * repeat + number - 1 < settings * repeat,
{
    assert(0 <= setting * repeat + number - 1 < settings * repeat) by (nonlinear_arith)
        requires
            0 <= setting < settings,
            1 <= number <= repeat,
    ;
}

/// Every latency of the execution scenario is run with every concurrency, as often as asked for.
pub proof fn law_execution_runs_every_pair(
    cfg: ExecutionConfig,
    repeat: u32,
    latency: int,
    concurrency: int,
    number: int,
)
    requires
        cfg.enabled,
        0 <= latency < cfg.latencies_ms@.len(),
        0 <= concurrency < cfg.concurrencies@.len(),
        1 <= number <= repeat,
    ensures
        execution_series(None, repeat).len() == 0,
        ({
            let runs = execution_series(Some(cfg), repeat);
            let place = (latency * cfg.concurrencies@.len() + concurrency) * repeat + number - 1;
            &&& runs.len() == cfg.latencies_ms@.len() * cfg.concurrencies@.len() * repeat
            &&& 0 <= place < runs.len()
            &&& runs[place].sweep is Execution
            &&& runs[place].latency_ms == cfg.latencies_ms@[latency]
            &&& runs[place].concurrency == cfg.concurrencies@[concurrency]
            &&& runs[place].job_count == cfg.job_count
            &&& runs[place].warmup_jobs == cfg.warmup_jobs
            &&& runs[place].run_number == number
        }),
{
    let width = cfg.concurrencies@.len() as int;
    let height = cfg.latencies_ms@.len() as int;
    let setting = latency * width + concurrency;
    assert(0 <= setting < height * width) by (nonlinear_arith)
        requires
            0 <= latency < height,
            0 <= concurrency < width,
            setting == latency * width + concurrency,
    ;
    assert(setting == width * latency + concurrency) by (nonlinear_arith)
        requires
            setting == latency * width + concurrency,
    ;
    lemma_fundamental_div_mod_converse(setting, width, latency, concurrency);
    law_every_setting_is_repeated(setting, number, repeat);
    lemma_run_is_in_series(setting, number, repeat, height * width);
}

/// Every latency of the sweep over latencies alone is run as often as asked for, at one concurrency, and
/// a tenth of its jobs warms up.
pub proof fn law_downstream_runs_every_latency(
    cfg: DownstreamLatencyConfig,
    repeat: u32,
    setting: int,
    number: int,
)
    requires
        cfg.enabled,
        0 <= setting < cfg.latencies_ms@.len(),
        1 <= number <= repeat,
    ensures
        downstream_series(None, repeat).len() == 0,
        ({
            let runs = downstream_series(Some(cfg), repeat);
            let run = runs[setting * repeat + number - 1];
            &&& runs.len() == cfg.latencies_ms@.len() * repeat
            &&& 0 <= setting * repeat + number - 1 < runs.len()
            &&& run.sweep is DownstreamLatency
            &&& run.latency_ms == cfg.latencies_ms@[setting]
            &&& run.concurrency == cfg.worker_concurrency
            &&& run.job_count == cfg.job_count
            &&& run.warmup_jobs * 10 <= run.job_count < run.warmup_jobs * 10 + 10
            &&& run.run_number == number
        }),
{
    law_every_setting_is_repeated(setting, number, repeat);
    lemma_run_is_in_series(setting, number, repeat, cfg.latencies_ms@.len() as int);
}

/// Every pair of workers and concurrency of the scaling scenario is run as often as asked for.
pub proof fn law_scaling_runs_every_pair(
    cfg: ScalingConfig,
    axis: ScalingAxis,
    pairs: Seq<(u32, u32)>,
    repeat: u32,
    setting: int,
    number: int,
)
    requires
        0 <= setting < pairs.len(),
        1 <= number <= repeat,
    ensures
        ({
            let runs = scaling_series(cfg, axis, pairs, repeat);
            let run = runs[setting * repeat + number - 1];
            &&& runs.len() == pairs.len() * repeat
            &&& 0 <= setting * repeat + number - 1 < runs.len()
            &&& run.axis == axis
            &&& (run.worker_count, run.concurrency_per_worker) == pairs[setting]
            &&& run.job_count == cfg.job_count && run.warmup_jobs == cfg.warmup_jobs
                && run.latency_ms == cfg.latency_ms
            &&& run.run_number == number
        }),
{
    law_every_setting_is_repeated(setting, number, repeat);
    lemma_run_is_in_series(setting, number, repeat, pairs.len() as int);
}

/// Every setting of a scenario with one list of them is run as often as asked for.
pub proof fn law_listed_settings_are_all_run(settings: nat, repeat: u32, setting: int, number: int)
    requires
        settings <= usize::MAX,
        0 <= setting < settings,
        1 <= number <= repeat,
    ensures
        setting_series(false, settings, repeat).len() == 0,
        ({
            let runs = setting_series(true, settings, repeat);
            let run = runs[setting * repeat + number - 1];
            &&& runs.len() == settings * repeat
            &&& 0 <= setting * repeat + number - 1 < runs.len()
            &&& run.setting == setting
            &&& run.run_number == number
        }),
{
    law_every_setting_is_repeated(setting, number, repeat);
    lemma_run_is_in_series(setting, number, repeat, settings as int);
}

/// Workers are killed as often as asked for, with three jobs each, and then each of the three failpoints
/// is tried as often.
pub proof fn law_crashes_are_tried_everywhere(cfg: CrashRecoveryConfig, repeat: u32, number: int)
    requires
        1 <= number <= repeat,
    ensures
        ({
            let runs = crash_series(cfg, repeat);
            let at = |failpoint: int| runs[repeat + failpoint * repeat + number - 1];
            &&& runs.len() == 4 * repeat
            &&& runs[number - 1] == (CrashPoint::RealKill {
                job_count: 3,
                run_number: number as u32,
            })
            &&& at(0) == (CrashPoint::Failpoint {
                name: FailpointName::AfterClaimBeforeEffect,
                job_count: cfg.jobs_per_failpoint,
                run_number: number as u32,
            })
            &&& at(1) == (CrashPoint::Failpoint {
                name: FailpointName::AfterEffectBeforeFinalize,
                job_count: cfg.jobs_per_failpoint,
                run_number: number as u32,
            })
            &&& at(2) == (CrashPoint::Failpoint {
                name: FailpointName::DuringFinalize,
                job_count: cfg.jobs_per_failpoint,
                run_number: number as u32,
            })
        }),
{
    law_every_setting_is_repeated(0, number, repeat);
    law_every_setting_is_repeated(1, number, repeat);
    law_every_setting_is_repeated(2, number, repeat);
}

/// A scenario is run if it is asked for by its own name, or if all are. There are eight of them, each
/// in the list once.
pub proof fn law_scenarios_are_asked_for_by_name(requested: Seq<char>, scenario: Scenario)
    ensures
        asked_for("all"@, scenario),
        asked_for(scenario.text(), scenario),
        asked_for(requested, scenario) ==> requested == "all"@ || requested == scenario.text(),
        all_scenarios().len() == 8,
        all_scenarios().contains(scenario),
{
    let all = all_scenarios();
    assert(all[0] == Scenario::Ingestion && all[1] == Scenario::Execution && all[2]
        == Scenario::Scaling && all[3] == Scenario::ClaimBatch && all[4]
        == Scenario::RetryDegradation && all[5] == Scenario::Backlog && all[6]
        == Scenario::CrashRecovery && all[7] == Scenario::Idempotency);
}

} // verus!
