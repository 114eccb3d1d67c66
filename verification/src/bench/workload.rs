//! What each run does: how many jobs it submits, which workers it starts, how long it waits.

use crate::bench::config::{
    BacklogConfig, ClaimBatchConfig, EnvironmentConfig, FailureRate, IngestionConfig,
    RetryDegradationConfig,
};
use crate::bench::failpoint::{failpoint_label, label_text, FailpointName};
use crate::bench::points::{ExecutionPoint, ExecutionSweep, IngestionPoint, ScalingPoint};
use crate::bench::procs::{http_base, WorkerFacts, WorkerSpec};
use crate::text::{decimal, decimal_text, join2, join3};
use vstd::prelude::*;

verus! {

// ---------------------------------------------------------------------------------------------
// Addresses
// ---------------------------------------------------------------------------------------------

impl EnvironmentConfig {
    pub fn api_base(&self) -> (s: String)
        ensures
            s@ == "http://"@ + self.api_bind@,
    {
        http_base(&self.api_bind)
    }

    pub fn fake_charge_base(&self) -> (s: String)
        ensures
            s@ == "http://"@ + self.fake_charge_bind@,
    {
        http_base(&self.fake_charge_bind)
    }

    /// The port at which worker `index` shows its metrics.
    pub open spec fn port(self, index: u32) -> nat {
        (self.worker_metrics_bind_base_port + index % 65_536) as nat
    }

    /// The ports do not run out at worker `index`.
    pub open spec fn has_port(self, index: u32) -> bool {
        self.port(index) <= u16::MAX
    }

    pub open spec fn metrics_addr(self, index: u32) -> Seq<char> {
        "127.0.0.1:"@ + decimal(self.port(index))
    }

    /// Where worker `index` shows its metrics: each has a port of its own, counted from the base port.
    pub fn worker_metrics_addr(&self, index: u32) -> (s: String)
        requires
            self.has_port(index),
        ensures
            s@ == self.metrics_addr(index),
    {
        let port: u64 = self.worker_metrics_bind_base_port as u64 + (index % 65_536) as u64;
        join2("127.0.0.1:", &decimal_text(port))
    }

    /// Worker `index`, with the settings that all scenarios share.
    pub open spec fn worker_facts(self, index: u32, concurrency: u32, lease: u64) -> WorkerFacts {
        WorkerFacts {
            binary_dir: self.binary_dir@,
            database_url: self.database_url@,
            charge_service_url: "http://"@ + self.fake_charge_bind@,
            concurrency,
            lease_duration_secs: lease,
            poll_interval_ms: 100,
            metrics_bind_addr: self.metrics_addr(index),
            retry_base_delay_ms: None,
        }
    }

    fn worker(&self, index: u32, concurrency: u32, lease_duration_secs: u64) -> (spec: WorkerSpec)
        requires
            self.has_port(index),
        ensures
            spec@ == self.worker_facts(index, concurrency, lease_duration_secs),
    {
        WorkerSpec {
            binary_dir: self.binary_dir.clone(),
            database_url: self.database_url.clone(),
            charge_service_url: self.fake_charge_base(),
            concurrency,
            lease_duration_secs,
            poll_interval_ms: 100,
            metrics_bind_addr: self.worker_metrics_addr(index),
            retry_base_delay_ms: None,
        }
    }
}

/// No two workers of a run share a port.
pub proof fn law_workers_have_ports_of_their_own(env: EnvironmentConfig, a: u32, b: u32)
    requires
        a < 65_536,
        b < 65_536,
    ensures
        env.metrics_addr(a) == env.metrics_addr(b) ==> a == b,
{
    if env.metrics_addr(a) == env.metrics_addr(b) {
        let prefix = "127.0.0.1:"@;
        let x = env.port(a);
        let y = env.port(b);
        assert(decimal(x) =~= env.metrics_addr(a).skip(prefix.len() as int));
        assert(decimal(y) =~= env.metrics_addr(b).skip(prefix.len() as int));
        crate::text::law_decimal_round_trip(x);
        crate::text::law_decimal_round_trip(y);
    }
}

// ---------------------------------------------------------------------------------------------
// Plans
// ---------------------------------------------------------------------------------------------

/// Jobs to be submitted through the interface of the queue.
#[derive(Debug)]
pub struct Submission {
    pub label: String,
    /// The number of the first job.
    pub start_index: u64,
    pub count: u64,
    pub concurrency: u32,
    pub max_attempts: i32,
}

/// What a [`Submission`] says.
#[verifier::ext_equal]
pub struct SubmissionFacts {
    pub label: Seq<char>,
    pub start_index: u64,
    pub count: u64,
    pub concurrency: u32,
    pub max_attempts: i32,
}

impl View for Submission {
    type V = SubmissionFacts;

    open spec fn view(&self) -> SubmissionFacts {
        SubmissionFacts {
            label: self.label@,
            start_index: self.start_index,
            count: self.count,
            concurrency: self.concurrency,
            max_attempts: self.max_attempts,
        }
    }
}

/// How the charge service is to behave.
#[derive(Debug, Clone, Copy, PartialEq, Eq, Structural)]
pub enum Downstream {
    /// As it was started.
    Untouched,
    Normal,
    DelayMs(u64),
    /// Requests fail with this status at the rate of the run, drawn from this seed.
    FailRate { status: u16, seed: u64 },
}

/// How long to wait for the queue to drain, and how often to look.
#[derive(Debug, Clone, Copy, PartialEq, Eq, Structural)]
pub struct DrainWait {
    pub deadline_secs: u64,
    pub poll_ms: u64,
}

/// A run that submits jobs through the interface of the queue. The database is emptied, the servers
/// are started, the charge service is set up; jobs to warm up are submitted, and worked off if there
/// are workers to do it; the measured jobs are submitted; the workers are started and the queue is
/// left to drain.
#[derive(Debug)]
pub struct WorkloadPlan {
    pub downstream: Downstream,
    pub warmup: Option<Submission>,
    pub warmup_workers: Vec<WorkerSpec>,
    /// How long the jobs to warm up are waited for, if there are workers for them.
    pub warmup_drain: DrainWait,
    pub measured: Submission,
    /// The peak of requests in progress is measured from the start of the workers on.
    pub reset_inflight: bool,
    /// The peak of requests in progress counts for the verdict on the run.
    pub observe_peak: bool,
    pub workers: Vec<WorkerSpec>,
    pub drain: Option<DrainWait>,
    /// How many jobs the workers can handle at once, where that counts for the verdict on the run.
    pub capacity: Option<u64>,
}

/// What a [`WorkloadPlan`] says.
#[verifier::ext_equal]
pub struct WorkloadFacts {
    pub downstream: Downstream,
    pub warmup: Option<SubmissionFacts>,
    pub warmup_workers: Seq<WorkerFacts>,
    pub warmup_drain: DrainWait,
    pub measured: SubmissionFacts,
    pub reset_inflight: bool,
    pub observe_peak: bool,
    pub workers: Seq<WorkerFacts>,
    pub drain: Option<DrainWait>,
    pub capacity: Option<u64>,
}

/// What some workers are to be.
pub open spec fn workers_facts(workers: Seq<WorkerSpec>) -> Seq<WorkerFacts> {
    workers.map_values(|w: WorkerSpec| w@)
}

impl View for WorkloadPlan {
    type V = WorkloadFacts;

    open spec fn view(&self) -> WorkloadFacts {
        WorkloadFacts {
            downstream: self.downstream,
            warmup: match self.warmup {
                Some(s) => Some(s@),
                None => None,
            },
            warmup_workers: workers_facts(self.warmup_workers@),
            warmup_drain: self.warmup_drain,
            measured: self.measured@,
            reset_inflight: self.reset_inflight,
            observe_peak: self.observe_peak,
            workers: workers_facts(self.workers@),
            drain: self.drain,
            capacity: self.capacity,
        }
    }
}

fn one_worker(spec: WorkerSpec) -> (v: Vec<WorkerSpec>)
    ensures
        workers_facts(v@) == seq![spec@],
{
    let mut v: Vec<WorkerSpec> = Vec::new();
    v.push(spec);
    assert(workers_facts(v@) =~= seq![spec@]);
    v
}

fn no_workers() -> (v: Vec<WorkerSpec>)
    ensures
        workers_facts(v@) == Seq::<WorkerFacts>::empty(),
{
    let v: Vec<WorkerSpec> = Vec::new();
    assert(workers_facts(v@) =~= Seq::<WorkerFacts>::empty());
    v
}

/// Ingestion: only submissions, no workers.
pub fn ingestion_plan(cfg: &IngestionConfig, point: &IngestionPoint) -> (plan: WorkloadPlan)
    ensures
        plan@ == (WorkloadFacts {
            downstream: Downstream::Untouched,
            warmup: Some(
                SubmissionFacts {
                    label: "ingestion-warmup"@,
                    start_index: 0,
                    count: cfg.warmup_requests,
                    concurrency: point.concurrency,
                    max_attempts: 5,
                },
            ),
            warmup_workers: seq![],
            warmup_drain: DrainWait { deadline_secs: 180, poll_ms: 200 },
            measured: SubmissionFacts {
                label: "ingestion"@,
                start_index: cfg.warmup_requests,
                count: cfg.requests,
                concurrency: point.concurrency,
                max_attempts: 5,
            },
            reset_inflight: false,
            observe_peak: false,
            workers: seq![],
            drain: None,
            capacity: None,
        }),
{
    WorkloadPlan {
        downstream: Downstream::Untouched,
        warmup: Some(
            Submission {
                label: "ingestion-warmup".to_string(),
                start_index: 0,
                count: cfg.warmup_requests,
                concurrency: point.concurrency,
                max_attempts: 5,
            },
        ),
        warmup_workers: no_workers(),
        warmup_drain: DrainWait { deadline_secs: 180, poll_ms: 200 },
        measured: Submission {
            label: "ingestion".to_string(),
            start_index: cfg.warmup_requests,
            count: cfg.requests,
            concurrency: point.concurrency,
            max_attempts: 5,
        },
        reset_inflight: false,
        observe_peak: false,
        workers: no_workers(),
        drain: None,
        capacity: None,
    }
}

impl ExecutionSweep {
    /// The name of the sweep in the results.
    pub open spec fn text(self) -> Seq<char> {
        match self {
            ExecutionSweep::Execution => "execution"@,
            ExecutionSweep::DownstreamLatency => "downstream_latency_sensitivity"@,
        }
    }

    pub fn name(self) -> (s: &'static str)
        ensures
            s@ == self.text(),
    {
        match self {
            ExecutionSweep::Execution => "execution",
            ExecutionSweep::DownstreamLatency => "downstream_latency_sensitivity",
        }
    }
}

/// Execution: one worker works off jobs that are all there when it starts. If there are jobs to warm
/// up, another such worker has worked them off before.
pub fn execution_plan(env: &EnvironmentConfig, point: &ExecutionPoint) -> (plan: WorkloadPlan)
    requires
        env.has_port(0),
    ensures
        plan@ == (WorkloadFacts {
            downstream: Downstream::DelayMs(point.latency_ms),
            warmup: if point.warmup_jobs > 0 {
                Some(
                    SubmissionFacts {
                        label: "exec-warmup"@,
                        start_index: 0,
                        count: point.warmup_jobs,
                        concurrency: 32,
                        max_attempts: 5,
                    },
                )
            } else {
                None
            },
            warmup_workers: if point.warmup_jobs > 0 {
                seq![env.worker_facts(0, point.concurrency, 10)]
            } else {
                seq![]
            },
            warmup_drain: DrainWait { deadline_secs: 180, poll_ms: 200 },
            measured: SubmissionFacts {
                label: point.sweep.text(),
                start_index: point.warmup_jobs,
                count: point.job_count,
                concurrency: 64,
                max_attempts: 5,
            },
            reset_inflight: true,
            observe_peak: true,
            workers: seq![env.worker_facts(0, point.concurrency, 10)],
            drain: Some(DrainWait { deadline_secs: 180, poll_ms: 150 }),
            capacity: Some(point.concurrency as u64),
        }),
{
    let (warmup, warmup_workers) = if point.warmup_jobs > 0 {
        (
            Some(
                Submission {
                    label: "exec-warmup".to_string(),
                    start_index: 0,
                    count: point.warmup_jobs,
                    concurrency: 32,
                    max_attempts: 5,
                },
            ),
            one_worker(env.worker(0, point.concurrency, 10)),
        )
    } else {
        (None, no_workers())
    };
    WorkloadPlan {
        downstream: Downstream::DelayMs(point.latency_ms),
        warmup,
        warmup_workers,
        warmup_drain: DrainWait { deadline_secs: 180, poll_ms: 200 },
        measured: Submission {
            label: point.sweep.name().to_string(),
            start_index: point.warmup_jobs,
            count: point.job_count,
            concurrency: 64,
            max_attempts: 5,
        },
        reset_inflight: true,
        observe_peak: true,
        workers: one_worker(env.worker(0, point.concurrency, 10)),
        drain: Some(DrainWait { deadline_secs: 180, poll_ms: 150 }),
        capacity: Some(point.concurrency as u64),
    }
}

/// Scaling: `worker_count` workers share the work. The jobs to warm up are left in the queue.
pub fn scaling_plan(env: &EnvironmentConfig, point: &ScalingPoint) -> (plan: WorkloadPlan)
    requires
        forall|i: u32| i < point.worker_count ==> #[trigger] env.has_port(i),
        point.worker_count * point.concurrency_per_worker <= u32::MAX,
    ensures
        plan@ == (WorkloadFacts {
            downstream: Downstream::DelayMs(point.latency_ms),
            warmup: if point.warmup_jobs > 0 {
                Some(
                    SubmissionFacts {
                        label: "scaling-warmup"@,
                        start_index: 0,
                        count: point.warmup_jobs,
                        concurrency: 32,
                        max_attempts: 5,
                    },
                )
            } else {
                None
            },
            warmup_workers: seq![],
            warmup_drain: DrainWait { deadline_secs: 180, poll_ms: 200 },
            measured: SubmissionFacts {
                label: "scaling"@,
                start_index: point.warmup_jobs,
                count: point.job_count,
                concurrency: 64,
                max_attempts: 5,
            },
            reset_inflight: true,
            observe_peak: true,
            workers: Seq::new(
                point.worker_count as nat,
                |i: int| env.worker_facts(i as u32, point.concurrency_per_worker, 10),
            ),
            drain: Some(DrainWait { deadline_secs: 180, poll_ms: 150 }),
            capacity: Some((point.worker_count * point.concurrency_per_worker) as u64),
        }),
{
    let mut workers: Vec<WorkerSpec> = no_workers();
    let mut index: u32 = 0;
    let ghost all = Seq::new(
        point.worker_count as nat,
        |i: int| env.worker_facts(i as u32, point.concurrency_per_worker, 10),
    );
    assert(workers_facts(workers@) =~= all.take(0));
    while index < point.worker_count
        invariant
            index <= point.worker_count,
            forall|i: u32| i < point.worker_count ==> #[trigger] env.has_port(i),
            all == Seq::new(
                point.worker_count as nat,
                |i: int| env.worker_facts(i as u32, point.concurrency_per_worker, 10),
            ),
            workers_facts(workers@) == all.take(index as int),
        decreases point.worker_count - index,
    {
        let worker = env.worker(index, point.concurrency_per_worker, 10);
        let ghost before = workers@;
        workers.push(worker);
        assert(workers_facts(workers@) =~= workers_facts(before).push(worker@));
        assert(workers_facts(workers@) =~= all.take(index + 1));
        index = index + 1;
    }
    assert(all.take(index as int) =~= all);
    let warmup = if point.warmup_jobs > 0 {
        Some(
            Submission {
                label: "scaling-warmup".to_string(),
                start_index: 0,
                count: point.warmup_jobs,
                concurrency: 32,
                max_attempts: 5,
            },
        )
    } else {
        None
    };
    WorkloadPlan {
        downstream: Downstream::DelayMs(point.latency_ms),
        warmup,
        warmup_workers: no_workers(),
        warmup_drain: DrainWait { deadline_secs: 180, poll_ms: 200 },
        measured: Submission {
            label: "scaling".to_string(),
            start_index: point.warmup_jobs,
            count: point.job_count,
            concurrency: 64,
            max_attempts: 5,
        },
        reset_inflight: true,
        observe_peak: true,
        workers,
        drain: Some(DrainWait { deadline_secs: 180, poll_ms: 150 }),
        capacity: Some((point.worker_count * point.concurrency_per_worker) as u64),
    }
}

pub const RETRY_SEED: u64 = 20260818;

/// Retry degradation: requests to the charge service fail at a rate, and are retried with a base delay
/// that is short enough for the run to end in time.
pub fn retry_degradation_plan(
    env: &EnvironmentConfig,
    cfg: &RetryDegradationConfig,
    rate: &FailureRate,
    run_number: u32,
) -> (plan: WorkloadPlan)
    requires
        env.has_port(0),
    ensures
        plan@ == (WorkloadFacts {
            downstream: if rate.positive {
                Downstream::FailRate { status: 503, seed: (20260818 + run_number) as u64 }
            } else {
                Downstream::Normal
            },
            warmup: None,
            warmup_workers: seq![],
            warmup_drain: DrainWait { deadline_secs: 180, poll_ms: 200 },
            measured: SubmissionFacts {
                label: "retry-degradation"@,
                start_index: 0,
                count: cfg.job_count,
                concurrency: 64,
                max_attempts: 6,
            },
            reset_inflight: false,
            observe_peak: true,
            workers: seq![
                (WorkerFacts {
                    retry_base_delay_ms: Some(200),
                    ..env.worker_facts(0, cfg.worker_concurrency, 10)
                }),
            ],
            drain: Some(DrainWait { deadline_secs: 180, poll_ms: 200 }),
            capacity: Some(cfg.worker_concurrency as u64),
        }),
{
    let mut worker = env.worker(0, cfg.worker_concurrency, 10);
    worker.retry_base_delay_ms = Some(200);
    WorkloadPlan {
        downstream: if rate.positive {
            Downstream::FailRate { status: 503, seed: RETRY_SEED + run_number as u64 }
        } else {
            Downstream::Normal
        },
        warmup: None,
        warmup_workers: no_workers(),
        warmup_drain: DrainWait { deadline_secs: 180, poll_ms: 200 },
        measured: Submission {
            label: "retry-degradation".to_string(),
            start_index: 0,
            count: cfg.job_count,
            concurrency: 64,
            max_attempts: 6,
        },
        reset_inflight: false,
        observe_peak: true,
        workers: one_worker(worker),
        drain: Some(DrainWait { deadline_secs: 180, poll_ms: 200 }),
        capacity: Some(cfg.worker_concurrency as u64),
    }
}

/// Backlog: one worker works off a large number of jobs.
pub fn backlog_plan(env: &EnvironmentConfig, cfg: &BacklogConfig, backlog: u64) -> (plan: WorkloadPlan)
    requires
        env.has_port(0),
    ensures
        plan@ == (WorkloadFacts {
            downstream: Downstream::Untouched,
            warmup: None,
            warmup_workers: seq![],
            warmup_drain: DrainWait { deadline_secs: 180, poll_ms: 200 },
            measured: SubmissionFacts {
                label: "backlog"@,
                start_index: 0,
                count: backlog,
                concurrency: 128,
                max_attempts: 5,
            },
            reset_inflight: false,
            observe_peak: false,
            workers: seq![env.worker_facts(0, cfg.worker_concurrency, 15)],
            drain: Some(DrainWait { deadline_secs: 900, poll_ms: 500 }),
            capacity: Some(cfg.worker_concurrency as u64),
        }),
{
    WorkloadPlan {
        downstream: Downstream::Untouched,
        warmup: None,
        warmup_workers: no_workers(),
        warmup_drain: DrainWait { deadline_secs: 180, poll_ms: 200 },
        measured: Submission {
            label: "backlog".to_string(),
            start_index: 0,
            count: backlog,
            concurrency: 128,
            max_attempts: 5,
        },
        reset_inflight: false,
        observe_peak: false,
        workers: one_worker(env.worker(0, cfg.worker_concurrency, 15)),
        drain: Some(DrainWait { deadline_secs: 900, poll_ms: 500 }),
        capacity: Some(cfg.worker_concurrency as u64),
    }
}

// ---------------------------------------------------------------------------------------------
// Runs that drive the store themselves
// ---------------------------------------------------------------------------------------------

/// A run that puts jobs into the store, and claims and executes them without a worker process.
#[derive(Debug)]
pub struct DirectPlan {
    pub label: String,
    pub job_count: u64,
    pub max_attempts: i32,
    pub worker_id: &'static str,
    pub batch_size: i64,
    pub lease_secs: u64,
    /// `None` if the run ends as soon as there is nothing to claim.
    pub deadline_secs: Option<u64>,
}

/// Claim batch: jobs are claimed in batches of one size until none is left.
pub fn claim_batch_plan(cfg: &ClaimBatchConfig, batch_size: i64) -> (plan: DirectPlan)
    ensures
        plan.label@ == "claim-batch"@,
        plan.job_count == cfg.job_count,
        plan.max_attempts == 5,
        plan.worker_id@ == "bench-claim-worker"@,
        plan.batch_size == batch_size,
        plan.lease_secs == 10,
        plan.deadline_secs is None,
{
    DirectPlan {
        label: "claim-batch".to_string(),
        job_count: cfg.job_count,
        max_attempts: 5,
        worker_id: "bench-claim-worker",
        batch_size,
        lease_secs: 10,
        deadline_secs: None,
    }
}

/// Failpoint: the first attempt of every job crashes, and the job is taken over when its lease has run
/// out.
pub fn failpoint_plan(name: FailpointName, job_count: u64) -> (plan: DirectPlan)
    ensures
        plan.label@ == "crash-"@ + label_text(name),
        plan.job_count == job_count,
        plan.max_attempts == 6,
        plan.worker_id@ == "bench-crash-worker"@,
        plan.batch_size == 10,
        plan.lease_secs == 2,
        plan.deadline_secs == Some(60u64),
{
    DirectPlan {
        label: join2("crash-", failpoint_label(name)),
        job_count,
        max_attempts: 6,
        worker_id: "bench-crash-worker",
        batch_size: 10,
        lease_secs: 2,
        deadline_secs: Some(60),
    }
}

// ---------------------------------------------------------------------------------------------
// Killing a worker
// ---------------------------------------------------------------------------------------------

/// A run in which a worker process is killed in the middle of its work, and another one takes over.
#[derive(Debug)]
pub struct KillPlan {
    /// How slow the charge service is until the first worker is killed: longer than the lease, so that
    /// what it has claimed is still in progress.
    pub delay_before_kill_ms: u64,
    pub measured: Submission,
    pub first_worker: WorkerSpec,
    /// How long the first worker lives.
    pub pause_ms: u64,
    pub second_worker: WorkerSpec,
    pub drain: DrainWait,
}

/// Real kill: `job_count` jobs, all submitted at once, all of which a worker can handle at once.
pub fn real_kill_plan(env: &EnvironmentConfig, job_count: u64) -> (plan: KillPlan)
    requires
        env.has_port(1),
        job_count <= u32::MAX,
    ensures
        ({
            let concurrency = if job_count == 0 {
                1u32
            } else {
                job_count as u32
            };
            &&& plan.delay_before_kill_ms == 10_000
            &&& plan.measured@ == (SubmissionFacts {
                label: "crash-real-kill"@,
                start_index: 0,
                count: job_count,
                concurrency: job_count as u32,
                max_attempts: 5,
            })
            &&& plan.first_worker@ == env.worker_facts(0, concurrency, 5)
            &&& plan.pause_ms == 800
            &&& plan.second_worker@ == env.worker_facts(1, concurrency, 5)
            &&& plan.drain == (DrainWait { deadline_secs: 120, poll_ms: 200 })
        }),
        plan.delay_before_kill_ms > 1000 * plan.first_worker.lease_duration_secs,
{
    let lease: u64 = 5;
    let concurrency: u32 = if job_count == 0 {
        1
    } else {
        job_count as u32
    };
    KillPlan {
        delay_before_kill_ms: (lease + 5) * 1000,
        measured: Submission {
            label: "crash-real-kill".to_string(),
            start_index: 0,
            count: job_count,
            concurrency: job_count as u32,
            max_attempts: 5,
        },
        first_worker: env.worker(0, concurrency, lease),
        pause_ms: 800,
        second_worker: env.worker(1, concurrency, lease),
        drain: DrainWait { deadline_secs: 120, poll_ms: 200 },
    }
}

// ---------------------------------------------------------------------------------------------
// Contention for an idempotency key
// ---------------------------------------------------------------------------------------------

pub const REPLAY_AMOUNT_CENTS: i64 = 555;

pub const SHARED_AMOUNT_CENTS: i64 = 4200;

/// Two amounts that differ, charged under the same key.
pub const CONFLICT_FIRST_CENTS: i64 = 111;

pub const CONFLICT_SECOND_CENTS: i64 = 222;

/// The key of request `i` among those that share no key.
pub open spec fn unique_key_text(run_number: u32, i: u32) -> Seq<char> {
    "bench-unique-"@ + decimal(run_number as nat) + "-"@ + decimal(i as nat)
}

pub fn unique_key(run_number: u32, i: u32) -> (s: String)
    ensures
        s@ == unique_key_text(run_number, i),
{
    join2(
        &join3("bench-unique-", &decimal_text(run_number as u64), "-"),
        &decimal_text(i as u64),
    )
}

/// The amount of request `i` among those that share no key.
pub fn unique_amount_cents(i: u32) -> (n: i64)
    ensures
        n == 100 + i,
{
    100 + i as i64
}

/// The requests of one run that are to share no key do not.
pub proof fn law_unique_keys_differ(run_number: u32, i: u32, k: u32)
    ensures
        unique_key_text(run_number, i) == unique_key_text(run_number, k) ==> i == k,
{
    if unique_key_text(run_number, i) == unique_key_text(run_number, k) {
        let prefix = "bench-unique-"@ + decimal(run_number as nat) + "-"@;
        let n = prefix.len() as int;
        assert(decimal(i as nat) =~= unique_key_text(run_number, i).skip(n));
        assert(decimal(k as nat) =~= unique_key_text(run_number, k).skip(n));
        crate::text::law_decimal_round_trip(i as nat);
        crate::text::law_decimal_round_trip(k as nat);
    }
}

/// The key of the request that is made twice.
pub fn replay_key(run_number: u32) -> (s: String)
    ensures
        s@ == "bench-replay-"@ + decimal(run_number as nat),
{
    join2("bench-replay-", &decimal_text(run_number as u64))
}

/// The key that all requests at once share.
pub fn shared_key(run_number: u32) -> (s: String)
    ensures
        s@ == "bench-shared-"@ + decimal(run_number as nat),
{
    join2("bench-shared-", &decimal_text(run_number as u64))
}

/// The key under which two different requests are made.
pub fn conflict_key(run_number: u32) -> (s: String)
    ensures
        s@ == "bench-conflict-"@ + decimal(run_number as nat),
{
    join2("bench-conflict-", &decimal_text(run_number as u64))
}

/// Worker `index` shows its metrics at the port that many above the base port, and is started with what
/// the profile says: the database, the charge service, and the programs' directory. It polls ten times
/// a second.
pub proof fn law_workers_are_set_up_by_the_profile(
    env: EnvironmentConfig,
    index: u32,
    concurrency: u32,
    lease: u64,
)
    requires
        index < 65_536,
    ensures
        env.port(index) == env.worker_metrics_bind_base_port + index,
        env.has_port(index) <==> env.worker_metrics_bind_base_port + index <= 65_535,
        ({
            let worker = env.worker_facts(index, concurrency, lease);
            &&& worker.binary_dir == env.binary_dir@ && worker.database_url == env.database_url@
            &&& worker.charge_service_url == "http://"@ + env.fake_charge_bind@
            &&& worker.concurrency == concurrency && worker.lease_duration_secs == lease
            &&& worker.poll_interval_ms * 10 == 1000
            &&& worker.metrics_bind_addr == "127.0.0.1:"@ + decimal(
                (env.worker_metrics_bind_base_port + index) as nat,
            )
            &&& worker.retry_base_delay_ms is None
        }),
{
}

/// A plan says what its fields hold.
pub proof fn law_plans_say_what_they_hold(plan: WorkloadPlan, i: int)
    requires
        0 <= i < plan.workers@.len(),
    ensures
        plan@.downstream == plan.downstream && plan@.drain == plan.drain && plan@.capacity
            == plan.capacity && plan@.warmup_drain == plan.warmup_drain,
        plan@.reset_inflight == plan.reset_inflight && plan@.observe_peak == plan.observe_peak,
        plan@.measured.label == plan.measured.label@ && plan@.measured.start_index
            == plan.measured.start_index && plan@.measured.count == plan.measured.count
            && plan@.measured.concurrency == plan.measured.concurrency
            && plan@.measured.max_attempts == plan.measured.max_attempts,
        plan@.warmup is Some <==> plan.warmup is Some,
        plan@.workers.len() == plan.workers@.len(),
        plan@.workers[i].concurrency == plan.workers@[i].concurrency,
        plan@.workers[i].lease_duration_secs == plan.workers@[i].lease_duration_secs,
        plan@.workers[i].metrics_bind_addr == plan.workers@[i].metrics_bind_addr@,
{
}

} // verus!
