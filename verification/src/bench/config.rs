//! What a benchmark profile asks for, one section for each scenario.

use vstd::prelude::*;

verus! {

/// How often each point is run if the profile does not say.
pub fn default_repeat() -> (n: u32)
    ensures
        n == 3,
{
    3
}

/// The downstream latency of the scaling scenario if the profile does not say. It is not zero, so that
/// the concurrency, and not the database, limits the throughput.
pub fn default_scaling_latency_ms() -> (ms: u64)
    ensures
        ms == 20,
{
    20
}

#[derive(Debug, Clone)]
pub struct BenchConfig {
    pub environment: EnvironmentConfig,
    pub repeat: u32,
    pub ingestion: Option<IngestionConfig>,
    pub execution: Option<ExecutionConfig>,
    pub scaling: Option<ScalingConfig>,
    pub claim_batch: Option<ClaimBatchConfig>,
    pub downstream_latency: Option<DownstreamLatencyConfig>,
    pub retry_degradation: Option<RetryDegradationConfig>,
    pub backlog: Option<BacklogConfig>,
    pub crash_recovery: Option<CrashRecoveryConfig>,
    pub idempotency: Option<IdempotencyConfig>,
}

#[derive(Debug, Clone)]
pub struct EnvironmentConfig {
    pub api_bind: String,
    pub worker_metrics_bind_base_port: u16,
    pub fake_charge_bind: String,
    pub database_url: String,
    pub binary_dir: String,
}

#[derive(Debug, Clone)]
pub struct IngestionConfig {
    pub enabled: bool,
    pub requests: u64,
    pub warmup_requests: u64,
    pub concurrencies: Vec<u32>,
}

#[derive(Debug, Clone)]
pub struct ExecutionConfig {
    pub enabled: bool,
    pub job_count: u64,
    pub warmup_jobs: u64,
    pub concurrencies: Vec<u32>,
    pub latencies_ms: Vec<u64>,
}

#[derive(Debug, Clone)]
pub struct ScalingConfig {
    pub enabled: bool,
    pub job_count: u64,
    pub warmup_jobs: u64,
    /// Pairs of worker count and concurrency per worker, all with the same total.
    pub fixed_total: Vec<(u32, u32)>,
    /// Pairs of worker count and concurrency per worker, with a growing total.
    pub increasing: Vec<(u32, u32)>,
    pub latency_ms: u64,
}

#[derive(Debug, Clone)]
pub struct ClaimBatchConfig {
    pub enabled: bool,
    pub job_count: u64,
    pub batch_sizes: Vec<i64>,
}

#[derive(Debug, Clone)]
pub struct DownstreamLatencyConfig {
    pub enabled: bool,
    pub job_count: u64,
    pub worker_concurrency: u32,
    pub latencies_ms: Vec<u64>,
}

/// A failure rate: whether it is above zero, and how it is written.
#[derive(Debug, Clone)]
pub struct FailureRate {
    pub positive: bool,
    pub text: String,
}

#[derive(Debug, Clone)]
pub struct RetryDegradationConfig {
    pub enabled: bool,
    pub job_count: u64,
    pub worker_concurrency: u32,
    pub failure_rates: Vec<FailureRate>,
}

#[derive(Debug, Clone)]
pub struct BacklogConfig {
    pub enabled: bool,
    pub backlogs: Vec<u64>,
    pub worker_concurrency: u32,
}

#[derive(Debug, Clone)]
pub struct CrashRecoveryConfig {
    pub enabled: bool,
    pub jobs_per_failpoint: u64,
}

#[derive(Debug, Clone)]
pub struct IdempotencyConfig {
    pub enabled: bool,
    pub concurrency_levels: Vec<u32>,
}

} // verus!
