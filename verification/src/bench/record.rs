//! What is recorded of a run, and where. Measured times and rates are added by the program that takes
//! them.

use crate::bench::env_info::{copy_pairs, opt_pairs, EnvInfo};
use crate::bench::failpoint::{failpoint_label, label_text, FailpointName};
use crate::bench::gate::{texts, CorrectnessResults};
use crate::bench::points::{ExecutionPoint, IngestionPoint, ScalingAxis, ScalingPoint};
use crate::text::{
    chars_of, copy_text, decimal, decimal_text, join2, join3, opt_text, same_text, signed_decimal,
    signed_text, text_of, trim_end_of, trim_start_of, without_leading, without_trailing,
};
use crate::time::Timestamp;
use chrono::DateTime;
use vstd::prelude::*;

verus! {

#[derive(Debug, Clone, Copy, PartialEq, Eq, Structural)]
pub enum RunStatus {
    /// Written as `ok`.
    Complete,
    Interrupted,
    Failed,
}

#[derive(Debug, Clone, Copy, PartialEq, Eq, Structural)]
pub struct ErrorCounts {
    pub http_errors: u64,
    pub timeouts: u64,
    pub other: u64,
}

impl Default for ErrorCounts {
    fn default() -> (c: ErrorCounts)
        ensures
            c == (ErrorCounts { http_errors: 0, timeouts: 0, other: 0 }),
    {
        ErrorCounts { http_errors: 0, timeouts: 0, other: 0 }
    }
}

// ---------------------------------------------------------------------------------------------
// Parameters
// ---------------------------------------------------------------------------------------------

/// A parameter of a run, its value written as JSON.
#[derive(Debug)]
pub struct Param {
    pub key: &'static str,
    pub value: String,
}

/// The parameters of a run.
#[derive(Debug)]
pub enum Params {
    /// There are none.
    Null,
    /// In the order of their keys.
    Fields(Vec<Param>),
    /// A single value, written as JSON.
    Value(String),
}

/// What some parameters say.
pub open spec fn param_texts(fields: Seq<Param>) -> Seq<(Seq<char>, Seq<char>)> {
    fields.map_values(|p: Param| (p.key@, p.value@))
}

fn number_param(key: &'static str, n: u64) -> (p: Param)
    ensures
        p.key@ == key@,
        p.value@ == decimal(n as nat),
{
    Param { key, value: decimal_text(n) }
}

/// A text in double quotes.
pub open spec fn in_quotes(s: Seq<char>) -> Seq<char> {
    "\""@ + s + "\""@
}

fn text_param(key: &'static str, s: &str) -> (p: Param)
    ensures
        p.key@ == key@,
        p.value@ == in_quotes(s@),
{
    Param { key, value: join3("\"", s, "\"") }
}

/// The text without the double quotes around it.
pub open spec fn unquoted(s: Seq<char>) -> Seq<char> {
    without_trailing(without_leading(s, '"'), '"')
}

/// The fields as `key=value`, with commas between them.
pub open spec fn fields_text(fields: Seq<(Seq<char>, Seq<char>)>) -> Seq<char>
    decreases fields.len(),
{
    if fields.len() == 0 {
        seq![]
    } else {
        let last = fields.last().0 + "="@ + unquoted(fields.last().1);
        if fields.len() == 1 {
            last
        } else {
            fields_text(fields.drop_last()) + ","@ + last
        }
    }
}

impl Params {
    /// The parameters in one word.
    pub open spec fn fragment(self) -> Seq<char> {
        match self {
            Params::Null => "default"@,
            Params::Fields(fields) => fields_text(param_texts(fields@)),
            Params::Value(value) => value@,
        }
    }
}

/// The parameters in one word, for the name of a directory.
pub fn params_fragment(params: &Params) -> (s: String)
    ensures
        s@ == params.fragment(),
{
    match params {
        Params::Null => "default".to_string(),
        Params::Value(value) => value.clone(),
        Params::Fields(fields) => {
            let ghost all = param_texts(fields@);
            let mut s = String::new();
            let mut i: usize = 0;
            assert(all.take(0) =~= Seq::<(Seq<char>, Seq<char>)>::empty());
            while i < fields.len()
                invariant
                    i <= fields.len(),
                    all == param_texts(fields@),
                    s@ == fields_text(all.take(i as int)),
                decreases fields.len() - i,
            {
                assert(all.take(i + 1).drop_last() =~= all.take(i as int));
                assert(all.take(i + 1).last() == all[i as int]);
                let field = join3(fields[i].key, "=", &trim_end_of(&trim_start_of(&fields[i].value, '"'), '"'));
                s = if i == 0 {
                    field
                } else {
                    join3(&s, ",", &field)
                };
                i = i + 1;
            }
            assert(all.take(i as int) =~= all);
            s
        },
    }
}

// ---------------------------------------------------------------------------------------------
// Files
// ---------------------------------------------------------------------------------------------

/// A letter, a digit, a hyphen or an underscore, all of them ASCII.
pub open spec fn plain_char(c: char) -> bool {
    'a' <= c <= 'z' || 'A' <= c <= 'Z' || '0' <= c <= '9' || c == '-' || c == '_'
}

pub open spec fn sanitized(s: Seq<char>) -> Seq<char> {
    s.map_values(
        |c: char|
            if plain_char(c) {
                c
            } else {
                '_'
            },
    )
}

/// Replaces everything but plain characters by underscores.
pub fn sanitize(s: &str) -> (r: String)
    ensures
        r@ == sanitized(s@),
{
    let x = chars_of(s);
    let ghost all = sanitized(s@);
    let mut r = String::new();
    let mut i: usize = 0;
    while i < x.len()
        invariant
            x@ == s@,
            i <= x.len(),
            all == sanitized(s@),
            r@ == all.take(i as int),
        decreases x.len() - i,
    {
        let c = x[i];
        let plain = (c >= 'a' && c <= 'z') || (c >= 'A' && c <= 'Z') || (c >= '0' && c <= '9') || c
            == '-' || c == '_';
        r.push(if plain { c } else { '_' });
        assert(all.take(i as int).push(all[i as int]) =~= all.take(i + 1));
        i = i + 1;
    }
    assert(all.take(i as int) =~= all);
    r
}

/// What is left after sanitizing holds plain characters alone, is as long as before, and is not changed
/// by sanitizing again.
pub proof fn law_sanitized_names_are_plain(s: Seq<char>)
    ensures
        sanitized(s).len() == s.len(),
        forall|i: int| 0 <= i < s.len() ==> plain_char(#[trigger] sanitized(s)[i]),
        sanitized(sanitized(s)) == sanitized(s),
{
    assert(sanitized(sanitized(s)) =~= sanitized(s));
}

/// The format of the time stamp in the name of a file: date and time without separators, to the
/// millisecond.
pub open spec fn stamp_format() -> Seq<char> {
    "%Y%m%dT%H%M%S%.3fZ"@
}

/// What chrono prints of a point in time in a format.
pub uninterp spec fn formatted_time(secs: i64, nanos: u32, format: Seq<char>) -> Seq<char>;

/// Calls `DateTime::from_timestamp` and `format`. The text is a function of the point in time and of the
/// format, which `formatted_time` names. Only one format is asked for: there are texts that are no
/// format, and to print in one of those panics.
#[verifier::external_body]
fn format_time(at: Timestamp, format: &str) -> (s: String)
    requires
        at.has_date(),
        format@ == stamp_format(),
    ensures
        s@ == formatted_time(at.secs, at.nanos, format@),
{
    let at = DateTime::from_timestamp(at.secs, at.nanos).unwrap_or_default();
    at.format(format).to_string()
}

/// The directories under which a result is written, and the name of its file.
#[derive(Debug)]
pub struct ResultPath {
    pub scenario_dir: String,
    pub params_dir: String,
    pub file_name: String,
}

/// The name of the file that holds run `run_number`, given its time stamp.
pub fn file_name(stamp: &str, run_number: u32) -> (s: String)
    ensures
        s@ == stamp@ + "-run"@ + decimal(run_number as nat) + ".json"@,
{
    join2(&join3(stamp, "-run", &decimal_text(run_number as u64)), ".json")
}

/// Where the result of a run is written.
pub fn result_path(scenario: &str, params: &Params, at: Timestamp, run_number: u32) -> (p: ResultPath)
    requires
        at.has_date(),
    ensures
        p.scenario_dir@ == sanitized(scenario@),
        p.params_dir@ == sanitized(params.fragment()),
        p.file_name@ == formatted_time(at.secs, at.nanos, stamp_format()) + "-run"@ + decimal(run_number as nat)
            + ".json"@,
{
    ResultPath {
        scenario_dir: sanitize(scenario),
        params_dir: sanitize(&params_fragment(params)),
        file_name: file_name(&format_time(at, "%Y%m%dT%H%M%S%.3fZ"), run_number),
    }
}

/// Whether a file holds a result: its name ends in `.json`, with something before that.
pub fn is_json_file(name: &str) -> (r: bool)
    ensures
        r == (name@.len() > 5 && ".json"@.is_suffix_of(name@)),
{
    let x = chars_of(name);
    proof {
        reveal_strlit(".json");
    }
    if x.len() <= 5 {
        return false;
    }
    let tail = text_of(&x, x.len() - 5, x.len());
    assert(tail@ =~= name@.subrange(name@.len() - 5, name@.len() as int));
    same_text(&tail, ".json")
}

// ---------------------------------------------------------------------------------------------
// Results
// ---------------------------------------------------------------------------------------------

/// How failed attempts were retried in a run.
#[derive(Debug, Clone, Copy)]
pub struct RetryConfiguration {
    pub base_delay_ms: u64,
    pub multiplier: u32,
    pub max_delay_secs: u64,
    pub note: &'static str,
}

/// What a [`RetryConfiguration`] says.
#[verifier::ext_equal]
pub struct RetryFacts {
    pub base_delay_ms: u64,
    pub multiplier: u32,
    pub max_delay_secs: u64,
    pub note: Seq<char>,
}

impl View for RetryConfiguration {
    type V = RetryFacts;

    open spec fn view(&self) -> RetryFacts {
        RetryFacts {
            base_delay_ms: self.base_delay_ms,
            multiplier: self.multiplier,
            max_delay_secs: self.max_delay_secs,
            note: self.note@,
        }
    }
}

/// How a run was set up, and what was counted in it.
#[derive(Debug)]
pub struct RunSetup {
    pub api_process_count: u32,
    pub worker_process_count: u32,
    pub worker_concurrency: u32,
    pub claim_batch_size: i64,
    pub lease_duration_secs: u64,
    /// `None` where the scenario leaves it to the workers.
    pub retry_configuration: Option<RetryConfiguration>,
    pub fake_charge_latency_ms: u64,
    pub fake_charge_failure_mode: String,
    pub job_count: u64,
    pub throughput_unit: &'static str,
    pub error_counts: ErrorCounts,
}

/// What a [`RunSetup`] says.
#[verifier::ext_equal]
pub struct SetupFacts {
    pub api_process_count: u32,
    pub worker_process_count: u32,
    pub worker_concurrency: u32,
    pub claim_batch_size: i64,
    pub lease_duration_secs: u64,
    pub retry_configuration: Option<RetryFacts>,
    pub fake_charge_latency_ms: u64,
    pub fake_charge_failure_mode: Seq<char>,
    pub job_count: u64,
    pub throughput_unit: Seq<char>,
    pub error_counts: ErrorCounts,
}

impl View for RunSetup {
    type V = SetupFacts;

    open spec fn view(&self) -> SetupFacts {
        SetupFacts {
            api_process_count: self.api_process_count,
            worker_process_count: self.worker_process_count,
            worker_concurrency: self.worker_concurrency,
            claim_batch_size: self.claim_batch_size,
            lease_duration_secs: self.lease_duration_secs,
            retry_configuration: match self.retry_configuration {
                Some(retry) => Some(retry@),
                None => None,
            },
            fake_charge_latency_ms: self.fake_charge_latency_ms,
            fake_charge_failure_mode: self.fake_charge_failure_mode@,
            job_count: self.job_count,
            throughput_unit: self.throughput_unit@,
            error_counts: self.error_counts,
        }
    }
}

pub open spec fn no_errors() -> ErrorCounts {
    ErrorCounts { http_errors: 0, timeouts: 0, other: 0 }
}

/// Submissions that failed.
pub open spec fn http_errors(n: usize) -> ErrorCounts {
    ErrorCounts { http_errors: n as u64, timeouts: 0, other: 0 }
}

impl SetupFacts {
    /// Nothing was started and nothing was counted.
    pub open spec fn base() -> SetupFacts {
        SetupFacts {
            api_process_count: 0,
            worker_process_count: 0,
            worker_concurrency: 0,
            claim_batch_size: 0,
            lease_duration_secs: 0,
            retry_configuration: None,
            fake_charge_latency_ms: 0,
            fake_charge_failure_mode: "normal"@,
            job_count: 0,
            throughput_unit: "jobs_per_sec"@,
            error_counts: no_errors(),
        }
    }
}

impl RunSetup {
    pub fn base() -> (s: RunSetup)
        ensures
            s@ == SetupFacts::base(),
    {
        RunSetup {
            api_process_count: 0,
            worker_process_count: 0,
            worker_concurrency: 0,
            claim_batch_size: 0,
            lease_duration_secs: 0,
            retry_configuration: None,
            fake_charge_latency_ms: 0,
            fake_charge_failure_mode: "normal".to_string(),
            job_count: 0,
            throughput_unit: "jobs_per_sec",
            error_counts: ErrorCounts::default(),
        }
    }
}

/// The record of a run, as far as it is not measured.
#[derive(Debug)]
pub struct RunResult {
    pub schema_version: u32,
    pub timestamp_utc: Timestamp,
    pub scenario: String,
    pub scenario_params: Params,
    pub run_number: u32,
    pub status: RunStatus,
    pub build_profile: &'static str,
    pub env: EnvInfo,
    pub setup: RunSetup,
    pub correctness_results: CorrectnessResults,
}

impl EnvInfo {
    /// Both say the same of the machine.
    pub open spec fn same_as(self, other: EnvInfo) -> bool {
        &&& self.git_commit@ == other.git_commit@
        &&& self.git_dirty == other.git_dirty
        &&& self.rust_version@ == other.rust_version@
        &&& self.os@ == other.os@
        &&& self.os_version@ == other.os_version@
        &&& self.architecture@ == other.architecture@
        &&& opt_text(self.cpu_model) == opt_text(other.cpu_model)
        &&& self.logical_cpu_count == other.logical_cpu_count
        &&& self.memory_bytes == other.memory_bytes
        &&& opt_text(self.docker_version) == opt_text(other.docker_version)
        &&& opt_text(self.postgres_version) == opt_text(other.postgres_version)
        &&& opt_pairs(self.postgres_configuration) == opt_pairs(other.postgres_configuration)
    }
}

impl Clone for EnvInfo {
    fn clone(&self) -> (info: EnvInfo)
        ensures
            info.same_as(*self),
    {
        EnvInfo {
            git_commit: self.git_commit.clone(),
            git_dirty: self.git_dirty,
            rust_version: self.rust_version.clone(),
            os: self.os.clone(),
            os_version: self.os_version.clone(),
            architecture: self.architecture.clone(),
            cpu_model: copy_text(&self.cpu_model),
            logical_cpu_count: self.logical_cpu_count,
            memory_bytes: self.memory_bytes,
            docker_version: copy_text(&self.docker_version),
            postgres_version: copy_text(&self.postgres_version),
            postgres_configuration: copy_pairs(&self.postgres_configuration),
        }
    }
}

impl RunResult {
    /// The record of run `run_number` of a scenario, made on that machine at that time.
    pub open spec fn is_of(
        self,
        env: EnvInfo,
        scenario: Seq<char>,
        run_number: u32,
        now: Timestamp,
    ) -> bool {
        &&& self.schema_version == 1
        &&& self.timestamp_utc == now
        &&& self.scenario@ == scenario
        &&& self.run_number == run_number
        &&& self.status == RunStatus::Complete
        &&& self.build_profile@ == "release"@
        &&& self.env.same_as(env)
    }

    /// The record of a run before anything has happened. It has not passed until it is judged.
    pub fn base(
        env: &EnvInfo,
        scenario: &str,
        scenario_params: Params,
        run_number: u32,
        now: Timestamp,
    ) -> (r: Self)
        ensures
            r.is_of(*env, scenario@, run_number, now),
            r.scenario_params == scenario_params,
            r.setup@ == SetupFacts::base(),
            !r.correctness_results.passed,
            r.correctness_results.checks is None,
            texts(r.correctness_results.failures@) == seq!["not yet run"@],
    {
        let mut failures: Vec<String> = Vec::new();
        failures.push("not yet run".to_string());
        assert(texts(failures@) =~= seq!["not yet run"@]);
        RunResult {
            schema_version: 1,
            timestamp_utc: now,
            scenario: scenario.to_string(),
            scenario_params,
            run_number,
            status: RunStatus::Complete,
            build_profile: "release",
            env: env.clone(),
            setup: RunSetup::base(),
            correctness_results: CorrectnessResults {
                passed: false,
                checks: None,
                failures,
            },
        }
    }

    /// Where the record is written.
    pub fn path(&self) -> (p: ResultPath)
        requires
            self.timestamp_utc.has_date(),
        ensures
            p.scenario_dir@ == sanitized(self.scenario@),
            p.params_dir@ == sanitized(self.scenario_params.fragment()),
            p.file_name@ == formatted_time(
                self.timestamp_utc.secs,
                self.timestamp_utc.nanos,
                stamp_format(),
            ) + "-run"@ + decimal(self.run_number as nat) + ".json"@,
    {
        result_path(&self.scenario, &self.scenario_params, self.timestamp_utc, self.run_number)
    }
}

// ---------------------------------------------------------------------------------------------
// Scenarios
// ---------------------------------------------------------------------------------------------

fn fields1(a: Param) -> (p: Params)
    ensures
        p matches Params::Fields(v) && param_texts(v@) == seq![(a.key@, a.value@)],
{
    let mut v: Vec<Param> = Vec::new();
    v.push(a);
    assert(param_texts(v@) =~= seq![(a.key@, a.value@)]);
    Params::Fields(v)
}

fn fields2(a: Param, b: Param) -> (p: Params)
    ensures
        p matches Params::Fields(v) && param_texts(v@) == seq![
            (a.key@, a.value@),
            (b.key@, b.value@),
        ],
{
    let mut v: Vec<Param> = Vec::new();
    v.push(a);
    v.push(b);
    assert(param_texts(v@) =~= seq![(a.key@, a.value@), (b.key@, b.value@)]);
    Params::Fields(v)
}

pub fn ingestion_params(point: &IngestionPoint) -> (p: Params)
    ensures
        p matches Params::Fields(v) && param_texts(v@) == seq![
            ("concurrency"@, decimal(point.concurrency as nat)),
        ],
{
    fields1(number_param("concurrency", point.concurrency as u64))
}

/// Ingestion: every submission counts, whether it was accepted or not.
pub fn ingestion_setup(submitted: usize, failed: usize) -> (s: RunSetup)
    ensures
        s@ == (SetupFacts {
            api_process_count: 1,
            job_count: submitted as u64,
            throughput_unit: "requests_per_sec"@,
            error_counts: http_errors(failed),
            ..SetupFacts::base()
        }),
{
    let mut s = RunSetup::base();
    s.api_process_count = 1;
    s.job_count = submitted as u64;
    s.throughput_unit = "requests_per_sec";
    s.error_counts = ErrorCounts { http_errors: failed as u64, timeouts: 0, other: 0 };
    s
}

pub fn execution_params(point: &ExecutionPoint) -> (p: Params)
    ensures
        p matches Params::Fields(v) && param_texts(v@) == seq![
            ("downstream_latency_ms"@, decimal(point.latency_ms as nat)),
            ("worker_concurrency"@, decimal(point.concurrency as nat)),
        ],
{
    fields2(
        number_param("downstream_latency_ms", point.latency_ms),
        number_param("worker_concurrency", point.concurrency as u64),
    )
}

/// Execution: the accepted jobs count.
pub fn execution_setup(point: &ExecutionPoint, accepted: usize, failed: usize) -> (s: RunSetup)
    ensures
        s@ == (SetupFacts {
            api_process_count: 1,
            worker_process_count: 1,
            worker_concurrency: point.concurrency,
            lease_duration_secs: 10,
            fake_charge_latency_ms: point.latency_ms,
            job_count: accepted as u64,
            error_counts: http_errors(failed),
            ..SetupFacts::base()
        }),
{
    let mut s = RunSetup::base();
    s.api_process_count = 1;
    s.worker_process_count = 1;
    s.worker_concurrency = point.concurrency;
    s.lease_duration_secs = 10;
    s.fake_charge_latency_ms = point.latency_ms;
    s.job_count = accepted as u64;
    s.error_counts = ErrorCounts { http_errors: failed as u64, timeouts: 0, other: 0 };
    s
}

impl ScalingAxis {
    /// The name of the axis in the results.
    pub open spec fn text(self) -> Seq<char> {
        match self {
            ScalingAxis::FixedTotal => "fixed_total_concurrency"@,
            ScalingAxis::Increasing => "increasing_total_concurrency"@,
        }
    }

    pub fn name(self) -> (s: &'static str)
        ensures
            s@ == self.text(),
    {
        match self {
            ScalingAxis::FixedTotal => "fixed_total_concurrency",
            ScalingAxis::Increasing => "increasing_total_concurrency",
        }
    }
}

pub fn scaling_params(point: &ScalingPoint) -> (p: Params)
    requires
        point.worker_count * point.concurrency_per_worker <= u32::MAX,
    ensures
        p matches Params::Fields(v) && param_texts(v@) == seq![
            ("axis"@, in_quotes(point.axis.text())),
            ("concurrency_per_worker"@, decimal(point.concurrency_per_worker as nat)),
            (
                "total_concurrency"@,
                decimal((point.worker_count * point.concurrency_per_worker) as nat),
            ),
            ("worker_count"@, decimal(point.worker_count as nat)),
        ],
{
    let total: u32 = point.worker_count * point.concurrency_per_worker;
    let mut v: Vec<Param> = Vec::new();
    v.push(text_param("axis", point.axis.name()));
    v.push(number_param("concurrency_per_worker", point.concurrency_per_worker as u64));
    v.push(number_param("total_concurrency", total as u64));
    v.push(number_param("worker_count", point.worker_count as u64));
    assert(param_texts(v@) =~= seq![
        ("axis"@, in_quotes(point.axis.text())),
        ("concurrency_per_worker"@, decimal(point.concurrency_per_worker as nat)),
        ("total_concurrency"@, decimal((point.worker_count * point.concurrency_per_worker) as nat)),
        ("worker_count"@, decimal(point.worker_count as nat)),
    ]);
    Params::Fields(v)
}

pub fn scaling_setup(point: &ScalingPoint, accepted: usize, failed: usize) -> (s: RunSetup)
    ensures
        s@ == (SetupFacts {
            api_process_count: 1,
            worker_process_count: point.worker_count,
            worker_concurrency: point.concurrency_per_worker,
            lease_duration_secs: 10,
            fake_charge_latency_ms: point.latency_ms,
            job_count: accepted as u64,
            error_counts: http_errors(failed),
            ..SetupFacts::base()
        }),
{
    let mut s = RunSetup::base();
    s.api_process_count = 1;
    s.worker_process_count = point.worker_count;
    s.worker_concurrency = point.concurrency_per_worker;
    s.lease_duration_secs = 10;
    s.fake_charge_latency_ms = point.latency_ms;
    s.job_count = accepted as u64;
    s.error_counts = ErrorCounts { http_errors: failed as u64, timeouts: 0, other: 0 };
    s
}

/// The rate is given as it is written in JSON.
pub fn retry_degradation_params(rate_json: &str) -> (p: Params)
    ensures
        p matches Params::Fields(v) && param_texts(v@) == seq![
            ("transient_failure_rate"@, rate_json@),
        ],
{
    fields1(Param { key: "transient_failure_rate", value: rate_json.to_string() })
}

/// The retries of the retry scenario: as by default, but for a shorter base delay.
pub open spec fn compressed_retries() -> RetryFacts {
    RetryFacts {
        base_delay_ms: 200,
        multiplier: 2,
        max_delay_secs: 60,
        note: "compressed base_delay for this scenario only, see run_point doc comment"@,
    }
}

pub fn retry_degradation_setup(
    worker_concurrency: u32,
    rate_text: &str,
    accepted: usize,
) -> (s: RunSetup)
    ensures
        s@ == (SetupFacts {
            api_process_count: 1,
            worker_process_count: 1,
            worker_concurrency,
            lease_duration_secs: 10,
            retry_configuration: Some(compressed_retries()),
            fake_charge_failure_mode: "fail_rate="@ + rate_text@,
            job_count: accepted as u64,
            ..SetupFacts::base()
        }),
{
    let mut s = RunSetup::base();
    s.api_process_count = 1;
    s.worker_process_count = 1;
    s.worker_concurrency = worker_concurrency;
    s.lease_duration_secs = 10;
    s.retry_configuration = Some(
        RetryConfiguration {
            base_delay_ms: 200,
            multiplier: 2,
            max_delay_secs: 60,
            note: "compressed base_delay for this scenario only, see run_point doc comment",
        },
    );
    s.fake_charge_failure_mode = join2("fail_rate=", rate_text);
    s.job_count = accepted as u64;
    s
}

pub fn backlog_params(backlog: u64) -> (p: Params)
    ensures
        p matches Params::Fields(v) && param_texts(v@) == seq![
            ("backlog_size"@, decimal(backlog as nat)),
        ],
{
    fields1(number_param("backlog_size", backlog))
}

pub fn backlog_setup(worker_concurrency: u32, accepted: usize, failed: usize) -> (s: RunSetup)
    ensures
        s@ == (SetupFacts {
            api_process_count: 1,
            worker_process_count: 1,
            worker_concurrency,
            lease_duration_secs: 15,
            job_count: accepted as u64,
            error_counts: http_errors(failed),
            ..SetupFacts::base()
        }),
{
    let mut s = RunSetup::base();
    s.api_process_count = 1;
    s.worker_process_count = 1;
    s.worker_concurrency = worker_concurrency;
    s.lease_duration_secs = 15;
    s.job_count = accepted as u64;
    s.error_counts = ErrorCounts { http_errors: failed as u64, timeouts: 0, other: 0 };
    s
}

pub fn claim_batch_params(batch_size: i64) -> (p: Params)
    ensures
        p matches Params::Fields(v) && param_texts(v@) == seq![
            ("batch_size"@, signed_decimal(batch_size as int)),
        ],
{
    fields1(Param { key: "batch_size", value: signed_text(batch_size) })
}

pub fn claim_batch_setup(batch_size: i64, jobs: usize) -> (s: RunSetup)
    ensures
        s@ == (SetupFacts {
            claim_batch_size: batch_size,
            job_count: jobs as u64,
            ..SetupFacts::base()
        }),
{
    let mut s = RunSetup::base();
    s.claim_batch_size = batch_size;
    s.job_count = jobs as u64;
    s
}

pub fn failpoint_params(name: FailpointName) -> (p: Params)
    ensures
        p matches Params::Fields(v) && param_texts(v@) == seq![
            ("failpoint"@, in_quotes(label_text(name))),
        ],
{
    fields1(text_param("failpoint", failpoint_label(name)))
}

pub fn failpoint_setup(jobs: usize) -> (s: RunSetup)
    ensures
        s@ == (SetupFacts {
            lease_duration_secs: 2,
            job_count: jobs as u64,
            ..SetupFacts::base()
        }),
{
    let mut s = RunSetup::base();
    s.lease_duration_secs = 2;
    s.job_count = jobs as u64;
    s
}

pub fn real_kill_params() -> (p: Params)
    ensures
        p matches Params::Fields(v) && param_texts(v@) == seq![
            ("lease_duration_secs"@, decimal(5)),
        ],
{
    fields1(number_param("lease_duration_secs", 5))
}

pub fn real_kill_setup(accepted: usize) -> (s: RunSetup)
    ensures
        s@ == (SetupFacts {
            api_process_count: 1,
            worker_process_count: 2,
            lease_duration_secs: 5,
            job_count: accepted as u64,
            ..SetupFacts::base()
        }),
{
    let mut s = RunSetup::base();
    s.api_process_count = 1;
    s.worker_process_count = 2;
    s.lease_duration_secs = 5;
    s.job_count = accepted as u64;
    s
}

pub fn idempotency_params(concurrency: u32) -> (p: Params)
    ensures
        p matches Params::Fields(v) && param_texts(v@) == seq![
            ("concurrency"@, decimal(concurrency as nat)),
        ],
{
    fields1(number_param("concurrency", concurrency as u64))
}

/// Idempotency: what was answered neither with 200 nor with 201 counts as an error.
pub fn idempotency_setup(concurrency: u32, other: u32) -> (s: RunSetup)
    ensures
        s@ == (SetupFacts {
            job_count: concurrency as u64,
            throughput_unit: "requests_per_sec"@,
            error_counts: ErrorCounts { http_errors: other as u64, timeouts: 0, other: 0 },
            ..SetupFacts::base()
        }),
{
    let mut s = RunSetup::base();
    s.job_count = concurrency as u64;
    s.throughput_unit = "requests_per_sec";
    s.error_counts = ErrorCounts { http_errors: other as u64, timeouts: 0, other: 0 };
    s
}

/// A plain character stays in a name, and any other becomes an underscore. Letters, digits, the hyphen
/// and the underscore are plain.
pub proof fn law_sanitizing_replaces_all_but_plain_characters(s: Seq<char>, i: int)
    requires
        0 <= i < s.len(),
    ensures
        plain_char(s[i]) <==> ('a' <= s[i] <= 'z' || 'A' <= s[i] <= 'Z' || '0' <= s[i] <= '9' || s[i]
            == '-' || s[i] == '_'),
        plain_char(s[i]) ==> sanitized(s)[i] == s[i],
        !plain_char(s[i]) ==> sanitized(s)[i] == '_',
{
}

/// Quotes around a text that neither begins nor ends with one can be taken away again.
pub proof fn law_unquoting_undoes_quoting(s: Seq<char>)
    requires
        s.len() > 0,
        s.first() != '"',
        s.last() != '"',
    ensures
        unquoted(in_quotes(s)) == s,
        unquoted(s) == s,
{
    reveal_strlit("\"");
    let q = in_quotes(s);
    assert("\""@ =~= seq!['"']);
    assert(q.drop_first() =~= s + seq!['"']);
    assert((s + seq!['"'])[0] == s[0]);
    assert((s + seq!['"']).drop_last() =~= s);
    reveal_with_fuel(without_leading, 3);
    reveal_with_fuel(without_trailing, 3);
}

/// A field stands in the name of a directory as its key and its value, after those before it.
pub proof fn law_fields_stand_one_after_the_other(
    fields: Seq<(Seq<char>, Seq<char>)>,
    key: Seq<char>,
    value: Seq<char>,
)
    ensures
        fields.len() == 0 ==> fields_text(fields.push((key, value))) == key + "="@ + unquoted(value),
        fields.len() > 0 ==> fields_text(fields.push((key, value))) == fields_text(fields) + ","@ + (
        key + "="@ + unquoted(value)),
{
    assert(fields.push((key, value)).drop_last() =~= fields);
}

/// Two descriptions of a machine are the same if and only if they agree in everything that they say.
pub proof fn law_same_machines_agree_in_everything(a: EnvInfo, b: EnvInfo)
    ensures
        a.same_as(a),
        a.same_as(b) ==> b.same_as(a),
        a.same_as(b) ==> {
            &&& a.git_commit@ == b.git_commit@ && a.git_dirty == b.git_dirty
            &&& a.rust_version@ == b.rust_version@
            &&& a.os@ == b.os@ && a.os_version@ == b.os_version@ && a.architecture@
                == b.architecture@
            &&& a.logical_cpu_count == b.logical_cpu_count && a.memory_bytes == b.memory_bytes
            &&& a.cpu_model is Some <==> b.cpu_model is Some
            &&& a.cpu_model is Some ==> a.cpu_model->0@ == b.cpu_model->0@
            &&& a.docker_version is Some <==> b.docker_version is Some
            &&& a.docker_version is Some ==> a.docker_version->0@ == b.docker_version->0@
            &&& a.postgres_version is Some <==> b.postgres_version is Some
            &&& a.postgres_version is Some ==> a.postgres_version->0@ == b.postgres_version->0@
            &&& a.postgres_configuration is Some <==> b.postgres_configuration is Some
        },
{
}

/// What a record says of its run, whatever scenario it is of.
pub proof fn law_records_say_which_run_they_are_of(
    r: RunResult,
    env: EnvInfo,
    scenario: Seq<char>,
    run_number: u32,
    now: Timestamp,
)
    requires
        r.is_of(env, scenario, run_number, now),
    ensures
        r.scenario@ == scenario && r.run_number == run_number && r.timestamp_utc == now,
        r.schema_version == 1 && r.status is Complete && r.build_profile@ == "release"@,
        r.env.same_as(env),
{
}

/// Before anything is started or counted, a setup is empty.
pub proof fn law_setups_begin_empty(failed: usize)
    ensures
        ({
            let s = SetupFacts::base();
            &&& s.api_process_count == 0 && s.worker_process_count == 0 && s.worker_concurrency == 0
            &&& s.claim_batch_size == 0 && s.lease_duration_secs == 0
            &&& s.retry_configuration is None && s.fake_charge_latency_ms == 0
            &&& s.fake_charge_failure_mode == "normal"@ && s.job_count == 0
            &&& s.throughput_unit == "jobs_per_sec"@ && s.error_counts == no_errors()
        }),
        no_errors().http_errors == 0 && no_errors().timeouts == 0 && no_errors().other == 0,
        http_errors(failed).http_errors == failed && http_errors(failed).timeouts == 0
            && http_errors(failed).other == 0,
        compressed_retries().base_delay_ms == 200 && compressed_retries().multiplier == 2
            && compressed_retries().max_delay_secs == 60,
{
}

/// A setup says what its fields hold.
pub proof fn law_setups_say_what_they_hold(s: RunSetup)
    ensures
        s@.api_process_count == s.api_process_count && s@.worker_process_count
            == s.worker_process_count && s@.worker_concurrency == s.worker_concurrency,
        s@.claim_batch_size == s.claim_batch_size && s@.lease_duration_secs
            == s.lease_duration_secs,
        s@.retry_configuration is Some <==> s.retry_configuration is Some,
        s.retry_configuration matches Some(retry) ==> {
            &&& s@.retry_configuration->0.base_delay_ms == retry.base_delay_ms
            &&& s@.retry_configuration->0.multiplier == retry.multiplier
            &&& s@.retry_configuration->0.max_delay_secs == retry.max_delay_secs
            &&& s@.retry_configuration->0.note == retry.note@
        },
        s@.fake_charge_latency_ms == s.fake_charge_latency_ms && s@.fake_charge_failure_mode
            == s.fake_charge_failure_mode@,
        s@.job_count == s.job_count && s@.throughput_unit == s.throughput_unit@ && s@.error_counts
            == s.error_counts,
{
}

} // verus!
