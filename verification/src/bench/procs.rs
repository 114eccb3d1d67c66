//! The programs under test: where they are, and what they are started with.

use crate::config::{assigned, millis, secs, EnvText, Environment, WorkerSettings};
use crate::text::{
    chars_of, decimal, decimal_text, join2, join3, law_decimal_is_trimmed, law_decimal_round_trip,
    trimmed, unsigned_within,
};
use vstd::prelude::*;

verus! {

/// An environment variable for a program to be started.
#[derive(Debug)]
pub struct EnvVar {
    pub name: &'static str,
    pub value: String,
}

/// What some environment variables are set to.
pub open spec fn assignments(vars: Seq<EnvVar>) -> Seq<(Seq<char>, Seq<char>)> {
    vars.map_values(|v: EnvVar| (v.name@, v.value@))
}

fn push_var(vars: &mut Vec<EnvVar>, name: &'static str, value: String)
    ensures
        assignments(final(vars)@) == assignments(old(vars)@).push((name@, value@)),
{
    vars.push(EnvVar { name, value });
    assert(assignments(vars@) =~= assignments(old(vars)@).push((name@, value@)));
}

fn no_vars() -> (vars: Vec<EnvVar>)
    ensures
        assignments(vars@) == Seq::<(Seq<char>, Seq<char>)>::empty(),
{
    let vars: Vec<EnvVar> = Vec::new();
    assert(assignments(vars@) =~= Seq::<(Seq<char>, Seq<char>)>::empty());
    vars
}

/// The path of a program: the directory and the name with a slash between them.
pub open spec fn path_text(dir: Seq<char>, name: Seq<char>) -> Seq<char> {
    if name.len() > 0 && name[0] == '/' {
        name
    } else if dir.len() == 0 || dir.last() == '/' {
        dir + name
    } else {
        dir + "/"@ + name
    }
}

pub fn binary_path(binary_dir: &str, name: &str) -> (s: String)
    ensures
        s@ == path_text(binary_dir@, name@),
{
    let n = chars_of(name);
    if n.len() > 0 && n[0] == '/' {
        return name.to_string();
    }
    let d = chars_of(binary_dir);
    if d.len() == 0 || d[d.len() - 1] == '/' {
        join2(binary_dir, name)
    } else {
        join3(binary_dir, "/", name)
    }
}

/// The base of the addresses of a server that listens at `bind`.
pub fn http_base(bind: &str) -> (s: String)
    ensures
        s@ == "http://"@ + bind@,
{
    join2("http://", bind)
}

/// What the charge service is started with. Its test controls are switched on.
pub fn fake_charge_env(database_url: &str, bind_addr: &str) -> (vars: Vec<EnvVar>)
    ensures
        assignments(vars@) == seq![
            ("DATABASE_URL"@, database_url@),
            ("FAKE_CHARGE_BIND_ADDR"@, bind_addr@),
            ("FAKE_CHARGE_ENABLE_TEST_CONTROL"@, "true"@),
            ("LOG_FORMAT"@, "pretty"@),
            ("RUST_LOG"@, "warn"@),
        ],
{
    let mut vars = no_vars();
    push_var(&mut vars, "DATABASE_URL", database_url.to_string());
    push_var(&mut vars, "FAKE_CHARGE_BIND_ADDR", bind_addr.to_string());
    push_var(&mut vars, "FAKE_CHARGE_ENABLE_TEST_CONTROL", "true".to_string());
    push_var(&mut vars, "LOG_FORMAT", "pretty".to_string());
    push_var(&mut vars, "RUST_LOG", "warn".to_string());
    vars
}

/// What the interface of the queue is started with.
pub fn api_env(database_url: &str, bind_addr: &str) -> (vars: Vec<EnvVar>)
    ensures
        assignments(vars@) == seq![
            ("DATABASE_URL"@, database_url@),
            ("API_BIND_ADDR"@, bind_addr@),
            ("LOG_FORMAT"@, "pretty"@),
            ("RUST_LOG"@, "warn"@),
        ],
{
    let mut vars = no_vars();
    push_var(&mut vars, "DATABASE_URL", database_url.to_string());
    push_var(&mut vars, "API_BIND_ADDR", bind_addr.to_string());
    push_var(&mut vars, "LOG_FORMAT", "pretty".to_string());
    push_var(&mut vars, "RUST_LOG", "warn".to_string());
    vars
}

/// A worker to be started.
#[derive(Debug)]
pub struct WorkerSpec {
    pub binary_dir: String,
    pub database_url: String,
    pub charge_service_url: String,
    pub concurrency: u32,
    pub lease_duration_secs: u64,
    pub poll_interval_ms: u64,
    pub metrics_bind_addr: String,
    /// `None` leaves the worker its own default.
    pub retry_base_delay_ms: Option<u64>,
}

/// What a [`WorkerSpec`] says.
#[verifier::ext_equal]
pub struct WorkerFacts {
    pub binary_dir: Seq<char>,
    pub database_url: Seq<char>,
    pub charge_service_url: Seq<char>,
    pub concurrency: u32,
    pub lease_duration_secs: u64,
    pub poll_interval_ms: u64,
    pub metrics_bind_addr: Seq<char>,
    pub retry_base_delay_ms: Option<u64>,
}

impl View for WorkerSpec {
    type V = WorkerFacts;

    open spec fn view(&self) -> WorkerFacts {
        WorkerFacts {
            binary_dir: self.binary_dir@,
            database_url: self.database_url@,
            charge_service_url: self.charge_service_url@,
            concurrency: self.concurrency,
            lease_duration_secs: self.lease_duration_secs,
            poll_interval_ms: self.poll_interval_ms,
            metrics_bind_addr: self.metrics_bind_addr@,
            retry_base_delay_ms: self.retry_base_delay_ms,
        }
    }
}

impl WorkerFacts {
    /// The environment variables that a worker is started with.
    pub open spec fn env(self) -> Seq<(Seq<char>, Seq<char>)> {
        seq![
            ("DATABASE_URL"@, self.database_url),
            ("WORKER_CHARGE_SERVICE_URL"@, self.charge_service_url),
            ("WORKER_CONCURRENCY"@, decimal(self.concurrency as nat)),
            ("WORKER_LEASE_DURATION_SECS"@, decimal(self.lease_duration_secs as nat)),
            ("WORKER_POLL_INTERVAL_MS"@, decimal(self.poll_interval_ms as nat)),
            ("WORKER_METRICS_BIND_ADDR"@, self.metrics_bind_addr),
            ("LOG_FORMAT"@, "pretty"@),
            ("RUST_LOG"@, "warn"@),
        ] + match self.retry_base_delay_ms {
            Some(base) => seq![("WORKER_RETRY_BASE_DELAY_MS"@, decimal(base as nat))],
            None => seq![],
        }
    }
}

/// What a worker is started with.
pub fn worker_env(spec: &WorkerSpec) -> (vars: Vec<EnvVar>)
    ensures
        assignments(vars@) == spec@.env(),
{
    let mut vars = no_vars();
    push_var(&mut vars, "DATABASE_URL", spec.database_url.clone());
    push_var(&mut vars, "WORKER_CHARGE_SERVICE_URL", spec.charge_service_url.clone());
    push_var(&mut vars, "WORKER_CONCURRENCY", decimal_text(spec.concurrency as u64));
    push_var(&mut vars, "WORKER_LEASE_DURATION_SECS", decimal_text(spec.lease_duration_secs));
    push_var(&mut vars, "WORKER_POLL_INTERVAL_MS", decimal_text(spec.poll_interval_ms));
    push_var(&mut vars, "WORKER_METRICS_BIND_ADDR", spec.metrics_bind_addr.clone());
    push_var(&mut vars, "LOG_FORMAT", "pretty".to_string());
    push_var(&mut vars, "RUST_LOG", "warn".to_string());
    if let Some(base) = spec.retry_base_delay_ms {
        push_var(&mut vars, "WORKER_RETRY_BASE_DELAY_MS", decimal_text(base));
    }
    vars
}

/// What is assigned first and not again is what a program reads.
proof fn lemma_assigned(vars: Seq<(Seq<char>, EnvText)>, i: int)
    requires
        0 <= i < vars.len(),
        forall|k: int| i < k < vars.len() ==> (#[trigger] vars[k]).0 != vars[i].0,
    ensures
        assigned(vars, vars[i].0) == vars[i].1,
    decreases vars.len(),
{
    if i < vars.len() - 1 {
        assert(vars.last().0 != vars[i].0);
        let rest = vars.drop_last();
        assert(rest[i] == vars[i]);
        assert forall|k: int| i < k < rest.len() implies (#[trigger] rest[k]).0 != rest[i].0 by {
            assert(rest[k] == vars[k]);
        }
        lemma_assigned(rest, i);
    }
}

/// What is nowhere assigned is not set.
proof fn lemma_unassigned(vars: Seq<(Seq<char>, EnvText)>, name: Seq<char>)
    requires
        forall|k: int| 0 <= k < vars.len() ==> (#[trigger] vars[k]).0 != name,
    ensures
        assigned(vars, name) == EnvText::Unset,
    decreases vars.len(),
{
    if vars.len() > 0 {
        let rest = vars.drop_last();
        assert(vars.last().0 != name);
        assert forall|k: int| 0 <= k < rest.len() implies (#[trigger] rest[k]).0 != name by {
            assert(rest[k] == vars[k]);
        }
        lemma_unassigned(rest, name);
    }
}

/// The variables as a program finds them in its environment.
pub open spec fn as_found(vars: Seq<(Seq<char>, Seq<char>)>) -> Seq<(Seq<char>, EnvText)> {
    vars.map_values(|v: (Seq<char>, Seq<char>)| (v.0, EnvText::Text(v.1)))
}

proof fn lemma_names()
    ensures
        "DATABASE_URL"@.len() == 12,
        "LOG_FORMAT"@.len() == 10,
        "RUST_LOG"@.len() == 8,
        "WORKER_CONCURRENCY"@.len() == 18,
        "WORKER_METRICS_BIND_ADDR"@.len() == 24,
        "WORKER_CHARGE_SERVICE_URL"@.len() == 25,
        "WORKER_CHARGE_REQUEST_TIMEOUT_SECS"@.len() == 34,
        "WORKER_RETRY_MAX_DELAY_SECS"@.len() == 27,
        "WORKER_POLL_INTERVAL_MS"@.len() == 23 && "WORKER_POLL_INTERVAL_MS"@[7] == 'P',
        "WORKER_RETRY_MULTIPLIER"@.len() == 23 && "WORKER_RETRY_MULTIPLIER"@[7] == 'R',
        "WORKER_LEASE_DURATION_SECS"@.len() == 26 && "WORKER_LEASE_DURATION_SECS"@[7] == 'L',
        "WORKER_RETRY_BASE_DELAY_MS"@.len() == 26 && "WORKER_RETRY_BASE_DELAY_MS"@[7] == 'R',
        "WORKER_SHUTDOWN_GRACE_SECS"@.len() == 26 && "WORKER_SHUTDOWN_GRACE_SECS"@[7] == 'S',
{
    reveal_strlit("DATABASE_URL");
    reveal_strlit("LOG_FORMAT");
    reveal_strlit("RUST_LOG");
    reveal_strlit("WORKER_CONCURRENCY");
    reveal_strlit("WORKER_METRICS_BIND_ADDR");
    reveal_strlit("WORKER_CHARGE_SERVICE_URL");
    reveal_strlit("WORKER_CHARGE_REQUEST_TIMEOUT_SECS");
    reveal_strlit("WORKER_RETRY_MAX_DELAY_SECS");
    reveal_strlit("WORKER_POLL_INTERVAL_MS");
    reveal_strlit("WORKER_RETRY_MULTIPLIER");
    reveal_strlit("WORKER_LEASE_DURATION_SECS");
    reveal_strlit("WORKER_RETRY_BASE_DELAY_MS");
    reveal_strlit("WORKER_SHUTDOWN_GRACE_SECS");
}

/// A worker whose environment holds what it was started with and nothing else reads it all back: as
/// long as the settings are within the bounds, it accepts them, and runs with them.
pub proof fn law_workers_run_with_what_they_are_started_with(env: Environment, spec: WorkerFacts)
    requires
        env@ == as_found(spec.env()),
        1 <= spec.concurrency <= 1000,
        1 <= spec.lease_duration_secs <= 3600,
        1 <= spec.poll_interval_ms <= 60_000,
        "http://"@.is_prefix_of(spec.charge_service_url),
        spec.retry_base_delay_ms matches Some(base) ==> 1 <= base <= 60_000,
    ensures
        WorkerSettings::read(env) matches Ok(s) && {
            &&& s.concurrency == spec.concurrency
            &&& s.lease_duration == secs(spec.lease_duration_secs as nat)
            &&& s.poll_interval == millis(spec.poll_interval_ms as nat)
            &&& s.charge_service_url == spec.charge_service_url
            &&& s.retry_base_delay == millis(
                match spec.retry_base_delay_ms {
                    Some(base) => base as nat,
                    None => 1000,
                },
            )
        },
{
    lemma_names();
    let vars = env@;
    assert(vars[1].0 == "WORKER_CHARGE_SERVICE_URL"@);
    lemma_assigned(vars, 1);
    assert(vars[2].0 == "WORKER_CONCURRENCY"@);
    lemma_assigned(vars, 2);
    assert(vars[3].0 == "WORKER_LEASE_DURATION_SECS"@);
    lemma_assigned(vars, 3);
    assert(vars[4].0 == "WORKER_POLL_INTERVAL_MS"@);
    lemma_assigned(vars, 4);
    match spec.retry_base_delay_ms {
        Some(base) => {
            assert(vars[8].0 == "WORKER_RETRY_BASE_DELAY_MS"@);
            lemma_assigned(vars, 8);
            lemma_number_read_back(base as nat);
        },
        None => {
            lemma_unassigned(vars, "WORKER_RETRY_BASE_DELAY_MS"@);
        },
    }
    lemma_unassigned(vars, "WORKER_CHARGE_REQUEST_TIMEOUT_SECS"@);
    lemma_unassigned(vars, "WORKER_RETRY_MULTIPLIER"@);
    lemma_unassigned(vars, "WORKER_RETRY_MAX_DELAY_SECS"@);
    lemma_unassigned(vars, "WORKER_SHUTDOWN_GRACE_SECS"@);
    lemma_number_read_back(spec.concurrency as nat);
    lemma_number_read_back(spec.lease_duration_secs as nat);
    lemma_number_read_back(spec.poll_interval_ms as nat);
}

/// A number that was written in decimal digits is read back.
proof fn lemma_number_read_back(n: nat)
    ensures
        forall|max: nat|
            n <= max ==> #[trigger] unsigned_within(trimmed(decimal(n)), max) == Some(n),
{
    law_decimal_round_trip(n);
    law_decimal_is_trimmed(n);
}

/// A program is found in its directory: the two are separated by exactly one slash. An absolute path
/// stays as it is.
pub proof fn law_programs_are_found_in_their_directory(dir: Seq<char>, name: Seq<char>)
    ensures
        name.len() > 0 && name[0] == '/' ==> path_text(dir, name) == name,
        !(name.len() > 0 && name[0] == '/') ==> {
            &&& dir.len() == 0 ==> path_text(dir, name) == name
            &&& dir.len() > 0 && dir.last() == '/' ==> path_text(dir, name) == dir + name
            &&& dir.len() > 0 && dir.last() != '/' ==> path_text(dir, name) == dir + seq!['/'] + name
        },
{
    reveal_strlit("/");
    assert("/"@ =~= seq!['/']);
    assert(Seq::<char>::empty() + name =~= name);
    if dir.len() == 0 {
        assert(dir + name =~= name);
    }
}

} // verus!
