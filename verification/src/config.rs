//! Configuration of the services, read from environment variables.
//!
//! Every value has a default and is checked at once, so that a misconfigured process stops at the
//! start instead of misbehaving later.

use crate::retry::RetryPolicy;
use crate::text::{
    blank, debug_quoted, decimal, decimal_text, is_blank, join2, join3, lower, parse_unsigned,
    quoted, same_text, starts_with, to_ascii_lowercase, trim, trimmed, unsigned_within,
};
use crate::time::Duration;
use vstd::prelude::*;

verus! {

// ---------------------------------------------------------------------------------------------
// The environment
// ---------------------------------------------------------------------------------------------

/// What an environment variable holds.
#[derive(Debug)]
pub enum EnvValue {
    Unset,
    /// Set to something that is not Unicode text.
    NotUnicode,
    Text(String),
}

/// What an environment variable holds, its text as a sequence of characters.
pub enum EnvText {
    Unset,
    NotUnicode,
    Text(Seq<char>),
}

impl View for EnvValue {
    type V = EnvText;

    open spec fn view(&self) -> EnvText {
        match self {
            EnvValue::Unset => EnvText::Unset,
            EnvValue::NotUnicode => EnvText::NotUnicode,
            EnvValue::Text(text) => EnvText::Text(text@),
        }
    }
}

impl Clone for EnvValue {
    fn clone(&self) -> (r: Self)
        ensures
            r@ == self@,
    {
        match self {
            EnvValue::Unset => EnvValue::Unset,
            EnvValue::NotUnicode => EnvValue::NotUnicode,
            EnvValue::Text(text) => EnvValue::Text(text.clone()),
        }
    }
}

/// The environment variables of a process. The last assignment to a name counts.
#[derive(Debug)]
pub struct Environment {
    assignments: Vec<(String, EnvValue)>,
}

impl View for Environment {
    type V = Seq<(Seq<char>, EnvText)>;

    closed spec fn view(&self) -> Seq<(Seq<char>, EnvText)> {
        self.assignments@.map_values(|a: (String, EnvValue)| (a.0@, a.1@))
    }
}

/// The value of a variable after some assignments.
pub open spec fn assigned(assignments: Seq<(Seq<char>, EnvText)>, name: Seq<char>) -> EnvText
    decreases assignments.len(),
{
    if assignments.len() == 0 {
        EnvText::Unset
    } else if assignments.last().0 == name {
        assignments.last().1
    } else {
        assigned(assignments.drop_last(), name)
    }
}

impl Environment {
    /// An environment in which nothing is set.
    pub fn new() -> (env: Environment)
        ensures
            env@ == Seq::<(Seq<char>, EnvText)>::empty(),
    {
        let env = Environment { assignments: Vec::new() };
        assert(env@ =~= Seq::<(Seq<char>, EnvText)>::empty());
        env
    }

    pub fn set(&mut self, name: &str, value: EnvValue)
        ensures
            final(self)@ == old(self)@.push((name@, value@)),
    {
        self.assignments.push((name.to_string(), value));
        assert(self@ =~= old(self)@.push((name@, value@)));
    }

    /// The value of a variable.
    pub open spec fn value(self, name: Seq<char>) -> EnvText {
        assigned(self@, name)
    }

    pub fn var(&self, name: &str) -> (r: EnvValue)
        ensures
            r@ == self.value(name@),
    {
        let mut i: usize = self.assignments.len();
        assert(self@.take(i as int) =~= self@);
        while i > 0
            invariant
                i <= self.assignments.len(),
                self.assignments.len() == self@.len(),
                self.value(name@) == assigned(self@.take(i as int), name@),
            decreases i,
        {
            i = i - 1;
            let entry = &self.assignments[i];
            assert(self@.take(i + 1).last() == (entry.0@, entry.1@));
            assert(self@.take(i + 1).drop_last() =~= self@.take(i as int));
            if same_text(&entry.0, name) {
                return entry.1.clone();
            }
        }
        EnvValue::Unset
    }
}

// ---------------------------------------------------------------------------------------------
// Errors
// ---------------------------------------------------------------------------------------------

#[derive(Debug, PartialEq, Eq)]
pub enum ConfigError {
    /// A required variable is not set.
    Missing(&'static str),
    /// A variable has a value that is not accepted.
    Invalid { name: String, reason: String },
}

/// What is wrong with a configuration.
pub enum ConfigFault {
    Missing(Seq<char>),
    Invalid { name: Seq<char>, reason: Seq<char> },
}

impl View for ConfigError {
    type V = ConfigFault;

    open spec fn view(&self) -> ConfigFault {
        match self {
            ConfigError::Missing(name) => ConfigFault::Missing(name@),
            ConfigError::Invalid { name, reason } => ConfigFault::Invalid {
                name: name@,
                reason: reason@,
            },
        }
    }
}

impl ConfigError {
    /// The error in words.
    pub fn message(&self) -> (s: String)
        ensures
            s@ == match self@ {
                ConfigFault::Missing(name) => "missing required environment variable "@ + name,
                ConfigFault::Invalid { name, reason } => "invalid value for "@ + name + ": "@
                    + reason,
            },
    {
        match self {
            ConfigError::Missing(name) => join2("missing required environment variable ", name),
            ConfigError::Invalid { name, reason } => join2(
                &join3("invalid value for ", name, ": "),
                reason,
            ),
        }
    }
}

pub fn invalid(name: &str, reason: String) -> (e: ConfigError)
    ensures
        e@ == fault(name@, reason@),
{
    ConfigError::Invalid { name: name.to_string(), reason }
}

pub open spec fn fault(name: Seq<char>, reason: Seq<char>) -> ConfigFault {
    ConfigFault::Invalid { name, reason }
}

/// The reason given for a number that must lie between 1 and `max`.
pub open spec fn between_one_and(max: nat, unit: Seq<char>) -> Seq<char> {
    "must be between 1 and "@ + decimal(max) + unit
}

fn between(max: u64, unit: &str) -> (s: String)
    ensures
        s@ == between_one_and(max as nat, unit@),
{
    join3("must be between 1 and ", &decimal_text(max), unit)
}

// ---------------------------------------------------------------------------------------------
// Numbers
// ---------------------------------------------------------------------------------------------

/// A number read from a variable: the default where it is not set.
pub open spec fn number_setting(
    value: EnvText,
    name: Seq<char>,
    max: nat,
    default: nat,
) -> Result<nat, ConfigFault> {
    match value {
        EnvText::Unset => Ok(default),
        EnvText::NotUnicode => Err(fault(name, "value is not valid UTF-8"@)),
        EnvText::Text(raw) => match unsigned_within(trimmed(raw), max) {
            Some(n) => Ok(n),
            None => Err(fault(name, "could not parse "@ + debug_quoted(raw))),
        },
    }
}

/// Reads a number that does not exceed `max` from a variable.
pub fn parse_env(env: &Environment, key: &str, max: u64, default: u64) -> (r: Result<
    u64,
    ConfigError,
>)
    ensures
        match number_setting(env.value(key@), key@, max as nat, default as nat) {
            Ok(n) => r matches Ok(v) && v == n,
            Err(fault) => r matches Err(e) && e@ == fault,
        },
{
    match env.var(key) {
        EnvValue::Unset => Ok(default),
        EnvValue::NotUnicode => Err(invalid(key, "value is not valid UTF-8".to_string())),
        EnvValue::Text(raw) => match parse_unsigned(&trim(&raw), max) {
            Some(n) => Ok(n),
            None => Err(invalid(key, join2("could not parse ", &quoted(&raw)))),
        },
    }
}

// ---------------------------------------------------------------------------------------------
// The database
// ---------------------------------------------------------------------------------------------

pub open spec fn secs(n: nat) -> nat {
    n * 1_000_000_000
}

pub open spec fn millis(n: nat) -> nat {
    n * 1_000_000
}

/// A span of time that lasts, and no longer than `max`.
pub open spec fn lasts_at_most(span: nat, max: nat) -> bool {
    0 < span <= max
}

fn is_within(span: &Duration, max: &Duration) -> (r: bool)
    ensures
        r == lasts_at_most(span@, max@),
{
    !span.is_zero() && !span.longer_than(max)
}

/// How to connect to PostgreSQL.
#[derive(Debug, Clone, PartialEq, Eq)]
pub struct DatabaseConfig {
    pub url: String,
    pub max_connections: u32,
    pub connect_timeout: Duration,
}

/// The values of a [`DatabaseConfig`].
pub struct DatabaseSettings {
    pub url: Seq<char>,
    pub max_connections: nat,
    pub connect_timeout: nat,
}

impl View for DatabaseConfig {
    type V = DatabaseSettings;

    open spec fn view(&self) -> DatabaseSettings {
        DatabaseSettings {
            url: self.url@,
            max_connections: self.max_connections as nat,
            connect_timeout: self.connect_timeout@,
        }
    }
}

impl DatabaseSettings {
    /// The first rule that the settings break.
    pub open spec fn broken_rule(self) -> Option<ConfigFault> {
        if blank(self.url) {
            Some(fault("DATABASE_URL"@, "must not be empty"@))
        } else if !("postgres://"@.is_prefix_of(self.url) || "postgresql://"@.is_prefix_of(
            self.url,
        )) {
            Some(fault("DATABASE_URL"@, "must be a postgres:// URL"@))
        } else if !(1 <= self.max_connections <= 100) {
            Some(fault("DATABASE_MAX_CONNECTIONS"@, between_one_and(100, ""@)))
        } else if !lasts_at_most(self.connect_timeout, secs(60)) {
            Some(fault("DATABASE_CONNECT_TIMEOUT_SECS"@, between_one_and(60, " seconds"@)))
        } else {
            None
        }
    }

    /// What the variables say: the first one that is missing or unreadable is the error, or else the
    /// first rule that their values break.
    pub open spec fn read(env: Environment) -> Result<DatabaseSettings, ConfigFault> {
        let url = env.value("DATABASE_URL"@);
        let connections = number_setting(
            env.value("DATABASE_MAX_CONNECTIONS"@),
            "DATABASE_MAX_CONNECTIONS"@,
            u32::MAX as nat,
            10,
        );
        let timeout = number_setting(
            env.value("DATABASE_CONNECT_TIMEOUT_SECS"@),
            "DATABASE_CONNECT_TIMEOUT_SECS"@,
            u64::MAX as nat,
            5,
        );
        if !(url is Text) {
            Err(ConfigFault::Missing("DATABASE_URL"@))
        } else if connections is Err {
            Err(connections->Err_0)
        } else if timeout is Err {
            Err(timeout->Err_0)
        } else {
            let settings = DatabaseSettings {
                url: url->Text_0,
                max_connections: connections->Ok_0,
                connect_timeout: secs(timeout->Ok_0),
            };
            match settings.broken_rule() {
                Some(rule) => Err(rule),
                None => Ok(settings),
            }
        }
    }
}

impl DatabaseConfig {
    pub const DEFAULT_MAX_CONNECTIONS: u32 = 10;

    pub const DEFAULT_CONNECT_TIMEOUT_SECS: u64 = 5;

    pub const MAX_ALLOWED_CONNECTIONS: u32 = 100;

    pub const MAX_ALLOWED_CONNECT_TIMEOUT_SECS: u64 = 60;

    pub fn validate(&self) -> (r: Result<(), ConfigError>)
        ensures
            match self@.broken_rule() {
                None => r is Ok,
                Some(rule) => r matches Err(e) && e@ == rule,
            },
    {
        if is_blank(&self.url) {
            return Err(invalid("DATABASE_URL", "must not be empty".to_string()));
        }
        if !(starts_with(&self.url, "postgres://") || starts_with(&self.url, "postgresql://")) {
            return Err(invalid("DATABASE_URL", "must be a postgres:// URL".to_string()));
        }
        if self.max_connections == 0 || self.max_connections > Self::MAX_ALLOWED_CONNECTIONS {
            return Err(
                invalid(
                    "DATABASE_MAX_CONNECTIONS",
                    between(Self::MAX_ALLOWED_CONNECTIONS as u64, ""),
                ),
            );
        }
        if !is_within(
            &self.connect_timeout,
            &Duration::from_secs(Self::MAX_ALLOWED_CONNECT_TIMEOUT_SECS),
        ) {
            return Err(
                invalid(
                    "DATABASE_CONNECT_TIMEOUT_SECS",
                    between(Self::MAX_ALLOWED_CONNECT_TIMEOUT_SECS, " seconds"),
                ),
            );
        }
        Ok(())
    }

    pub fn from_env(env: &Environment) -> (r: Result<Self, ConfigError>)
        ensures
            match DatabaseSettings::read(*env) {
                Ok(settings) => r matches Ok(config) && config@ == settings,
                Err(fault) => r matches Err(e) && e@ == fault,
            },
    {
        let url = match env.var("DATABASE_URL") {
            EnvValue::Text(url) => url,
            _ => {
                return Err(ConfigError::Missing("DATABASE_URL"));
            },
        };
        let max_connections: u64 = parse_env(
            env,
            "DATABASE_MAX_CONNECTIONS",
            u32::MAX as u64,
            Self::DEFAULT_MAX_CONNECTIONS as u64,
        )?;
        let timeout: u64 = parse_env(
            env,
            "DATABASE_CONNECT_TIMEOUT_SECS",
            u64::MAX,
            Self::DEFAULT_CONNECT_TIMEOUT_SECS,
        )?;
        let config = DatabaseConfig {
            url,
            max_connections: max_connections as u32,
            connect_timeout: Duration::from_secs(timeout),
        };
        config.validate()?;
        Ok(config)
    }
}

/// A database configuration that is accepted has a PostgreSQL address, and keeps its settings within
/// their bounds.
pub proof fn law_accepted_database_settings_are_within_bounds(env: Environment)
    requires
        DatabaseSettings::read(env) is Ok,
    ensures
        ({
            let s = DatabaseSettings::read(env)->Ok_0;
            &&& "postgres://"@.is_prefix_of(s.url) || "postgresql://"@.is_prefix_of(s.url)
            &&& 1 <= s.max_connections <= 100
            &&& 0 < s.connect_timeout <= secs(60)
        }),
{
}

// ---------------------------------------------------------------------------------------------
// HTTP servers
// ---------------------------------------------------------------------------------------------

/// How a server listens. `bind_addr` is a socket address in text form.
#[derive(Debug, Clone, PartialEq, Eq)]
pub struct HttpConfig {
    pub bind_addr: String,
    pub max_body_bytes: usize,
    pub request_timeout: Duration,
}

/// The values of an [`HttpConfig`].
pub struct HttpSettings {
    pub bind_addr: Seq<char>,
    pub max_body_bytes: nat,
    pub request_timeout: nat,
}

impl View for HttpConfig {
    type V = HttpSettings;

    open spec fn view(&self) -> HttpSettings {
        HttpSettings {
            bind_addr: self.bind_addr@,
            max_body_bytes: self.max_body_bytes as nat,
            request_timeout: self.request_timeout@,
        }
    }
}

impl HttpSettings {
    /// The first rule that the settings break. The variables are named after `prefix`.
    pub open spec fn broken_rule(self, prefix: Seq<char>) -> Option<ConfigFault> {
        if !(1 <= self.max_body_bytes <= 10_485_760) {
            Some(fault(prefix + "_MAX_BODY_BYTES"@, between_one_and(10_485_760, ""@)))
        } else if !lasts_at_most(self.request_timeout, secs(120)) {
            Some(fault(prefix + "_REQUEST_TIMEOUT_SECS"@, between_one_and(120, " seconds"@)))
        } else {
            None
        }
    }

    /// The address to listen at, as it was written.
    pub open spec fn address(env: Environment, prefix: Seq<char>, default: Seq<char>) -> Seq<char> {
        match env.value(prefix + "_BIND_ADDR"@) {
            EnvText::Text(raw) => raw,
            _ => default,
        }
    }

    /// What the variables say; `is_address` tells whether the address that was written is one.
    pub open spec fn read(
        env: Environment,
        prefix: Seq<char>,
        default_bind_addr: Seq<char>,
        is_address: bool,
    ) -> Result<HttpSettings, ConfigFault> {
        let address = Self::address(env, prefix, default_bind_addr);
        let bytes = number_setting(
            env.value(prefix + "_MAX_BODY_BYTES"@),
            prefix + "_MAX_BODY_BYTES"@,
            usize::MAX as nat,
            65_536,
        );
        let timeout = number_setting(
            env.value(prefix + "_REQUEST_TIMEOUT_SECS"@),
            prefix + "_REQUEST_TIMEOUT_SECS"@,
            u64::MAX as nat,
            10,
        );
        if !is_address {
            Err(fault(prefix + "_BIND_ADDR"@, debug_quoted(address) + " is not host:port"@))
        } else if bytes is Err {
            Err(bytes->Err_0)
        } else if timeout is Err {
            Err(timeout->Err_0)
        } else {
            let settings = HttpSettings {
                bind_addr: address,
                max_body_bytes: bytes->Ok_0,
                request_timeout: secs(timeout->Ok_0),
            };
            match settings.broken_rule(prefix) {
                Some(rule) => Err(rule),
                None => Ok(settings),
            }
        }
    }
}

impl HttpConfig {
    pub const DEFAULT_MAX_BODY_BYTES: usize = 65_536;

    pub const DEFAULT_REQUEST_TIMEOUT_SECS: u64 = 10;

    pub const MAX_ALLOWED_BODY_BYTES: usize = 10_485_760;

    pub const MAX_ALLOWED_REQUEST_TIMEOUT_SECS: u64 = 120;

    /// The address to listen at, as it was written: `{prefix}_BIND_ADDR`, or else the default.
    pub fn bind_addr_from_env(env: &Environment, prefix: &str, default_bind_addr: &str) -> (s: String)
        ensures
            s@ == HttpSettings::address(*env, prefix@, default_bind_addr@),
    {
        match env.var(&join2(prefix, "_BIND_ADDR")) {
            EnvValue::Text(raw) => raw,
            _ => default_bind_addr.to_string(),
        }
    }

    /// Reads `{prefix}_BIND_ADDR`, `{prefix}_MAX_BODY_BYTES` and `{prefix}_REQUEST_TIMEOUT_SECS`.
    /// `is_address` tells whether what [`HttpConfig::bind_addr_from_env`] gives is a socket address.
    pub fn from_env(
        env: &Environment,
        prefix: &str,
        default_bind_addr: &str,
        is_address: bool,
    ) -> (r: Result<Self, ConfigError>)
        ensures
            match HttpSettings::read(*env, prefix@, default_bind_addr@, is_address) {
                Ok(settings) => r matches Ok(config) && config@ == settings,
                Err(fault) => r matches Err(e) && e@ == fault,
            },
    {
        let bind_addr = Self::bind_addr_from_env(env, prefix, default_bind_addr);
        if !is_address {
            return Err(
                invalid(
                    &join2(prefix, "_BIND_ADDR"),
                    join2(&quoted(&bind_addr), " is not host:port"),
                ),
            );
        }
        let max_body_bytes: u64 = parse_env(
            env,
            &join2(prefix, "_MAX_BODY_BYTES"),
            usize::MAX as u64,
            Self::DEFAULT_MAX_BODY_BYTES as u64,
        )?;
        let timeout: u64 = parse_env(
            env,
            &join2(prefix, "_REQUEST_TIMEOUT_SECS"),
            u64::MAX,
            Self::DEFAULT_REQUEST_TIMEOUT_SECS,
        )?;
        let config = HttpConfig {
            bind_addr,
            max_body_bytes: max_body_bytes as usize,
            request_timeout: Duration::from_secs(timeout),
        };
        config.validate(prefix)?;
        Ok(config)
    }

    pub fn validate(&self, prefix: &str) -> (r: Result<(), ConfigError>)
        ensures
            match self@.broken_rule(prefix@) {
                None => r is Ok,
                Some(rule) => r matches Err(e) && e@ == rule,
            },
    {
        if self.max_body_bytes == 0 || self.max_body_bytes > Self::MAX_ALLOWED_BODY_BYTES {
            return Err(
                invalid(
                    &join2(prefix, "_MAX_BODY_BYTES"),
                    between(Self::MAX_ALLOWED_BODY_BYTES as u64, ""),
                ),
            );
        }
        if !is_within(
            &self.request_timeout,
            &Duration::from_secs(Self::MAX_ALLOWED_REQUEST_TIMEOUT_SECS),
        ) {
            return Err(
                invalid(
                    &join2(prefix, "_REQUEST_TIMEOUT_SECS"),
                    between(Self::MAX_ALLOWED_REQUEST_TIMEOUT_SECS, " seconds"),
                ),
            );
        }
        Ok(())
    }
}

/// A server configuration that is accepted has an address, and keeps its settings within their bounds.
pub proof fn law_accepted_server_settings_are_within_bounds(
    env: Environment,
    prefix: Seq<char>,
    default_bind_addr: Seq<char>,
    is_address: bool,
)
    requires
        HttpSettings::read(env, prefix, default_bind_addr, is_address) is Ok,
    ensures
        is_address,
        ({
            let s = HttpSettings::read(env, prefix, default_bind_addr, is_address)->Ok_0;
            &&& 1 <= s.max_body_bytes <= 10_485_760
            &&& 0 < s.request_timeout <= secs(120)
        }),
{
}

// ---------------------------------------------------------------------------------------------
// The worker
// ---------------------------------------------------------------------------------------------

/// How a worker polls, claims, leases and calls the charge service.
#[derive(Debug, Clone, PartialEq, Eq)]
pub struct WorkerConfig {
    /// How many jobs may be in progress at once.
    pub concurrency: usize,
    pub poll_interval: Duration,
    pub lease_duration: Duration,
    pub charge_service_url: String,
    pub charge_request_timeout: Duration,
    pub retry_base_delay: Duration,
    pub retry_multiplier: u32,
    pub retry_max_delay: Duration,
    /// How long a shutdown waits for work in progress. Work abandoned then is never marked as
    /// successful; its lease runs out and somebody else takes it over.
    pub shutdown_grace: Duration,
}

/// The values of a [`WorkerConfig`].
pub struct WorkerSettings {
    pub concurrency: nat,
    pub poll_interval: nat,
    pub lease_duration: nat,
    pub charge_service_url: Seq<char>,
    pub charge_request_timeout: nat,
    pub retry_base_delay: nat,
    pub retry_multiplier: nat,
    pub retry_max_delay: nat,
    pub shutdown_grace: nat,
}

impl View for WorkerConfig {
    type V = WorkerSettings;

    open spec fn view(&self) -> WorkerSettings {
        WorkerSettings {
            concurrency: self.concurrency as nat,
            poll_interval: self.poll_interval@,
            lease_duration: self.lease_duration@,
            charge_service_url: self.charge_service_url@,
            charge_request_timeout: self.charge_request_timeout@,
            retry_base_delay: self.retry_base_delay@,
            retry_multiplier: self.retry_multiplier as nat,
            retry_max_delay: self.retry_max_delay@,
            shutdown_grace: self.shutdown_grace@,
        }
    }
}

impl WorkerSettings {
    /// The first rule that the settings break.
    pub open spec fn broken_rule(self) -> Option<ConfigFault> {
        if !(1 <= self.concurrency <= 1000) {
            Some(fault("WORKER_CONCURRENCY"@, between_one_and(1000, ""@)))
        } else if !lasts_at_most(self.poll_interval, millis(60_000)) {
            Some(fault("WORKER_POLL_INTERVAL_MS"@, between_one_and(60_000, " ms"@)))
        } else if !lasts_at_most(self.lease_duration, secs(3600)) {
            Some(fault("WORKER_LEASE_DURATION_SECS"@, between_one_and(3600, " seconds"@)))
        } else if !("http://"@.is_prefix_of(self.charge_service_url) || "https://"@.is_prefix_of(
            self.charge_service_url,
        )) {
            Some(fault("WORKER_CHARGE_SERVICE_URL"@, "must be an http:// or https:// URL"@))
        } else if !lasts_at_most(self.charge_request_timeout, secs(120)) {
            Some(fault("WORKER_CHARGE_REQUEST_TIMEOUT_SECS"@, between_one_and(120, " seconds"@)))
        } else if self.retry_base_delay == 0 {
            Some(fault("WORKER_RETRY_BASE_DELAY_MS"@, "must be greater than 0"@))
        } else if self.retry_multiplier < 1 {
            Some(fault("WORKER_RETRY_MULTIPLIER"@, "must be at least 1"@))
        } else if !lasts_at_most(self.retry_max_delay, secs(3600)) {
            Some(fault("WORKER_RETRY_MAX_DELAY_SECS"@, between_one_and(3600, " seconds"@)))
        } else if self.retry_base_delay > self.retry_max_delay {
            Some(
                fault(
                    "WORKER_RETRY_BASE_DELAY_MS"@,
                    "must not exceed WORKER_RETRY_MAX_DELAY_SECS"@,
                ),
            )
        } else if self.shutdown_grace > secs(3600) {
            Some(
                fault(
                    "WORKER_SHUTDOWN_GRACE_SECS"@,
                    "must be at most "@ + decimal(3600) + " seconds"@,
                ),
            )
        } else {
            None
        }
    }

    pub open spec fn number(env: Environment, name: Seq<char>, max: nat, default: nat) -> Result<
        nat,
        ConfigFault,
    > {
        number_setting(env.value(name), name, max, default)
    }

    /// What the variables say: the first one that is missing or unreadable is the error, or else the
    /// first rule that their values break.
    pub open spec fn read(env: Environment) -> Result<WorkerSettings, ConfigFault> {
        let concurrency = Self::number(env, "WORKER_CONCURRENCY"@, usize::MAX as nat, 10);
        let poll = Self::number(env, "WORKER_POLL_INTERVAL_MS"@, u64::MAX as nat, 250);
        let lease = Self::number(env, "WORKER_LEASE_DURATION_SECS"@, u64::MAX as nat, 30);
        let url = env.value("WORKER_CHARGE_SERVICE_URL"@);
        let timeout = Self::number(
            env,
            "WORKER_CHARGE_REQUEST_TIMEOUT_SECS"@,
            u64::MAX as nat,
            10,
        );
        let base = Self::number(env, "WORKER_RETRY_BASE_DELAY_MS"@, u64::MAX as nat, 1000);
        let multiplier = Self::number(env, "WORKER_RETRY_MULTIPLIER"@, u32::MAX as nat, 2);
        let max = Self::number(env, "WORKER_RETRY_MAX_DELAY_SECS"@, u64::MAX as nat, 60);
        let grace = Self::number(env, "WORKER_SHUTDOWN_GRACE_SECS"@, u64::MAX as nat, 30);
        if concurrency is Err {
            Err(concurrency->Err_0)
        } else if poll is Err {
            Err(poll->Err_0)
        } else if lease is Err {
            Err(lease->Err_0)
        } else if !(url is Text) {
            Err(ConfigFault::Missing("WORKER_CHARGE_SERVICE_URL"@))
        } else if timeout is Err {
            Err(timeout->Err_0)
        } else if base is Err {
            Err(base->Err_0)
        } else if multiplier is Err {
            Err(multiplier->Err_0)
        } else if max is Err {
            Err(max->Err_0)
        } else if grace is Err {
            Err(grace->Err_0)
        } else {
            let settings = WorkerSettings {
                concurrency: concurrency->Ok_0,
                poll_interval: millis(poll->Ok_0),
                lease_duration: secs(lease->Ok_0),
                charge_service_url: url->Text_0,
                charge_request_timeout: secs(timeout->Ok_0),
                retry_base_delay: millis(base->Ok_0),
                retry_multiplier: multiplier->Ok_0,
                retry_max_delay: secs(max->Ok_0),
                shutdown_grace: secs(grace->Ok_0),
            };
            match settings.broken_rule() {
                Some(rule) => Err(rule),
                None => Ok(settings),
            }
        }
    }
}

impl WorkerConfig {
    pub const DEFAULT_CONCURRENCY: usize = 10;

    pub const DEFAULT_POLL_INTERVAL_MS: u64 = 250;

    pub const DEFAULT_LEASE_DURATION_SECS: u64 = 30;

    pub const DEFAULT_CHARGE_REQUEST_TIMEOUT_SECS: u64 = 10;

    pub const DEFAULT_RETRY_BASE_DELAY_MS: u64 = 1_000;

    pub const DEFAULT_RETRY_MULTIPLIER: u32 = 2;

    pub const DEFAULT_RETRY_MAX_DELAY_SECS: u64 = 60;

    pub const DEFAULT_SHUTDOWN_GRACE_SECS: u64 = 30;

    pub const MAX_ALLOWED_CONCURRENCY: usize = 1000;

    pub const MAX_ALLOWED_POLL_INTERVAL_MS: u64 = 60_000;

    pub const MAX_ALLOWED_LEASE_DURATION_SECS: u64 = 3600;

    pub const MAX_ALLOWED_CHARGE_REQUEST_TIMEOUT_SECS: u64 = 120;

    pub const MAX_ALLOWED_RETRY_MAX_DELAY_SECS: u64 = 3600;

    pub const MAX_ALLOWED_SHUTDOWN_GRACE_SECS: u64 = 3600;

    pub fn from_env(env: &Environment) -> (r: Result<Self, ConfigError>)
        ensures
            match WorkerSettings::read(*env) {
                Ok(settings) => r matches Ok(config) && config@ == settings,
                Err(fault) => r matches Err(e) && e@ == fault,
            },
    {
        let concurrency: u64 = parse_env(
            env,
            "WORKER_CONCURRENCY",
            usize::MAX as u64,
            Self::DEFAULT_CONCURRENCY as u64,
        )?;
        let poll_interval_ms: u64 = parse_env(
            env,
            "WORKER_POLL_INTERVAL_MS",
            u64::MAX,
            Self::DEFAULT_POLL_INTERVAL_MS,
        )?;
        let lease_duration_secs: u64 = parse_env(
            env,
            "WORKER_LEASE_DURATION_SECS",
            u64::MAX,
            Self::DEFAULT_LEASE_DURATION_SECS,
        )?;
        let charge_service_url = match env.var("WORKER_CHARGE_SERVICE_URL") {
            EnvValue::Text(url) => url,
            _ => {
                return Err(ConfigError::Missing("WORKER_CHARGE_SERVICE_URL"));
            },
        };
        let charge_request_timeout_secs: u64 = parse_env(
            env,
            "WORKER_CHARGE_REQUEST_TIMEOUT_SECS",
            u64::MAX,
            Self::DEFAULT_CHARGE_REQUEST_TIMEOUT_SECS,
        )?;
        let retry_base_delay_ms: u64 = parse_env(
            env,
            "WORKER_RETRY_BASE_DELAY_MS",
            u64::MAX,
            Self::DEFAULT_RETRY_BASE_DELAY_MS,
        )?;
        let retry_multiplier: u64 = parse_env(
            env,
            "WORKER_RETRY_MULTIPLIER",
            u32::MAX as u64,
            Self::DEFAULT_RETRY_MULTIPLIER as u64,
        )?;
        let retry_max_delay_secs: u64 = parse_env(
            env,
            "WORKER_RETRY_MAX_DELAY_SECS",
            u64::MAX,
            Self::DEFAULT_RETRY_MAX_DELAY_SECS,
        )?;
        let shutdown_grace_secs: u64 = parse_env(
            env,
            "WORKER_SHUTDOWN_GRACE_SECS",
            u64::MAX,
            Self::DEFAULT_SHUTDOWN_GRACE_SECS,
        )?;
        let config = WorkerConfig {
            concurrency: concurrency as usize,
            poll_interval: Duration::from_millis(poll_interval_ms),
            lease_duration: Duration::from_secs(lease_duration_secs),
            charge_service_url,
            charge_request_timeout: Duration::from_secs(charge_request_timeout_secs),
            retry_base_delay: Duration::from_millis(retry_base_delay_ms),
            retry_multiplier: retry_multiplier as u32,
            retry_max_delay: Duration::from_secs(retry_max_delay_secs),
            shutdown_grace: Duration::from_secs(shutdown_grace_secs),
        };
        config.validate()?;
        Ok(config)
    }

    pub fn retry_policy(&self) -> (p: RetryPolicy)
        ensures
            p.base_delay == self.retry_base_delay,
            p.multiplier == self.retry_multiplier,
            p.max_delay == self.retry_max_delay,
    {
        RetryPolicy {
            base_delay: self.retry_base_delay,
            multiplier: self.retry_multiplier,
            max_delay: self.retry_max_delay,
        }
    }

    pub fn validate(&self) -> (r: Result<(), ConfigError>)
        ensures
            match self@.broken_rule() {
                None => r is Ok,
                Some(rule) => r matches Err(e) && e@ == rule,
            },
    {
        if self.concurrency == 0 || self.concurrency > Self::MAX_ALLOWED_CONCURRENCY {
            return Err(
                invalid("WORKER_CONCURRENCY", between(Self::MAX_ALLOWED_CONCURRENCY as u64, "")),
            );
        }
        if !is_within(
            &self.poll_interval,
            &Duration::from_millis(Self::MAX_ALLOWED_POLL_INTERVAL_MS),
        ) {
            return Err(
                invalid(
                    "WORKER_POLL_INTERVAL_MS",
                    between(Self::MAX_ALLOWED_POLL_INTERVAL_MS, " ms"),
                ),
            );
        }
        if !is_within(
            &self.lease_duration,
            &Duration::from_secs(Self::MAX_ALLOWED_LEASE_DURATION_SECS),
        ) {
            return Err(
                invalid(
                    "WORKER_LEASE_DURATION_SECS",
                    between(Self::MAX_ALLOWED_LEASE_DURATION_SECS, " seconds"),
                ),
            );
        }
        if !(starts_with(&self.charge_service_url, "http://") || starts_with(
            &self.charge_service_url,
            "https://",
        )) {
            return Err(
                invalid(
                    "WORKER_CHARGE_SERVICE_URL",
                    "must be an http:// or https:// URL".to_string(),
                ),
            );
        }
        if !is_within(
            &self.charge_request_timeout,
            &Duration::from_secs(Self::MAX_ALLOWED_CHARGE_REQUEST_TIMEOUT_SECS),
        ) {
            return Err(
                invalid(
                    "WORKER_CHARGE_REQUEST_TIMEOUT_SECS",
                    between(Self::MAX_ALLOWED_CHARGE_REQUEST_TIMEOUT_SECS, " seconds"),
                ),
            );
        }
        if self.retry_base_delay.is_zero() {
            return Err(
                invalid("WORKER_RETRY_BASE_DELAY_MS", "must be greater than 0".to_string()),
            );
        }
        if self.retry_multiplier < 1 {
            return Err(invalid("WORKER_RETRY_MULTIPLIER", "must be at least 1".to_string()));
        }
        if !is_within(
            &self.retry_max_delay,
            &Duration::from_secs(Self::MAX_ALLOWED_RETRY_MAX_DELAY_SECS),
        ) {
            return Err(
                invalid(
                    "WORKER_RETRY_MAX_DELAY_SECS",
                    between(Self::MAX_ALLOWED_RETRY_MAX_DELAY_SECS, " seconds"),
                ),
            );
        }
        if self.retry_base_delay.longer_than(&self.retry_max_delay) {
            return Err(
                invalid(
                    "WORKER_RETRY_BASE_DELAY_MS",
                    "must not exceed WORKER_RETRY_MAX_DELAY_SECS".to_string(),
                ),
            );
        }
        if self.shutdown_grace.longer_than(
            &Duration::from_secs(Self::MAX_ALLOWED_SHUTDOWN_GRACE_SECS),
        ) {
            return Err(
                invalid(
                    "WORKER_SHUTDOWN_GRACE_SECS",
                    join3(
                        "must be at most ",
                        &decimal_text(Self::MAX_ALLOWED_SHUTDOWN_GRACE_SECS),
                        " seconds",
                    ),
                ),
            );
        }
        Ok(())
    }
}

/// A worker configuration that is accepted keeps every setting within its bounds, and its base delay
/// does not exceed its maximal delay.
pub proof fn law_accepted_worker_settings_are_within_bounds(env: Environment)
    requires
        WorkerSettings::read(env) is Ok,
    ensures
        ({
            let s = WorkerSettings::read(env)->Ok_0;
            &&& 1 <= s.concurrency <= 1000
            &&& 0 < s.poll_interval <= millis(60_000)
            &&& 0 < s.lease_duration <= secs(3600)
            &&& 0 < s.charge_request_timeout <= secs(120)
            &&& 0 < s.retry_base_delay <= s.retry_max_delay
            &&& s.retry_max_delay <= secs(3600)
            &&& 1 <= s.retry_multiplier
            &&& s.shutdown_grace <= secs(3600)
        }),
{
}

// ---------------------------------------------------------------------------------------------
// Logging
// ---------------------------------------------------------------------------------------------

/// How log lines are written.
#[derive(Debug, Clone, Copy, PartialEq, Eq, Structural)]
pub enum LogFormat {
    Json,
    Pretty,
}

impl LogFormat {
    /// The format that a text names, in any letter case and with white space around it.
    pub open spec fn named(raw: Seq<char>) -> Option<LogFormat> {
        let name = trimmed(raw).map_values(|c: char| lower(c));
        if name == "json"@ {
            Some(LogFormat::Json)
        } else if name == "pretty"@ {
            Some(LogFormat::Pretty)
        } else {
            None
        }
    }

    /// Reads `LOG_FORMAT`; JSON where it is not set, or not to a text.
    pub fn from_env(env: &Environment) -> (r: Result<Self, ConfigError>)
        ensures
            match env.value("LOG_FORMAT"@) {
                EnvText::Text(raw) => match LogFormat::named(raw) {
                    Some(format) => r == Ok::<Self, ConfigError>(format),
                    None => r matches Err(e) && e@ == fault(
                        "LOG_FORMAT"@,
                        debug_quoted(trimmed(raw).map_values(|c: char| lower(c)))
                            + " must be \"json\" or \"pretty\""@,
                    ),
                },
                _ => r == Ok::<Self, ConfigError>(LogFormat::Json),
            },
    {
        match env.var("LOG_FORMAT") {
            EnvValue::Text(raw) => {
                let name = to_ascii_lowercase(&trim(&raw));
                if same_text(&name, "json") {
                    Ok(LogFormat::Json)
                } else if same_text(&name, "pretty") {
                    Ok(LogFormat::Pretty)
                } else {
                    Err(
                        invalid(
                            "LOG_FORMAT",
                            join2(&quoted(&name), " must be \"json\" or \"pretty\""),
                        ),
                    )
                }
            },
            _ => Ok(LogFormat::Json),
        }
    }
}

// ---------------------------------------------------------------------------------------------
// What the settings mean
// ---------------------------------------------------------------------------------------------

/// The last assignment to a name counts; assignments to other names do not. What was never assigned is
/// not set.
pub proof fn law_the_last_assignment_counts(
    assignments: Seq<(Seq<char>, EnvText)>,
    name: Seq<char>,
    value: EnvText,
    other: Seq<char>,
)
    ensures
        assigned(assignments.push((name, value)), name) == value,
        other != name ==> assigned(assignments.push((name, value)), other) == assigned(
            assignments,
            other,
        ),
        assigned(seq![], name) == EnvText::Unset,
{
    assert(assignments.push((name, value)).drop_last() =~= assignments);
}

/// A number is read from its decimal digits, if it does not exceed the limit. Where the variable is not
/// set the default counts. Whatever else it holds is an error that names the variable.
pub proof fn law_numbers_are_read_from_their_digits(
    n: nat,
    name: Seq<char>,
    max: nat,
    default: nat,
    raw: Seq<char>,
)
    ensures
        number_setting(EnvText::Unset, name, max, default) == Ok::<nat, ConfigFault>(default),
        n <= max ==> number_setting(EnvText::Text(decimal(n)), name, max, default) == Ok::<
            nat,
            ConfigFault,
        >(n),
        n > max ==> number_setting(EnvText::Text(decimal(n)), name, max, default) is Err,
        number_setting(EnvText::Text(raw), name, max, default) matches Ok(v) ==> v <= max
            && crate::text::unsigned_value(trimmed(raw)) == Some(v),
        number_setting(EnvText::Text(raw), name, max, default) matches Err(e) ==> e
            == (ConfigFault::Invalid { name, reason: "could not parse "@ + debug_quoted(raw) }),
        number_setting(EnvText::NotUnicode, name, max, default) == Err::<nat, ConfigFault>(
            ConfigFault::Invalid { name, reason: "value is not valid UTF-8"@ },
        ),
{
    crate::text::law_decimal_round_trip(n);
    crate::text::law_decimal_is_trimmed(n);
}

/// Which database settings are accepted: a PostgreSQL address, 1 to 100 connections, and up to a minute
/// to connect. Of a single rule that is broken the variable is named.
pub proof fn law_database_settings_are_accepted_by_rule(s: DatabaseSettings)
    ensures
        ({
            let address = "postgres://"@.is_prefix_of(s.url) || "postgresql://"@.is_prefix_of(s.url);
            let connections = 1 <= s.max_connections <= 100;
            let timeout = 0 < s.connect_timeout <= 60_000_000_000;
            &&& s.broken_rule() is None <==> !blank(s.url) && address && connections && timeout
            &&& blank(s.url) || !address ==> (s.broken_rule() matches Some(
                ConfigFault::Invalid { name, .. },
            ) && name == "DATABASE_URL"@)
            &&& !blank(s.url) && address && !connections ==> (s.broken_rule() matches Some(
                ConfigFault::Invalid { name, .. },
            ) && name == "DATABASE_MAX_CONNECTIONS"@)
            &&& !blank(s.url) && address && connections && !timeout ==> (s.broken_rule() matches Some(
                ConfigFault::Invalid { name, .. },
            ) && name == "DATABASE_CONNECT_TIMEOUT_SECS"@)
        }),
{
}

/// What database settings are made of: each variable sets its own, in its own unit, and has a default.
/// The address has none.
pub proof fn law_database_settings_come_from_their_variables(env: Environment, n: nat)
    ensures
        env.value("DATABASE_URL"@) !is Text ==> DatabaseSettings::read(env) == Err::<
            DatabaseSettings,
            ConfigFault,
        >(ConfigFault::Missing("DATABASE_URL"@)),
        DatabaseSettings::read(env) matches Ok(s) ==> {
            &&& env.value("DATABASE_URL"@) == EnvText::Text(s.url)
            &&& env.value("DATABASE_MAX_CONNECTIONS"@) is Unset ==> s.max_connections == 10
            &&& env.value("DATABASE_MAX_CONNECTIONS"@) == EnvText::Text(decimal(n))
                ==> s.max_connections == n
            &&& env.value("DATABASE_CONNECT_TIMEOUT_SECS"@) is Unset ==> s.connect_timeout
                == 5_000_000_000
            &&& env.value("DATABASE_CONNECT_TIMEOUT_SECS"@) == EnvText::Text(decimal(n))
                ==> s.connect_timeout == n * 1_000_000_000
            &&& s.broken_rule() is None
        },
        env.value("DATABASE_MAX_CONNECTIONS"@) is NotUnicode || env.value(
            "DATABASE_CONNECT_TIMEOUT_SECS"@,
        ) is NotUnicode ==> DatabaseSettings::read(env) is Err,
{
    crate::text::law_decimal_round_trip(n);
    crate::text::law_decimal_is_trimmed(n);
}

/// Which server settings are accepted: bodies of 1 byte to 10 MiB, and up to two minutes for a request.
pub proof fn law_server_settings_are_accepted_by_rule(s: HttpSettings, prefix: Seq<char>)
    ensures
        ({
            let body = 1 <= s.max_body_bytes <= 10 * 1024 * 1024;
            let timeout = 0 < s.request_timeout <= 120_000_000_000;
            &&& s.broken_rule(prefix) is None <==> body && timeout
            &&& !body ==> (s.broken_rule(prefix) matches Some(ConfigFault::Invalid { name, .. })
                && name == prefix + "_MAX_BODY_BYTES"@)
            &&& body && !timeout ==> (s.broken_rule(prefix) matches Some(
                ConfigFault::Invalid { name, .. },
            ) && name == prefix + "_REQUEST_TIMEOUT_SECS"@)
        }),
{
}

/// What server settings are made of: each variable, named after the prefix, sets its own, in its own
/// unit, and has a default.
pub proof fn law_server_settings_come_from_their_variables(
    env: Environment,
    prefix: Seq<char>,
    default_bind_addr: Seq<char>,
    is_address: bool,
    n: nat,
)
    ensures
        !is_address ==> HttpSettings::read(env, prefix, default_bind_addr, is_address) is Err,
        HttpSettings::read(env, prefix, default_bind_addr, is_address) matches Ok(s) ==> {
            &&& env.value(prefix + "_BIND_ADDR"@) matches EnvText::Text(raw) ==> s.bind_addr == raw
            &&& env.value(prefix + "_BIND_ADDR"@) !is Text ==> s.bind_addr == default_bind_addr
            &&& env.value(prefix + "_MAX_BODY_BYTES"@) is Unset ==> s.max_body_bytes == 64 * 1024
            &&& env.value(prefix + "_MAX_BODY_BYTES"@) == EnvText::Text(decimal(n))
                ==> s.max_body_bytes == n
            &&& env.value(prefix + "_REQUEST_TIMEOUT_SECS"@) is Unset ==> s.request_timeout
                == 10_000_000_000
            &&& env.value(prefix + "_REQUEST_TIMEOUT_SECS"@) == EnvText::Text(decimal(n))
                ==> s.request_timeout == n * 1_000_000_000
            &&& s.broken_rule(prefix) is None
        },
        HttpSettings::address(env, prefix, default_bind_addr) == match env.value(
            prefix + "_BIND_ADDR"@,
        ) {
            EnvText::Text(raw) => raw,
            _ => default_bind_addr,
        },
{
    crate::text::law_decimal_round_trip(n);
    crate::text::law_decimal_is_trimmed(n);
}

/// Which worker settings are accepted: 1 to 1000 jobs at once, a poll interval of up to a minute, a
/// lease of up to an hour, an HTTP address, up to two minutes for a charge, a base delay and a maximal
/// delay of up to an hour of which the first does not exceed the second, a multiplier of at least one,
/// and up to an hour to shut down, which may also be nothing.
pub proof fn law_worker_settings_are_accepted_by_rule(s: WorkerSettings)
    ensures
        s.broken_rule() is None <==> {
            &&& 1 <= s.concurrency <= 1000
            &&& 0 < s.poll_interval <= 60_000_000_000
            &&& 0 < s.lease_duration <= 3_600_000_000_000
            &&& "http://"@.is_prefix_of(s.charge_service_url) || "https://"@.is_prefix_of(
                s.charge_service_url,
            )
            &&& 0 < s.charge_request_timeout <= 120_000_000_000
            &&& 0 < s.retry_base_delay <= s.retry_max_delay
            &&& s.retry_max_delay <= 3_600_000_000_000
            &&& 1 <= s.retry_multiplier
            &&& s.shutdown_grace <= 3_600_000_000_000
        },
{
}

/// Of a worker setting that alone is out of its bounds the variable is named.
pub proof fn law_broken_worker_rules_name_the_variable(s: WorkerSettings)
    ensures
        s.broken_rule() matches Some(ConfigFault::Invalid { name, .. }) ==> {
            let concurrency = 1 <= s.concurrency <= 1000;
            let poll = 0 < s.poll_interval <= 60_000_000_000;
            let lease = 0 < s.lease_duration <= 3_600_000_000_000;
            let url = "http://"@.is_prefix_of(s.charge_service_url) || "https://"@.is_prefix_of(
                s.charge_service_url,
            );
            let timeout = 0 < s.charge_request_timeout <= 120_000_000_000;
            let base = 0 < s.retry_base_delay <= s.retry_max_delay;
            let multiplier = 1 <= s.retry_multiplier;
            let max = 0 < s.retry_max_delay <= 3_600_000_000_000;
            let grace = s.shutdown_grace <= 3_600_000_000_000;
            &&& !concurrency && poll && lease && url && timeout && base && multiplier && max && grace
                ==> name == "WORKER_CONCURRENCY"@
            &&& concurrency && !poll && lease && url && timeout && base && multiplier && max && grace
                ==> name == "WORKER_POLL_INTERVAL_MS"@
            &&& concurrency && poll && !lease && url && timeout && base && multiplier && max && grace
                ==> name == "WORKER_LEASE_DURATION_SECS"@
            &&& concurrency && poll && lease && !url && timeout && base && multiplier && max && grace
                ==> name == "WORKER_CHARGE_SERVICE_URL"@
            &&& concurrency && poll && lease && url && !timeout && base && multiplier && max && grace
                ==> name == "WORKER_CHARGE_REQUEST_TIMEOUT_SECS"@
            &&& concurrency && poll && lease && url && timeout && !base && multiplier && max && grace
                ==> name == "WORKER_RETRY_BASE_DELAY_MS"@
            &&& concurrency && poll && lease && url && timeout && base && !multiplier && max && grace
                ==> name == "WORKER_RETRY_MULTIPLIER"@
            &&& concurrency && poll && lease && url && timeout && base && multiplier && !max && grace
                ==> name == "WORKER_RETRY_MAX_DELAY_SECS"@
            &&& concurrency && poll && lease && url && timeout && base && multiplier && max && !grace
                ==> name == "WORKER_SHUTDOWN_GRACE_SECS"@
        },
        s.broken_rule() matches Some(fault) ==> fault is Invalid,
{
}

/// What worker settings are made of: each variable sets its own, in its own unit, and has a default.
/// The address of the charge service has none.
pub proof fn law_worker_settings_come_from_their_variables(env: Environment, n: nat)
    ensures
        env.value("WORKER_CHARGE_SERVICE_URL"@) !is Text ==> WorkerSettings::read(env) is Err,
        WorkerSettings::read(env) matches Ok(s) ==> {
            &&& env.value("WORKER_CONCURRENCY"@) is Unset ==> s.concurrency == 10
            &&& env.value("WORKER_CONCURRENCY"@) == EnvText::Text(decimal(n)) ==> s.concurrency == n
            &&& env.value("WORKER_POLL_INTERVAL_MS"@) is Unset ==> s.poll_interval == 250_000_000
            &&& env.value("WORKER_POLL_INTERVAL_MS"@) == EnvText::Text(decimal(n))
                ==> s.poll_interval == n * 1_000_000
            &&& env.value("WORKER_LEASE_DURATION_SECS"@) is Unset ==> s.lease_duration
                == 30_000_000_000
            &&& env.value("WORKER_LEASE_DURATION_SECS"@) == EnvText::Text(decimal(n))
                ==> s.lease_duration == n * 1_000_000_000
            &&& env.value("WORKER_CHARGE_SERVICE_URL"@) == EnvText::Text(s.charge_service_url)
            &&& env.value("WORKER_CHARGE_REQUEST_TIMEOUT_SECS"@) is Unset
                ==> s.charge_request_timeout == 10_000_000_000
            &&& env.value("WORKER_CHARGE_REQUEST_TIMEOUT_SECS"@) == EnvText::Text(decimal(n))
                ==> s.charge_request_timeout == n * 1_000_000_000
            &&& env.value("WORKER_RETRY_BASE_DELAY_MS"@) is Unset ==> s.retry_base_delay
                == 1_000_000_000
            &&& env.value("WORKER_RETRY_BASE_DELAY_MS"@) == EnvText::Text(decimal(n))
                ==> s.retry_base_delay == n * 1_000_000
            &&& env.value("WORKER_RETRY_MULTIPLIER"@) is Unset ==> s.retry_multiplier == 2
            &&& env.value("WORKER_RETRY_MULTIPLIER"@) == EnvText::Text(decimal(n))
                ==> s.retry_multiplier == n
            &&& env.value("WORKER_RETRY_MAX_DELAY_SECS"@) is Unset ==> s.retry_max_delay
                == 60_000_000_000
            &&& env.value("WORKER_RETRY_MAX_DELAY_SECS"@) == EnvText::Text(decimal(n))
                ==> s.retry_max_delay == n * 1_000_000_000
            &&& env.value("WORKER_SHUTDOWN_GRACE_SECS"@) is Unset ==> s.shutdown_grace
                == 30_000_000_000
            &&& env.value("WORKER_SHUTDOWN_GRACE_SECS"@) == EnvText::Text(decimal(n))
                ==> s.shutdown_grace == n * 1_000_000_000
            &&& s.broken_rule() is None
        },
{
    crate::text::law_decimal_round_trip(n);
    crate::text::law_decimal_is_trimmed(n);
}

/// Settings are accepted wherever every variable can be read and no rule is broken: the defaults are
/// within the bounds, so that an address is all that a worker needs.
pub proof fn law_an_address_is_all_that_a_worker_needs(env: Environment, url: Seq<char>)
    requires
        env.value("WORKER_CHARGE_SERVICE_URL"@) == EnvText::Text(url),
        "http://"@.is_prefix_of(url) || "https://"@.is_prefix_of(url),
        env.value("WORKER_CONCURRENCY"@) is Unset,
        env.value("WORKER_POLL_INTERVAL_MS"@) is Unset,
        env.value("WORKER_LEASE_DURATION_SECS"@) is Unset,
        env.value("WORKER_CHARGE_REQUEST_TIMEOUT_SECS"@) is Unset,
        env.value("WORKER_RETRY_BASE_DELAY_MS"@) is Unset,
        env.value("WORKER_RETRY_MULTIPLIER"@) is Unset,
        env.value("WORKER_RETRY_MAX_DELAY_SECS"@) is Unset,
        env.value("WORKER_SHUTDOWN_GRACE_SECS"@) is Unset,
    ensures
        WorkerSettings::read(env) is Ok,
{
}

/// A configuration says what its fields hold.
pub proof fn law_configurations_say_what_they_hold(
    database: DatabaseConfig,
    server: HttpConfig,
    worker: WorkerConfig,
)
    ensures
        database@.url == database.url@ && database@.max_connections == database.max_connections
            && database@.connect_timeout == database.connect_timeout@,
        server@.bind_addr == server.bind_addr@ && server@.max_body_bytes == server.max_body_bytes
            && server@.request_timeout == server.request_timeout@,
        worker@.concurrency == worker.concurrency && worker@.poll_interval == worker.poll_interval@
            && worker@.lease_duration == worker.lease_duration@ && worker@.charge_service_url
            == worker.charge_service_url@ && worker@.charge_request_timeout
            == worker.charge_request_timeout@ && worker@.retry_base_delay == worker.retry_base_delay@
            && worker@.retry_multiplier == worker.retry_multiplier && worker@.retry_max_delay
            == worker.retry_max_delay@ && worker@.shutdown_grace == worker.shutdown_grace@,
{
}

} // verus!
