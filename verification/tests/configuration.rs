//! Configuration read from environment variables.

use reliableq::config::{
    invalid, parse_env, ConfigError, DatabaseConfig, EnvValue, Environment, HttpConfig, LogFormat,
    WorkerConfig,
};
use reliableq::time::Duration;

fn text(value: &str) -> EnvValue {
    EnvValue::Text(value.to_string())
}

fn env(vars: &[(&str, &str)]) -> Environment {
    let mut env = Environment::new();
    for (name, value) in vars {
        env.set(name, text(value));
    }
    env
}

/// Whether the address to bind is one of the socket addresses that the tests use.
fn is_address(env: &Environment, prefix: &str, default: &str) -> bool {
    let text = HttpConfig::bind_addr_from_env(env, prefix, default);
    text == "127.0.0.1:8080" || text == "0.0.0.0:9000"
}

fn http(env: &Environment, prefix: &str, default: &str) -> Result<HttpConfig, ConfigError> {
    HttpConfig::from_env(env, prefix, default, is_address(env, prefix, default))
}

#[test]
fn database_config_requires_url() {
    assert_eq!(
        DatabaseConfig::from_env(&env(&[])),
        Err(ConfigError::Missing("DATABASE_URL"))
    );
}

#[test]
fn database_config_rejects_non_postgres_url() {
    let err = DatabaseConfig::from_env(&env(&[("DATABASE_URL", "mysql://localhost/db")]))
        .unwrap_err();
    assert!(matches!(err, ConfigError::Invalid { name, .. } if name == "DATABASE_URL"));
}

#[test]
fn database_config_applies_defaults() {
    let config =
        DatabaseConfig::from_env(&env(&[("DATABASE_URL", "postgres://localhost/reliableq")]))
            .unwrap();
    assert_eq!(
        config.max_connections,
        DatabaseConfig::DEFAULT_MAX_CONNECTIONS
    );
    assert_eq!(
        config.connect_timeout,
        Duration::from_secs(DatabaseConfig::DEFAULT_CONNECT_TIMEOUT_SECS)
    );
}

#[test]
fn database_config_rejects_out_of_range_pool_size() {
    let with_size = |size: &str| {
        DatabaseConfig::from_env(&env(&[
            ("DATABASE_URL", "postgres://localhost/reliableq"),
            ("DATABASE_MAX_CONNECTIONS", size),
        ]))
    };
    assert!(with_size("0").is_err());
    assert!(with_size("500").is_err());
    assert!(with_size("100").is_ok());
}

#[test]
fn database_config_errors_in_full() {
    let with = |name: &str, value: &str| {
        DatabaseConfig::from_env(&env(&[
            ("DATABASE_URL", "postgresql://localhost/reliableq"),
            (name, value),
        ]))
        .unwrap_err()
        .message()
    };
    assert_eq!(
        with("DATABASE_URL", "  "),
        "invalid value for DATABASE_URL: must not be empty"
    );
    assert_eq!(
        with("DATABASE_URL", "http://x"),
        "invalid value for DATABASE_URL: must be a postgres:// URL"
    );
    assert_eq!(
        with("DATABASE_MAX_CONNECTIONS", "101"),
        "invalid value for DATABASE_MAX_CONNECTIONS: must be between 1 and 100"
    );
    assert_eq!(
        with("DATABASE_CONNECT_TIMEOUT_SECS", "61"),
        "invalid value for DATABASE_CONNECT_TIMEOUT_SECS: must be between 1 and 60 seconds"
    );
    assert_eq!(
        with("DATABASE_MAX_CONNECTIONS", "many\n"),
        "invalid value for DATABASE_MAX_CONNECTIONS: could not parse \"many\\n\""
    );
    assert_eq!(
        DatabaseConfig::from_env(&env(&[])).unwrap_err().message(),
        "missing required environment variable DATABASE_URL"
    );
}

#[test]
fn a_database_url_that_is_not_text_counts_as_missing() {
    let mut env = Environment::new();
    env.set("DATABASE_URL", EnvValue::NotUnicode);
    assert_eq!(
        DatabaseConfig::from_env(&env),
        Err(ConfigError::Missing("DATABASE_URL"))
    );
}

#[test]
fn numbers_from_the_environment() {
    let mut env = env(&[("N", " 12 "), ("TOO_BIG", "300")]);
    env.set("ODD", EnvValue::NotUnicode);
    assert_eq!(parse_env(&env, "N", 255, 7), Ok(12));
    assert_eq!(parse_env(&env, "UNSET", 255, 7), Ok(7));
    assert_eq!(
        parse_env(&env, "TOO_BIG", 255, 7),
        Err(invalid("TOO_BIG", "could not parse \"300\"".to_string()))
    );
    assert_eq!(
        parse_env(&env, "ODD", 255, 7),
        Err(invalid("ODD", "value is not valid UTF-8".to_string()))
    );
    // The last assignment counts.
    env.set("N", text("13"));
    assert_eq!(parse_env(&env, "N", 255, 7), Ok(13));
    env.set("N", EnvValue::Unset);
    assert_eq!(parse_env(&env, "N", 255, 7), Ok(7));
}

#[test]
fn http_config_uses_default_bind_addr() {
    let config = http(&env(&[]), "RQ_TEST_UNSET_PREFIX", "127.0.0.1:8080").unwrap();
    assert_eq!(config.bind_addr, "127.0.0.1:8080");
    assert_eq!(config.max_body_bytes, HttpConfig::DEFAULT_MAX_BODY_BYTES);
    assert_eq!(
        config.request_timeout,
        Duration::from_secs(HttpConfig::DEFAULT_REQUEST_TIMEOUT_SECS)
    );
}

#[test]
fn http_config_rejects_invalid_bind_addr() {
    let err = http(
        &env(&[("RQ_BADADDR_BIND_ADDR", "not-an-addr")]),
        "RQ_BADADDR",
        "127.0.0.1:8080",
    )
    .unwrap_err();
    assert!(matches!(err, ConfigError::Invalid { .. }));
    assert_eq!(
        err.message(),
        "invalid value for RQ_BADADDR_BIND_ADDR: \"not-an-addr\" is not host:port"
    );
}

#[test]
fn http_config_reads_the_variables_of_its_prefix() {
    let config = http(
        &env(&[
            ("API_BIND_ADDR", "0.0.0.0:9000"),
            ("API_MAX_BODY_BYTES", "1024"),
            ("API_REQUEST_TIMEOUT_SECS", "120"),
            ("OTHER_MAX_BODY_BYTES", "1"),
        ]),
        "API",
        "127.0.0.1:8080",
    )
    .unwrap();
    assert_eq!(config.bind_addr, "0.0.0.0:9000");
    assert_eq!(config.max_body_bytes, 1024);
    assert_eq!(config.request_timeout, Duration::from_secs(120));
}

#[test]
fn http_config_bounds() {
    let with = |name: &str, value: &str| {
        http(&env(&[(name, value)]), "API", "127.0.0.1:8080")
            .unwrap_err()
            .message()
    };
    assert_eq!(
        with("API_MAX_BODY_BYTES", "0"),
        "invalid value for API_MAX_BODY_BYTES: must be between 1 and 10485760"
    );
    assert_eq!(
        with("API_REQUEST_TIMEOUT_SECS", "121"),
        "invalid value for API_REQUEST_TIMEOUT_SECS: must be between 1 and 120 seconds"
    );
}

#[test]
fn log_format_defaults_to_json() {
    assert_eq!(LogFormat::from_env(&env(&[])).unwrap(), LogFormat::Json);
}

#[test]
fn log_format_names() {
    let format = |value: &str| LogFormat::from_env(&env(&[("LOG_FORMAT", value)]));
    assert_eq!(format(" JSON "), Ok(LogFormat::Json));
    assert_eq!(format("Pretty"), Ok(LogFormat::Pretty));
    assert_eq!(
        format("XML").unwrap_err().message(),
        "invalid value for LOG_FORMAT: \"xml\" must be \"json\" or \"pretty\""
    );
}

const WORKER_URL: (&str, &str) = ("WORKER_CHARGE_SERVICE_URL", "http://localhost:8081");

#[test]
fn worker_config_requires_charge_service_url() {
    assert_eq!(
        WorkerConfig::from_env(&env(&[])),
        Err(ConfigError::Missing("WORKER_CHARGE_SERVICE_URL"))
    );
}

#[test]
fn worker_config_applies_defaults() {
    let config = WorkerConfig::from_env(&env(&[WORKER_URL])).unwrap();
    assert_eq!(config.concurrency, WorkerConfig::DEFAULT_CONCURRENCY);
    assert_eq!(
        config.poll_interval,
        Duration::from_millis(WorkerConfig::DEFAULT_POLL_INTERVAL_MS)
    );
    assert_eq!(
        config.lease_duration,
        Duration::from_secs(WorkerConfig::DEFAULT_LEASE_DURATION_SECS)
    );
    assert_eq!(
        config.charge_request_timeout,
        Duration::from_secs(WorkerConfig::DEFAULT_CHARGE_REQUEST_TIMEOUT_SECS)
    );
    assert_eq!(
        config.shutdown_grace,
        Duration::from_secs(WorkerConfig::DEFAULT_SHUTDOWN_GRACE_SECS)
    );
    let policy = config.retry_policy();
    assert_eq!(policy.base_delay, Duration::from_secs(1));
    assert_eq!(policy.multiplier, 2);
    assert_eq!(policy.max_delay, Duration::from_secs(60));
}

#[test]
fn worker_config_rejects_non_http_charge_service_url() {
    assert!(WorkerConfig::from_env(&env(&[(
        "WORKER_CHARGE_SERVICE_URL",
        "ftp://localhost:8081"
    )]))
    .is_err());
}

#[test]
fn worker_config_rejects_zero_concurrency() {
    assert!(WorkerConfig::from_env(&env(&[WORKER_URL, ("WORKER_CONCURRENCY", "0")])).is_err());
}

#[test]
fn worker_config_rules_one_by_one() {
    let with = |vars: &[(&str, &str)]| {
        let mut all = vec![WORKER_URL];
        all.extend_from_slice(vars);
        WorkerConfig::from_env(&env(&all)).unwrap_err().message()
    };
    assert_eq!(
        with(&[("WORKER_CONCURRENCY", "1001")]),
        "invalid value for WORKER_CONCURRENCY: must be between 1 and 1000"
    );
    assert_eq!(
        with(&[("WORKER_POLL_INTERVAL_MS", "60001")]),
        "invalid value for WORKER_POLL_INTERVAL_MS: must be between 1 and 60000 ms"
    );
    assert_eq!(
        with(&[("WORKER_LEASE_DURATION_SECS", "0")]),
        "invalid value for WORKER_LEASE_DURATION_SECS: must be between 1 and 3600 seconds"
    );
    assert_eq!(
        with(&[("WORKER_CHARGE_SERVICE_URL", "localhost")]),
        "invalid value for WORKER_CHARGE_SERVICE_URL: must be an http:// or https:// URL"
    );
    assert_eq!(
        with(&[("WORKER_CHARGE_REQUEST_TIMEOUT_SECS", "121")]),
        "invalid value for WORKER_CHARGE_REQUEST_TIMEOUT_SECS: must be between 1 and 120 seconds"
    );
    assert_eq!(
        with(&[("WORKER_RETRY_BASE_DELAY_MS", "0")]),
        "invalid value for WORKER_RETRY_BASE_DELAY_MS: must be greater than 0"
    );
    assert_eq!(
        with(&[("WORKER_RETRY_MULTIPLIER", "0")]),
        "invalid value for WORKER_RETRY_MULTIPLIER: must be at least 1"
    );
    assert_eq!(
        with(&[("WORKER_RETRY_MAX_DELAY_SECS", "3601")]),
        "invalid value for WORKER_RETRY_MAX_DELAY_SECS: must be between 1 and 3600 seconds"
    );
    assert_eq!(
        with(&[("WORKER_RETRY_BASE_DELAY_MS", "60001")]),
        "invalid value for WORKER_RETRY_BASE_DELAY_MS: must not exceed WORKER_RETRY_MAX_DELAY_SECS"
    );
    assert_eq!(
        with(&[("WORKER_SHUTDOWN_GRACE_SECS", "3601")]),
        "invalid value for WORKER_SHUTDOWN_GRACE_SECS: must be at most 3600 seconds"
    );
    // The first broken rule is reported.
    assert_eq!(
        with(&[
            ("WORKER_RETRY_MULTIPLIER", "0"),
            ("WORKER_CONCURRENCY", "0")
        ]),
        "invalid value for WORKER_CONCURRENCY: must be between 1 and 1000"
    );
    // No grace at all is accepted.
    assert!(
        WorkerConfig::from_env(&env(&[WORKER_URL, ("WORKER_SHUTDOWN_GRACE_SECS", "0")])).is_ok()
    );
}

#[test]
fn worker_settings_are_read_in_order() {
    // An unreadable number before the address is reported first, one after it is not.
    let err = WorkerConfig::from_env(&env(&[("WORKER_CONCURRENCY", "x")])).unwrap_err();
    assert_eq!(
        err,
        invalid("WORKER_CONCURRENCY", "could not parse \"x\"".to_string())
    );
    let err = WorkerConfig::from_env(&env(&[("WORKER_RETRY_MULTIPLIER", "x")])).unwrap_err();
    assert_eq!(err, ConfigError::Missing("WORKER_CHARGE_SERVICE_URL"));
}
