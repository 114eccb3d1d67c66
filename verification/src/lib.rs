//! A durable background-job queue: the rules by which jobs are submitted, claimed, leased,
//! retried and finished, and by which their side effects stay idempotent.

pub mod api;
pub mod bench;
pub mod config;
pub mod db;
pub mod domain;
pub mod failure;
pub mod fake_charge;
pub mod idempotency;
pub mod ids;
pub mod operations;
pub mod redact;
pub mod retry;
pub mod text;
pub mod time;
pub mod validation;
pub mod worker;
