//! The stored state of the queue and the operations on it.
//!
//! A [`jobs::JobStore`] holds rows of the `jobs` and `job_attempts` tables, a
//! [`charges::ChargeStore`] rows of `charges`. Every operation takes the time and the fresh
//! identifiers that it needs as arguments, so that its effect is a function of its inputs.

pub mod attempts;
pub mod charges;
pub mod effects;
pub mod jobs;
pub mod laws;
pub mod model;
pub mod operations;
pub mod order;
pub mod soundness;
