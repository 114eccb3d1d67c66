//! The benchmark harness: what is run, how a run is judged, and what is recorded of it. Processes,
//! requests, clocks and everything measured in fractions are the business of the program around it.

pub mod config;
pub mod env_info;
pub mod failpoint;
pub mod gate;
pub mod operations;
pub mod points;
pub mod procs;
pub mod record;
pub mod resource;
pub mod runs;
pub mod submit;
pub mod workload;
