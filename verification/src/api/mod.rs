//! The HTTP interface of the queue: what each request is answered, given the stored state.

pub mod cursor;
pub mod error;
pub mod health;
pub mod jobs;
pub mod operations;
