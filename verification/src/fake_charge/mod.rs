//! The charge service: it records charges, and can be told to fail or to be slow.

pub mod chaos;
pub mod charges;
pub mod correlation;
pub mod error;
