//! The errors of the charge service, which have the same form as those of the queue.

pub use crate::api::error::{ApiError, ApiFault};
use vstd::prelude::*;

verus! {

/// The answer to a request that was cut short: because its time was up, or for another reason, which
/// is told in words.
pub fn handle_timeout_error(elapsed: bool, reason: String) -> (e: ApiError)
    ensures
        elapsed ==> e@ == (ApiFault {
            status: 408,
            code: "TIMEOUT"@,
            message: "request timed out"@,
        }),
        !elapsed ==> e@ == ApiFault::internal(reason@),
{
    if elapsed {
        ApiError::new(408, "TIMEOUT", "request timed out".to_string())
    } else {
        ApiError::internal(reason)
    }
}

} // verus!
