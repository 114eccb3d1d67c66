//! Which failures of a downstream call are worth another attempt.

use vstd::prelude::*;

verus! {

#[derive(Debug, Clone, Copy, PartialEq, Eq, Structural)]
pub enum FailureClass {
    /// A response told of a temporary problem: safe and expected to retry.
    Transient,
    /// A validated rejection: another attempt would not change it.
    Permanent,
    /// No response came at all. Whether the effect happened is unknown; the call is idempotent,
    /// so another attempt is safe.
    Ambiguous,
}

impl FailureClass {
    /// Every failure but a permanent one is tried again.
    pub open spec fn retryable(self) -> bool {
        self != FailureClass::Permanent
    }

    pub fn is_retryable(self) -> (r: bool)
        ensures
            r == self.retryable(),
    {
        matches!(self, FailureClass::Transient | FailureClass::Ambiguous)
    }
}

/// The statuses that tell of a temporary problem: 408, 429 and the server errors.
pub open spec fn transient_status(status: u16) -> bool {
    status == 408 || status == 429 || 500 <= status <= 599
}

/// Classifies an HTTP status that was received. Only for responses other than success.
pub fn classify_http_status(status: u16) -> (r: FailureClass)
    ensures
        r == if transient_status(status) {
            FailureClass::Transient
        } else {
            FailureClass::Permanent
        },
{
    if status == 408 || status == 429 || (500 <= status && status <= 599) {
        FailureClass::Transient
    } else {
        FailureClass::Permanent
    }
}

/// Classifies the absence of any HTTP response (timeout, refused connection and the like).
pub fn classify_network_error() -> (r: FailureClass)
    ensures
        r == FailureClass::Ambiguous,
{
    FailureClass::Ambiguous
}

/// Timeouts, overload and errors of the server are worth another attempt, and so is the absence of an
/// answer; nothing else is. A permanent failure is never tried again.
pub proof fn law_temporary_problems_are_tried_again(status: u16)
    ensures
        transient_status(408),
        transient_status(429),
        500 <= status <= 599 ==> transient_status(status),
        transient_status(status) ==> status == 408 || status == 429 || 500 <= status <= 599,
        FailureClass::Transient.retryable(),
        FailureClass::Ambiguous.retryable(),
        !FailureClass::Permanent.retryable(),
{
}

} // verus!
