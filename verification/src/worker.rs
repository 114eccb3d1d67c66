//! What becomes of an attempt, given how the charge service answered.

use crate::db::model::JobRecord;
use crate::failure::{
    classify_http_status, classify_network_error, transient_status, FailureClass,
};
use crate::time::Timestamp;
use vstd::prelude::*;

verus! {

/// How the charge service answered.
#[derive(Debug, Clone, Copy, PartialEq, Eq, Structural)]
pub enum ChargeAnswer {
    Status(u16),
    /// There was no answer at all.
    Nothing,
}

/// What becomes of an attempt.
#[derive(Debug, Clone, Copy, PartialEq, Eq, Structural)]
pub enum Settlement {
    Succeed,
    Retry(FailureClass),
    GiveUp(FailureClass),
}

impl ChargeAnswer {
    /// The charge was made, now or before.
    pub open spec fn success(self) -> bool {
        self matches ChargeAnswer::Status(status) && 200 <= status <= 299
    }

    /// What kind of failure it is, if it is one.
    pub open spec fn failure(self) -> FailureClass {
        match self {
            ChargeAnswer::Status(status) => if transient_status(status) {
                FailureClass::Transient
            } else {
                FailureClass::Permanent
            },
            ChargeAnswer::Nothing => FailureClass::Ambiguous,
        }
    }
}

/// What becomes of an attempt: a failure worth retrying is retried as long as an attempt is left.
pub open spec fn settlement(
    answer: ChargeAnswer,
    attempt_number: i32,
    max_attempts: i32,
) -> Settlement {
    if answer.success() {
        Settlement::Succeed
    } else if answer.failure().retryable() && attempt_number < max_attempts {
        Settlement::Retry(answer.failure())
    } else {
        Settlement::GiveUp(answer.failure())
    }
}

pub fn settle(answer: ChargeAnswer, attempt_number: i32, max_attempts: i32) -> (s: Settlement)
    ensures
        s == settlement(answer, attempt_number, max_attempts),
{
    let class = match answer {
        ChargeAnswer::Status(status) => {
            if 200 <= status && status <= 299 {
                return Settlement::Succeed;
            }
            classify_http_status(status)
        },
        ChargeAnswer::Nothing => classify_network_error(),
    };
    if class.is_retryable() && attempt_number < max_attempts {
        Settlement::Retry(class)
    } else {
        Settlement::GiveUp(class)
    }
}

/// The code under which a failure is recorded: the name of its class.
pub fn error_code(class: FailureClass) -> (s: &'static str)
    ensures
        s@ == match class {
            FailureClass::Transient => "TRANSIENT"@,
            FailureClass::Permanent => "PERMANENT"@,
            FailureClass::Ambiguous => "AMBIGUOUS"@,
        },
{
    match class {
        FailureClass::Transient => "TRANSIENT",
        FailureClass::Permanent => "PERMANENT",
        FailureClass::Ambiguous => "AMBIGUOUS",
    }
}

/// A job that is put back for a retry can be claimed once its time has come: no job waits in the queue
/// without an attempt left.
pub proof fn law_rescheduled_jobs_become_claimable(
    job: JobRecord,
    answer: ChargeAnswer,
    next: Timestamp,
    error_code: Seq<char>,
    error_message: Seq<char>,
    now: Timestamp,
    later: Timestamp,
)
    requires
        settlement(answer, job.attempts, job.max_attempts) is Retry,
        !later.before(next),
    ensures
        job.rescheduled(next, error_code, error_message, now).claimable(later),
{
}

/// What becomes of an attempt: a job succeeds if and only if the charge was answered with a status from
/// 200 to 299. It is tried again if there was no answer, or one that tells of a temporary problem, and
/// an attempt is left. In every other case it is given up.
pub proof fn law_attempts_are_settled_by_the_answer(
    answer: ChargeAnswer,
    attempt_number: i32,
    max_attempts: i32,
)
    ensures
        ({
            let settled = settlement(answer, attempt_number, max_attempts);
            match answer {
                ChargeAnswer::Status(status) => {
                    let temporary = status == 408 || status == 429 || 500 <= status <= 599;
                    &&& settled is Succeed <==> 200 <= status <= 299
                    &&& settled == Settlement::Retry(FailureClass::Transient) <==> temporary
                        && attempt_number < max_attempts
                    &&& settled == Settlement::GiveUp(FailureClass::Transient) <==> temporary
                        && attempt_number >= max_attempts
                    &&& settled == Settlement::GiveUp(FailureClass::Permanent) <==> !(200 <= status
                        <= 299) && !temporary
                },
                ChargeAnswer::Nothing => {
                    &&& settled == Settlement::Retry(FailureClass::Ambiguous) <==> attempt_number
                        < max_attempts
                    &&& settled == Settlement::GiveUp(FailureClass::Ambiguous) <==> attempt_number
                        >= max_attempts
                },
            }
        }),
{
}

} // verus!
