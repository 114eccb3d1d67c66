//! The vocabulary of jobs and attempts.

use crate::text::same_text;
use vstd::prelude::*;

verus! {

/// Where a job stands. The store holds the text form, see [`JobStatus::as_db_str`].
#[derive(Debug, Clone, Copy, PartialEq, Eq, Hash, Structural)]
pub enum JobStatus {
    Pending,
    Running,
    Succeeded,
    Dead,
}

impl JobStatus {
    /// The text that the store holds for this status.
    pub open spec fn db_text(self) -> Seq<char> {
        match self {
            JobStatus::Pending => "PENDING"@,
            JobStatus::Running => "RUNNING"@,
            JobStatus::Succeeded => "SUCCEEDED"@,
            JobStatus::Dead => "DEAD"@,
        }
    }

    /// The status that a stored text stands for.
    pub open spec fn of_text(s: Seq<char>) -> Option<JobStatus> {
        if s == JobStatus::Pending.db_text() {
            Some(JobStatus::Pending)
        } else if s == JobStatus::Running.db_text() {
            Some(JobStatus::Running)
        } else if s == JobStatus::Succeeded.db_text() {
            Some(JobStatus::Succeeded)
        } else if s == JobStatus::Dead.db_text() {
            Some(JobStatus::Dead)
        } else {
            None
        }
    }

    /// `SUCCEEDED` and `DEAD` end the automatic life of a job.
    pub open spec fn terminal(self) -> bool {
        self == JobStatus::Succeeded || self == JobStatus::Dead
    }

    pub fn as_db_str(self) -> (s: &'static str)
        ensures
            s@ == self.db_text(),
    {
        match self {
            JobStatus::Pending => "PENDING",
            JobStatus::Running => "RUNNING",
            JobStatus::Succeeded => "SUCCEEDED",
            JobStatus::Dead => "DEAD",
        }
    }

    pub fn parse_db_str(s: &str) -> (r: Option<Self>)
        ensures
            r == JobStatus::of_text(s@),
    {
        if same_text(s, "PENDING") {
            Some(JobStatus::Pending)
        } else if same_text(s, "RUNNING") {
            Some(JobStatus::Running)
        } else if same_text(s, "SUCCEEDED") {
            Some(JobStatus::Succeeded)
        } else if same_text(s, "DEAD") {
            Some(JobStatus::Dead)
        } else {
            None
        }
    }

    pub fn is_terminal(self) -> (r: bool)
        ensures
            r == self.terminal(),
    {
        matches!(self, JobStatus::Succeeded | JobStatus::Dead)
    }

    /// The text form as an owned string.
    pub fn to_string(&self) -> (s: String)
        ensures
            s@ == self.db_text(),
    {
        self.as_db_str().to_owned()
    }
}

/// Every status is read back from its own text, and a text stands for a status only if it is the
/// text of that status.
pub proof fn law_status_text_round_trip(status: JobStatus, s: Seq<char>)
    ensures
        JobStatus::of_text(status.db_text()) == Some(status),
        JobStatus::of_text(s) == Some(status) <==> s == status.db_text(),
{
    reveal_strlit("PENDING");
    reveal_strlit("RUNNING");
    reveal_strlit("SUCCEEDED");
    reveal_strlit("DEAD");
    assert("PENDING"@[0] == 'P');
    assert("RUNNING"@[0] == 'R');
    assert("SUCCEEDED"@[0] == 'S');
    assert("DEAD"@[0] == 'D');
}

/// How an attempt ended.
#[derive(Debug, Clone, Copy, PartialEq, Eq, Hash, Structural)]
pub enum AttemptOutcome {
    Succeeded,
    RetryScheduled,
    Dead,
    LeaseLost,
}

impl AttemptOutcome {
    /// The text that the store holds for this outcome.
    pub open spec fn db_text(self) -> Seq<char> {
        match self {
            AttemptOutcome::Succeeded => "SUCCEEDED"@,
            AttemptOutcome::RetryScheduled => "RETRY_SCHEDULED"@,
            AttemptOutcome::Dead => "DEAD"@,
            AttemptOutcome::LeaseLost => "LEASE_LOST"@,
        }
    }

    pub fn as_db_str(self) -> (s: &'static str)
        ensures
            s@ == self.db_text(),
    {
        match self {
            AttemptOutcome::Succeeded => "SUCCEEDED",
            AttemptOutcome::RetryScheduled => "RETRY_SCHEDULED",
            AttemptOutcome::Dead => "DEAD",
            AttemptOutcome::LeaseLost => "LEASE_LOST",
        }
    }
}

/// No two outcomes share a text.
pub proof fn law_outcome_texts_distinct(a: AttemptOutcome, b: AttemptOutcome)
    ensures
        a.db_text() == b.db_text() ==> a == b,
{
    reveal_strlit("SUCCEEDED");
    reveal_strlit("RETRY_SCHEDULED");
    reveal_strlit("DEAD");
    reveal_strlit("LEASE_LOST");
    assert("SUCCEEDED"@[0] == 'S');
    assert("RETRY_SCHEDULED"@[0] == 'R');
    assert("DEAD"@[0] == 'D');
    assert("LEASE_LOST"@[0] == 'L');
}

/// The store holds these texts, and only success and death end the automatic life of a job.
pub proof fn law_texts_and_ends(status: JobStatus)
    ensures
        JobStatus::Pending.db_text() == "PENDING"@,
        JobStatus::Running.db_text() == "RUNNING"@,
        JobStatus::Succeeded.db_text() == "SUCCEEDED"@,
        JobStatus::Dead.db_text() == "DEAD"@,
        AttemptOutcome::Succeeded.db_text() == "SUCCEEDED"@,
        AttemptOutcome::RetryScheduled.db_text() == "RETRY_SCHEDULED"@,
        AttemptOutcome::Dead.db_text() == "DEAD"@,
        AttemptOutcome::LeaseLost.db_text() == "LEASE_LOST"@,
        status.terminal() <==> status is Succeeded || status is Dead,
{
}

} // verus!
