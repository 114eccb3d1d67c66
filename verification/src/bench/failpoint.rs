//! Simulated crashes of a worker at named places.

use vstd::prelude::*;

verus! {

/// Where a worker can be made to crash.
#[derive(Debug, Clone, Copy, PartialEq, Eq, Structural)]
pub enum FailpointName {
    AfterClaimBeforeEffect,
    AfterEffectBeforeFinalize,
    DuringFinalize,
}

pub fn failpoint_label(name: FailpointName) -> (s: &'static str)
    ensures
        s@ == label_text(name),
{
    match name {
        FailpointName::AfterClaimBeforeEffect => "after_claim_before_effect",
        FailpointName::AfterEffectBeforeFinalize => "after_effect_before_finalize",
        FailpointName::DuringFinalize => "during_finalize",
    }
}

/// The label of a failpoint in the results.
pub open spec fn label_text(name: FailpointName) -> Seq<char> {
    match name {
        FailpointName::AfterClaimBeforeEffect => "after_claim_before_effect"@,
        FailpointName::AfterEffectBeforeFinalize => "after_effect_before_finalize"@,
        FailpointName::DuringFinalize => "during_finalize"@,
    }
}

/// Crashes the first attempt of every job at one failpoint; every later attempt runs normally.
#[derive(Debug)]
pub struct CrashFirstAttempt {
    pub name: FailpointName,
    /// The jobs that have crashed.
    pub already_triggered: Vec<u128>,
}

impl CrashFirstAttempt {
    pub fn new(name: FailpointName) -> (c: CrashFirstAttempt)
        ensures
            c.name == name,
            c.already_triggered@ == Seq::<u128>::empty(),
    {
        CrashFirstAttempt { name, already_triggered: Vec::new() }
    }

    /// Whether the job crashes when it reaches the failpoint `name`.
    pub open spec fn triggers(self, name: FailpointName, job_id: u128) -> bool {
        name == self.name && !self.already_triggered@.contains(job_id)
    }

    pub fn should_trigger(&mut self, name: FailpointName, job_id: u128) -> (r: bool)
        ensures
            r == old(self).triggers(name, job_id),
            final(self).name == old(self).name,
            final(self).already_triggered@ == if r {
                old(self).already_triggered@.push(job_id)
            } else {
                old(self).already_triggered@
            },
            name == old(self).name ==> !final(self).triggers(name, job_id),
    {
        if name != self.name {
            return false;
        }
        let mut i: usize = 0;
        while i < self.already_triggered.len()
            invariant
                *self == *old(self),
                i <= self.already_triggered.len(),
                forall|k: int| 0 <= k < i ==> self.already_triggered@[k] != job_id,
            decreases self.already_triggered.len() - i,
        {
            if self.already_triggered[i] == job_id {
                assert(self.already_triggered@.contains(job_id));
                return false;
            }
            i = i + 1;
        }
        assert(!self.already_triggered@.contains(job_id));
        self.already_triggered.push(job_id);
        assert(self.already_triggered@.last() == job_id);
        true
    }
}

/// A job crashes at the failpoint under test if it has not crashed before, and nowhere else. Once it has
/// crashed it does not crash again, and that it did says nothing of other jobs.
pub proof fn law_first_attempts_crash_and_no_others(
    crash: CrashFirstAttempt,
    later: CrashFirstAttempt,
    name: FailpointName,
    job_id: u128,
    other: u128,
)
    requires
        later.name == crash.name,
        later.already_triggered@ == crash.already_triggered@.push(job_id),
        other != job_id,
    ensures
        name != crash.name ==> !crash.triggers(name, job_id),
        crash.triggers(crash.name, job_id) <==> forall|i: int|
            0 <= i < crash.already_triggered@.len() ==> crash.already_triggered@[i] != job_id,
        !later.triggers(name, job_id),
        later.triggers(name, other) <==> crash.triggers(name, other),
{
    assert(later.already_triggered@.last() == job_id);
    let before = crash.already_triggered@;
    let after = later.already_triggered@;
    if before.contains(other) {
        let i = before.index_of(other);
        assert(after[i] == other);
    }
    if after.contains(other) {
        let i = after.index_of(other);
        assert(before[i] == other);
    }
}

} // verus!
