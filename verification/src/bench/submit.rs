//! Submitting jobs through the interface of the queue, and waiting until they are done.

use crate::ids::{parse_uuid, uuid_parsed};
use crate::text::{decimal, decimal_text, join2, join3};
use crate::validation::{payload_fault, ChargePayload};
use vstd::prelude::*;

verus! {

// ---------------------------------------------------------------------------------------------
// Payloads
// ---------------------------------------------------------------------------------------------

/// The customer of the job numbered `i`.
pub open spec fn customer(scenario: Seq<char>, i: u64) -> Seq<char> {
    "bench-"@ + scenario + "-"@ + decimal(i as nat)
}

/// The payload of the job numbered `i`.
pub fn charge_payload(scenario: &str, i: u64) -> (p: ChargePayload)
    ensures
        p.customer_id@ == customer(scenario@, i),
        p.amount_cents == 100 + i % 5000,
        p.currency@ == "INR"@,
        p.customer_id@.len() <= 128 ==> payload_fault(p) is None,
{
    let customer_id = join2(&join3("bench-", scenario, "-"), &decimal_text(i));
    let p = ChargePayload {
        customer_id,
        amount_cents: 100 + (i % 5000) as i64,
        currency: "INR".to_string(),
    };
    proof {
        reveal_strlit("INR");
        reveal_strlit("bench-");
        assert(p.currency@[0] == 'I' && p.currency@[1] == 'N' && p.currency@[2] == 'R');
        assert(p.customer_id@[0] == 'b');
        assert(!crate::text::white_space('b'));
    }
    p
}

// ---------------------------------------------------------------------------------------------
// Submissions
// ---------------------------------------------------------------------------------------------

/// How the queue answered a submission: the HTTP status, 0 if there was no answer, and the identifier
/// of the job if it was accepted.
#[derive(Debug, Clone, Copy)]
pub struct SubmitOutcome {
    pub status: u16,
    pub id: Option<u128>,
}

/// A submission counts only once it was answered with 202, with an identifier.
pub fn submit_outcome(status: u16, id_text: Option<String>) -> (o: SubmitOutcome)
    ensures
        o.status == status,
        o.id == match id_text {
            Some(text) => if status == 202 {
                uuid_parsed(text@)
            } else {
                None
            },
            None => None,
        },
{
    let id = match id_text {
        Some(text) => if status == 202 {
            parse_uuid(&text)
        } else {
            None
        },
        None => None,
    };
    SubmitOutcome { status, id }
}

/// The identifiers of the accepted jobs, in the order of the answers.
pub open spec fn accepted(outcomes: Seq<SubmitOutcome>) -> Seq<u128>
    decreases outcomes.len(),
{
    if outcomes.len() == 0 {
        seq![]
    } else {
        match outcomes.last().id {
            Some(id) => accepted(outcomes.drop_last()).push(id),
            None => accepted(outcomes.drop_last()),
        }
    }
}

/// The identifiers of the accepted jobs, and how many submissions failed.
pub fn tally_submissions(outcomes: &Vec<SubmitOutcome>) -> (r: (Vec<u128>, usize))
    ensures
        r.0@ == accepted(outcomes@),
        r.0.len() + r.1 == outcomes.len(),
{
    let mut ids: Vec<u128> = Vec::new();
    let mut i: usize = 0;
    while i < outcomes.len()
        invariant
            i <= outcomes.len(),
            ids@ == accepted(outcomes@.take(i as int)),
            ids.len() <= i,
        decreases outcomes.len() - i,
    {
        assert(outcomes@.take(i + 1).drop_last() =~= outcomes@.take(i as int));
        if let Some(id) = outcomes[i].id {
            ids.push(id);
        }
        i = i + 1;
    }
    assert(outcomes@.take(i as int) =~= outcomes@);
    let failed: usize = outcomes.len() - ids.len();
    (ids, failed)
}

/// How many requests may be under way at once: at least one.
pub fn permits(concurrency: u32) -> (n: u32)
    ensures
        n == if concurrency == 0 {
            1
        } else {
            concurrency
        },
{
    if concurrency == 0 {
        1
    } else {
        concurrency
    }
}

// ---------------------------------------------------------------------------------------------
// Waiting
// ---------------------------------------------------------------------------------------------

/// What to do after a look at something that is being waited for.
#[derive(Debug, Clone, Copy, PartialEq, Eq, Structural)]
pub enum Wait {
    /// It has come about.
    Done,
    /// The time is up.
    GiveUp,
    /// Sleep, and look again.
    Again,
}

/// What to do after a look at the queue. An empty queue counts even when the time is up.
pub fn drain_step(depth: i64, time_is_up: bool) -> (w: Wait)
    ensures
        depth == 0 ==> w == Wait::Done,
        depth != 0 && time_is_up ==> w == Wait::GiveUp,
        depth != 0 && !time_is_up ==> w == Wait::Again,
{
    if depth == 0 {
        Wait::Done
    } else if time_is_up {
        Wait::GiveUp
    } else {
        Wait::Again
    }
}

/// What to do after asking a service whether it is ready.
pub fn ready_step(answered_ok: bool, time_is_up: bool) -> (w: Wait)
    ensures
        answered_ok ==> w == Wait::Done,
        !answered_ok && time_is_up ==> w == Wait::GiveUp,
        !answered_ok && !time_is_up ==> w == Wait::Again,
{
    if answered_ok {
        Wait::Done
    } else if time_is_up {
        Wait::GiveUp
    } else {
        Wait::Again
    }
}

/// What the driver of the claim-batch scenario does after a claim.
#[derive(Debug, Clone, Copy, PartialEq, Eq, Structural)]
pub enum BatchStep {
    /// Execute the jobs that were claimed, then claim again.
    Execute,
    /// The run is over.
    Stop,
}

/// The next step of the driver of the claim-batch scenario: it goes on until there is nothing to claim.
pub fn batch_step(claimed: usize) -> (s: BatchStep)
    ensures
        s == if claimed == 0 {
            BatchStep::Stop
        } else {
            BatchStep::Execute
        },
{
    if claimed == 0 {
        BatchStep::Stop
    } else {
        BatchStep::Execute
    }
}

/// What a worker that drives the store itself does next.
#[derive(Debug, Clone, Copy, PartialEq, Eq, Structural)]
pub enum DriverStep {
    /// Ask the store for jobs.
    Claim,
    /// Execute the jobs that were claimed, then ask again.
    Execute,
    /// Count the jobs that are not finished.
    CountRemaining,
    /// Wait for leases to run out, then ask again.
    Sleep,
    /// All jobs are finished.
    Quiescent,
    /// The time is up.
    GiveUp,
}

/// What the driver has just learned.
#[derive(Debug, Clone, Copy, PartialEq, Eq, Structural)]
pub enum DriverEvent {
    /// A round begins.
    Round { time_is_up: bool },
    Claimed { jobs: usize },
    Remaining { jobs: i64 },
}

/// The next step of the driver of the failpoint scenario. Each round begins with a look at the clock;
/// if there is nothing to claim, it is over once no job is left unfinished.
pub fn driver_step(event: DriverEvent) -> (s: DriverStep)
    ensures
        s == match event {
            DriverEvent::Round { time_is_up } => if time_is_up {
                DriverStep::GiveUp
            } else {
                DriverStep::Claim
            },
            DriverEvent::Claimed { jobs } => if jobs == 0 {
                DriverStep::CountRemaining
            } else {
                DriverStep::Execute
            },
            DriverEvent::Remaining { jobs } => if jobs == 0 {
                DriverStep::Quiescent
            } else {
                DriverStep::Sleep
            },
        },
{
    match event {
        DriverEvent::Round { time_is_up } => if time_is_up {
            DriverStep::GiveUp
        } else {
            DriverStep::Claim
        },
        DriverEvent::Claimed { jobs } => if jobs == 0 {
            DriverStep::CountRemaining
        } else {
            DriverStep::Execute
        },
        DriverEvent::Remaining { jobs } => if jobs == 0 {
            DriverStep::Quiescent
        } else {
            DriverStep::Sleep
        },
    }
}

/// The accepted jobs are those of the submissions that got an identifier, in the order of the answers.
pub proof fn law_accepted_jobs_are_those_with_an_identifier(
    outcomes: Seq<SubmitOutcome>,
    next: SubmitOutcome,
)
    ensures
        accepted(outcomes) == outcomes.filter(|o: SubmitOutcome| o.id is Some).map_values(
            |o: SubmitOutcome| o.id->0,
        ),
        next.id is None ==> accepted(outcomes.push(next)) == accepted(outcomes),
        next.id matches Some(id) ==> accepted(outcomes.push(next)) == accepted(outcomes).push(id),
    decreases outcomes.len(),
{
    reveal(Seq::filter);
    let known = |o: SubmitOutcome| o.id is Some;
    let id_of = |o: SubmitOutcome| o.id->0;
    assert(outcomes.push(next).drop_last() =~= outcomes);
    if outcomes.len() > 0 {
        let rest = outcomes.drop_last();
        law_accepted_jobs_are_those_with_an_identifier(rest, next);
        if outcomes.last().id is Some {
            assert(rest.filter(known).push(outcomes.last()).map_values(id_of) =~= rest.filter(
                known,
            ).map_values(id_of).push(outcomes.last().id->0));
        }
    } else {
        assert(outcomes.filter(known).map_values(id_of) =~= seq![]);
    }
}

} // verus!
