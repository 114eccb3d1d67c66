//! The append-only audit trail of attempts.

use crate::db::jobs::JobStore;
use crate::db::model::{attempt_keys, AttemptRecord};
use crate::db::order::{is_order, ordered, places, rows_at, SortKey};
use crate::domain::AttemptOutcome;
use crate::text::{copy_text, opt_text};
use crate::time::Timestamp;
use vstd::prelude::*;

verus! {

/// A row of the `job_attempts` table.
#[derive(Debug)]
pub struct AttemptRow {
    pub id: u128,
    pub job_id: u128,
    pub attempt_number: i32,
    pub worker_id: String,
    pub lease_token: Option<u128>,
    pub started_at: Timestamp,
    pub finished_at: Option<Timestamp>,
    pub outcome: Option<String>,
    pub error_code: Option<String>,
    pub error_message: Option<String>,
    pub scheduled_delay_ms: Option<i64>,
    pub duration_ms: Option<i64>,
}

impl View for AttemptRow {
    type V = AttemptRecord;

    open spec fn view(&self) -> AttemptRecord {
        AttemptRecord {
            id: self.id,
            job_id: self.job_id,
            attempt_number: self.attempt_number,
            worker_id: self.worker_id@,
            lease_token: self.lease_token,
            started_at: self.started_at,
            finished_at: self.finished_at,
            outcome: opt_text(self.outcome),
            error_code: opt_text(self.error_code),
            error_message: opt_text(self.error_message),
            scheduled_delay_ms: self.scheduled_delay_ms,
            duration_ms: self.duration_ms,
        }
    }
}

/// What the rows of an attempt table hold.
pub open spec fn attempt_records(rows: Seq<AttemptRow>) -> Seq<AttemptRecord> {
    rows.map_values(|row: AttemptRow| row@)
}

impl Clone for AttemptRow {
    fn clone(&self) -> (row: Self)
        ensures
            row@ == self@,
    {
        AttemptRow {
            id: self.id,
            job_id: self.job_id,
            attempt_number: self.attempt_number,
            worker_id: self.worker_id.clone(),
            lease_token: self.lease_token,
            started_at: self.started_at,
            finished_at: self.finished_at,
            outcome: copy_text(&self.outcome),
            error_code: copy_text(&self.error_code),
            error_message: copy_text(&self.error_message),
            scheduled_delay_ms: self.scheduled_delay_ms,
            duration_ms: self.duration_ms,
        }
    }
}

impl AttemptRow {
    /// The attempt that begins when a job is claimed.
    pub fn started(
        id: u128,
        job_id: u128,
        attempt_number: i32,
        worker_id: &str,
        token: u128,
        now: Timestamp,
    ) -> (row: AttemptRow)
        ensures
            row@ == AttemptRecord::started(id, job_id, attempt_number, worker_id@, token, now),
    {
        AttemptRow {
            id,
            job_id,
            attempt_number,
            worker_id: worker_id.to_string(),
            lease_token: Some(token),
            started_at: now,
            finished_at: None,
            outcome: None,
            error_code: None,
            error_message: None,
            scheduled_delay_ms: None,
            duration_ms: None,
        }
    }

    /// Closes the attempt as one whose lease ran out.
    pub fn mark_lost(&mut self, now: Timestamp)
        ensures
            final(self)@ == old(self)@.lost(now),
    {
        self.outcome = Some(AttemptOutcome::LeaseLost.as_db_str().to_string());
        self.finished_at = Some(now);
    }
}

/// The attempts of a job, in the order of their numbers.
pub fn list_for_job(store: &JobStore, job_id: u128) -> (rows: Vec<AttemptRow>)
    ensures
        exists|order: Seq<int>| #[trigger]
            is_order(attempt_keys(store@.attempts, job_id), order) && attempt_records(rows@)
                == rows_at(store@.attempts, order),
{
    let mut keys: Vec<Option<SortKey>> = Vec::new();
    let mut i: usize = 0;
    while i < store.attempts.len()
        invariant
            i <= store.attempts.len(),
            keys@ == attempt_keys(store@.attempts, job_id).take(i as int),
        decreases store.attempts.len() - i,
    {
        let row = &store.attempts[i];
        assert(store@.attempts[i as int] == row@);
        let key = if row.job_id == job_id {
            Some(
                SortKey {
                    first: row.attempt_number as i64,
                    second: 0,
                    third: 0,
                    fourth: 0,
                    fifth: 0,
                },
            )
        } else {
            None
        };
        keys.push(key);
        assert(keys@ =~= attempt_keys(store@.attempts, job_id).take(i + 1));
        i = i + 1;
    }
    assert(keys@ =~= attempt_keys(store@.attempts, job_id));
    let order = ordered(&keys);
    let ghost at = places(order@);
    let mut rows: Vec<AttemptRow> = Vec::new();
    let mut k: usize = 0;
    while k < order.len()
        invariant
            k <= order.len(),
            at == places(order@),
            is_order(attempt_keys(store@.attempts, job_id), at),
            rows.len() == k,
            forall|p: int| 0 <= p < k ==> (#[trigger] rows@[p])@ == store@.attempts[at[p]],
        decreases order.len() - k,
    {
        assert(0 <= at[k as int] < store@.attempts.len());
        rows.push(store.attempts[order[k]].clone());
        k = k + 1;
    }
    assert(attempt_records(rows@) =~= rows_at(store@.attempts, at));
    rows
}

} // verus!
