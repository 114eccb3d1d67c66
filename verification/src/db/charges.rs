//! The recorded charges, at most one for each idempotency key.

use crate::db::jobs::RepoError;
use crate::text::same_text;
use crate::time::Timestamp;
use vstd::prelude::*;

verus! {

/// What a row of the `charges` table holds.
#[verifier::ext_equal]
pub struct ChargeRecord {
    pub id: u128,
    pub idempotency_key: Seq<char>,
    pub customer_id: Seq<char>,
    pub amount_cents: i64,
    pub currency: Seq<char>,
    pub created_at: Timestamp,
}

/// A row of the `charges` table.
#[derive(Debug)]
pub struct ChargeRow {
    pub id: u128,
    pub idempotency_key: String,
    pub customer_id: String,
    pub amount_cents: i64,
    pub currency: String,
    pub created_at: Timestamp,
}

impl View for ChargeRow {
    type V = ChargeRecord;

    open spec fn view(&self) -> ChargeRecord {
        ChargeRecord {
            id: self.id,
            idempotency_key: self.idempotency_key@,
            customer_id: self.customer_id@,
            amount_cents: self.amount_cents,
            currency: self.currency@,
            created_at: self.created_at,
        }
    }
}

impl Clone for ChargeRow {
    fn clone(&self) -> (row: Self)
        ensures
            row@ == self@,
    {
        ChargeRow {
            id: self.id,
            idempotency_key: self.idempotency_key.clone(),
            customer_id: self.customer_id.clone(),
            amount_cents: self.amount_cents,
            currency: self.currency.clone(),
            created_at: self.created_at,
        }
    }
}

impl ChargeRecord {
    /// Both records charge the same customer the same amount.
    pub open spec fn same_charge(self, other: ChargeRecord) -> bool {
        &&& self.customer_id == other.customer_id
        &&& self.amount_cents == other.amount_cents
        &&& self.currency == other.currency
    }
}

/// The charge recorded under a key.
pub open spec fn charge_for(charges: Seq<ChargeRecord>, key: Seq<char>) -> Option<ChargeRecord>
    decreases charges.len(),
{
    if charges.len() == 0 {
        None
    } else if charges.first().idempotency_key == key {
        Some(charges.first())
    } else {
        charge_for(charges.drop_first(), key)
    }
}

pub open spec fn has_charge(charges: Seq<ChargeRecord>, id: u128) -> bool {
    exists|i: int| 0 <= i < charges.len() && (#[trigger] charges[i]).id == id
}

/// Rows of the `charges` table.
#[derive(Debug)]
pub struct ChargeStore {
    pub rows: Vec<ChargeRow>,
}

impl View for ChargeStore {
    type V = Seq<ChargeRecord>;

    open spec fn view(&self) -> Seq<ChargeRecord> {
        self.rows@.map_values(|row: ChargeRow| row@)
    }
}

impl ChargeStore {
    /// A store without rows.
    pub fn new() -> (store: ChargeStore)
        ensures
            store@ == Seq::<ChargeRecord>::empty(),
    {
        let store = ChargeStore { rows: Vec::new() };
        assert(store@ =~= Seq::<ChargeRecord>::empty());
        store
    }

    fn has_id(&self, id: u128) -> (r: bool)
        ensures
            r == has_charge(self@, id),
    {
        let mut i: usize = 0;
        while i < self.rows.len()
            invariant
                i <= self.rows.len(),
                forall|k: int| 0 <= k < i ==> (#[trigger] self@[k]).id != id,
            decreases self.rows.len() - i,
        {
            assert(self@[i as int] == self.rows@[i as int]@);
            if self.rows[i].id == id {
                return true;
            }
            i = i + 1;
        }
        false
    }
}

/// Records a charge. Refuses a key, or an identifier, that is already taken.
pub fn insert_charge(
    store: &mut ChargeStore,
    id: u128,
    idempotency_key: &str,
    customer_id: &str,
    amount_cents: i64,
    currency: &str,
    now: Timestamp,
) -> (r: Result<ChargeRow, RepoError>)
    ensures
        match r {
            Ok(row) => {
                &&& charge_for(old(store)@, idempotency_key@) is None
                &&& !has_charge(old(store)@, id)
                &&& row@ == (ChargeRecord {
                    id,
                    idempotency_key: idempotency_key@,
                    customer_id: customer_id@,
                    amount_cents,
                    currency: currency@,
                    created_at: now,
                })
                &&& final(store)@ == old(store)@.push(row@)
            },
            Err(e) => {
                &&& e is Database
                &&& charge_for(old(store)@, idempotency_key@) is Some || has_charge(old(store)@, id)
                &&& *final(store) == *old(store)
            },
        },
{
    if store.has_id(id) || find_by_idempotency_key(store, idempotency_key).is_some() {
        return Err(
            RepoError::Database("duplicate key value violates unique constraint".to_string()),
        );
    }
    let row = ChargeRow {
        id,
        idempotency_key: idempotency_key.to_string(),
        customer_id: customer_id.to_string(),
        amount_cents,
        currency: currency.to_string(),
        created_at: now,
    };
    let copy = row.clone();
    store.rows.push(row);
    assert(store@ =~= old(store)@.push(copy@));
    Ok(copy)
}

/// Looks a charge up by its key.
pub fn find_by_idempotency_key(store: &ChargeStore, idempotency_key: &str) -> (r: Option<ChargeRow>)
    ensures
        match r {
            Some(row) => charge_for(store@, idempotency_key@) == Some(row@),
            None => charge_for(store@, idempotency_key@) is None,
        },
{
    let mut i: usize = 0;
    assert(store@.skip(0) =~= store@);
    while i < store.rows.len()
        invariant
            i <= store.rows.len(),
            charge_for(store@, idempotency_key@) == charge_for(
                store@.skip(i as int),
                idempotency_key@,
            ),
        decreases store.rows.len() - i,
    {
        assert(store@.skip(i as int).first() == store.rows@[i as int]@);
        if same_text(&store.rows[i].idempotency_key, idempotency_key) {
            return Some(store.rows[i].clone());
        }
        assert(store@.skip(i as int).drop_first() =~= store@.skip(i + 1));
        i = i + 1;
    }
    None
}

/// What became of a request to charge under an idempotency key.
#[derive(Debug)]
pub enum InsertChargeOutcome {
    /// The charge is new.
    Created(ChargeRow),
    /// The same charge had been made under that key; here it is.
    Replayed(ChargeRow),
    /// A different charge had been made under that key; here it is.
    Conflict(ChargeRow),
}

/// The charges after a request to charge: a key that is in use adds nothing.
pub open spec fn after_charge(charges: Seq<ChargeRecord>, new: ChargeRecord) -> Seq<ChargeRecord> {
    if charge_for(charges, new.idempotency_key) is Some {
        charges
    } else {
        charges.push(new)
    }
}

/// Charges under a key, or finds the charge that was made under it. Refuses an identifier that is
/// already taken by a charge under another key.
pub fn insert_or_get_charge(
    store: &mut ChargeStore,
    id: u128,
    idempotency_key: &str,
    customer_id: &str,
    amount_cents: i64,
    currency: &str,
    now: Timestamp,
) -> (r: Result<InsertChargeOutcome, RepoError>)
    ensures
        ({
            let new = ChargeRecord {
                id,
                idempotency_key: idempotency_key@,
                customer_id: customer_id@,
                amount_cents,
                currency: currency@,
                created_at: now,
            };
            let present = charge_for(old(store)@, idempotency_key@);
            match r {
                Ok(outcome) => {
                    &&& final(store)@ == after_charge(old(store)@, new)
                    &&& match outcome {
                        InsertChargeOutcome::Created(row) => present is None && !has_charge(
                            old(store)@,
                            id,
                        ) && row@ == new,
                        InsertChargeOutcome::Replayed(row) => present == Some(row@)
                            && row@.same_charge(new),
                        InsertChargeOutcome::Conflict(row) => present == Some(row@)
                            && !row@.same_charge(new),
                    }
                },
                Err(e) => {
                    &&& e is Database
                    &&& present is None
                    &&& has_charge(old(store)@, id)
                    &&& *final(store) == *old(store)
                },
            }
        }),
{
    match find_by_idempotency_key(store, idempotency_key) {
        Some(row) => {
            let same = same_text(&row.customer_id, customer_id) && row.amount_cents == amount_cents
                && same_text(&row.currency, currency);
            if same {
                Ok(InsertChargeOutcome::Replayed(row))
            } else {
                Ok(InsertChargeOutcome::Conflict(row))
            }
        },
        None => match insert_charge(
            store,
            id,
            idempotency_key,
            customer_id,
            amount_cents,
            currency,
            now,
        ) {
            Ok(row) => Ok(InsertChargeOutcome::Created(row)),
            Err(e) => Err(e),
        },
    }
}

/// No key occurs twice.
pub open spec fn keys_distinct(charges: Seq<ChargeRecord>) -> bool {
    forall|i: int, k: int|
        0 <= i < k < charges.len() ==> (#[trigger] charges[i]).idempotency_key != (
        #[trigger] charges[k]).idempotency_key
}

proof fn lemma_charge_for(charges: Seq<ChargeRecord>, key: Seq<char>)
    ensures
        charge_for(charges, key) is None <==> forall|i: int|
            0 <= i < charges.len() ==> (#[trigger] charges[i]).idempotency_key != key,
        charge_for(charges, key) matches Some(found) ==> found.idempotency_key == key,
    decreases charges.len(),
{
    if charges.len() > 0 {
        let rest = charges.drop_first();
        lemma_charge_for(rest, key);
        assert forall|i: int| 0 < i < charges.len() implies #[trigger] charges[i] == rest[i - 1] by {}
        if charges.first().idempotency_key == key {
            assert(charges[0].idempotency_key == key);
        } else if charge_for(rest, key) is Some {
            let i = choose|i: int|
                0 <= i < rest.len() && (#[trigger] rest[i]).idempotency_key == key;
            assert(charges[i + 1].idempotency_key == key);
        }
    }
}

proof fn lemma_charge_for_pushed(charges: Seq<ChargeRecord>, new: ChargeRecord)
    requires
        charge_for(charges, new.idempotency_key) is None,
    ensures
        charge_for(charges.push(new), new.idempotency_key) == Some(new),
    decreases charges.len(),
{
    if charges.len() == 0 {
        assert(charges.push(new).first() == new);
    } else {
        lemma_charge_for_pushed(charges.drop_first(), new);
        assert(charges.push(new).drop_first() =~= charges.drop_first().push(new));
    }
}

/// There is never more than one charge under a key.
pub proof fn law_one_charge_per_key(charges: Seq<ChargeRecord>, new: ChargeRecord)
    requires
        keys_distinct(charges),
    ensures
        keys_distinct(after_charge(charges, new)),
{
    lemma_charge_for(charges, new.idempotency_key);
}

/// Asking again under the same key charges nothing and finds the charge that was made first.
pub proof fn law_repeated_requests_charge_once(
    charges: Seq<ChargeRecord>,
    first: ChargeRecord,
    again: ChargeRecord,
)
    requires
        first.idempotency_key == again.idempotency_key,
    ensures
        after_charge(after_charge(charges, first), again) == after_charge(charges, first),
        charge_for(charges, first.idempotency_key) is None ==> charge_for(
            after_charge(charges, first),
            again.idempotency_key,
        ) == Some(first),
        charge_for(charges, first.idempotency_key) is Some ==> charge_for(
            after_charge(charges, first),
            again.idempotency_key,
        ) == charge_for(charges, first.idempotency_key),
{
    if charge_for(charges, first.idempotency_key) is None {
        lemma_charge_for_pushed(charges, first);
    }
}

/// The charges after a series of requests to charge.
pub open spec fn after_charges(
    charges: Seq<ChargeRecord>,
    requests: Seq<ChargeRecord>,
) -> Seq<ChargeRecord>
    decreases requests.len(),
{
    if requests.len() == 0 {
        charges
    } else {
        after_charge(after_charges(charges, requests.drop_last()), requests.last())
    }
}

/// However often jobs are executed, and in whatever order their requests arrive: there is one charge
/// under the key of every request, and never a second one.
pub proof fn law_repeated_executions_charge_once(
    charges: Seq<ChargeRecord>,
    requests: Seq<ChargeRecord>,
)
    requires
        keys_distinct(charges),
    ensures
        keys_distinct(after_charges(charges, requests)),
        forall|i: int|
            0 <= i < requests.len() ==> charge_for(
                after_charges(charges, requests),
                (#[trigger] requests[i]).idempotency_key,
            ) is Some,
    decreases requests.len(),
{
    if requests.len() > 0 {
        let rest = requests.drop_last();
        let before = after_charges(charges, rest);
        let new = requests.last();
        law_repeated_executions_charge_once(charges, rest);
        law_one_charge_per_key(before, new);
        assert forall|i: int| 0 <= i < requests.len() implies charge_for(
            after_charge(before, new),
            (#[trigger] requests[i]).idempotency_key,
        ) is Some by {
            let key = requests[i].idempotency_key;
            lemma_charge_for(after_charge(before, new), key);
            if i < rest.len() {
                assert(rest[i] == requests[i]);
                lemma_charge_for(before, key);
                let n = choose|n: int|
                    0 <= n < before.len() && (#[trigger] before[n]).idempotency_key == key;
                assert(after_charge(before, new)[n] == before[n]);
            } else if charge_for(before, new.idempotency_key) is None {
                lemma_charge_for_pushed(before, new);
            }
        }
    }
}

/// A charge is found under a key if and only if one was recorded under it, and it is the first one.
pub proof fn law_charges_are_found_under_their_key(charges: Seq<ChargeRecord>, key: Seq<char>, i: int)
    requires
        0 <= i < charges.len(),
        charges[i].idempotency_key == key,
        forall|k: int| 0 <= k < i ==> (#[trigger] charges[k]).idempotency_key != key,
    ensures
        charge_for(charges, key) == Some(charges[i]),
        has_charge(charges, charges[i].id),
    decreases charges.len(),
{
    if i > 0 {
        assert(charges[0].idempotency_key != key);
        let rest = charges.drop_first();
        assert forall|k: int| 0 <= k < i - 1 implies (#[trigger] rest[k]).idempotency_key != key by {
            assert(charges[k + 1].idempotency_key != key);
        }
        law_charges_are_found_under_their_key(rest, key, i - 1);
    }
}

/// Under a key that is not in use nothing is found, and a request records exactly the charge that it
/// asks for, after those that were recorded before. Under a key that is in use it records nothing.
pub proof fn law_requests_record_what_they_ask_for(
    charges: Seq<ChargeRecord>,
    new: ChargeRecord,
    i: int,
)
    ensures
        (forall|k: int|
            0 <= k < charges.len() ==> (#[trigger] charges[k]).idempotency_key
                != new.idempotency_key) ==> {
            &&& charge_for(charges, new.idempotency_key) is None
            &&& after_charge(charges, new) == charges.push(new)
        },
        0 <= i < charges.len() && charges[i].idempotency_key == new.idempotency_key
            ==> after_charge(charges, new) == charges,
{
    lemma_charge_for(charges, new.idempotency_key);
}

/// Two requests under one key agree if and only if they charge the same customer the same amount in the
/// same currency.
pub proof fn law_same_charges_agree(a: ChargeRecord, b: ChargeRecord)
    ensures
        a.same_charge(b) <==> a.customer_id == b.customer_id && a.amount_cents == b.amount_cents
            && a.currency == b.currency,
{
}

/// A record of a charge says what the row holds.
pub proof fn law_charge_records_say_what_the_rows_hold(store: ChargeStore, i: int)
    requires
        0 <= i < store.rows.len(),
    ensures
        store@.len() == store.rows.len(),
        ({
            let row = store.rows@[i];
            let record = store@[i];
            &&& record.id == row.id && record.idempotency_key == row.idempotency_key@
            &&& record.customer_id == row.customer_id@ && record.amount_cents == row.amount_cents
            &&& record.currency == row.currency@ && record.created_at == row.created_at
        }),
{
}

} // verus!
