//! Charges in the store.

use reliableq::db::charges::{
    find_by_idempotency_key, insert_charge, insert_or_get_charge, ChargeStore, InsertChargeOutcome,
};
use reliableq::db::jobs::RepoError;
use reliableq::idempotency::charge_idempotency_key;
use reliableq::time::Timestamp;
use uuid::Uuid;

const NOW: Timestamp = Timestamp {
    secs: 1_700_000_000,
    nanos: 0,
};

fn new_id() -> u128 {
    Uuid::new_v4().as_u128()
}

fn charge(store: &mut ChargeStore, id: u128, key: &str, cents: i64) -> InsertChargeOutcome {
    insert_or_get_charge(store, id, key, "c1", cents, "INR", NOW).expect("insert")
}

fn rows_under(store: &ChargeStore, key: &str) -> usize {
    store
        .rows
        .iter()
        .filter(|row| row.idempotency_key == key)
        .count()
}

#[test]
fn insert_and_find_round_trip() {
    let mut store = ChargeStore::new();
    let id = new_id();
    charge(&mut store, id, "key-1", 500);

    let found = find_by_idempotency_key(&store, "key-1").expect("charge exists");
    assert_eq!(found.id, id);
    assert_eq!(found.customer_id, "c1");
    assert_eq!(found.amount_cents, 500);
    assert_eq!(found.currency, "INR");
    assert_eq!(found.created_at, NOW);
}

#[test]
fn find_missing_key_returns_none() {
    let store = ChargeStore::new();
    assert!(find_by_idempotency_key(&store, "does-not-exist").is_none());
}

#[test]
fn first_insert_for_a_key_is_created() {
    let mut store = ChargeStore::new();
    let outcome = charge(&mut store, new_id(), "key-a", 500);
    assert!(matches!(outcome, InsertChargeOutcome::Created(_)));
}

#[test]
fn reusing_a_key_with_the_same_payload_replays() {
    let mut store = ChargeStore::new();
    let first_row = match charge(&mut store, new_id(), "dup-key", 500) {
        InsertChargeOutcome::Created(row) => row,
        other => panic!("expected Created, got {other:?}"),
    };

    let replayed_row = match charge(&mut store, new_id(), "dup-key", 500) {
        InsertChargeOutcome::Replayed(row) => row,
        other => panic!("expected Replayed, got {other:?}"),
    };
    assert_eq!(
        replayed_row.id, first_row.id,
        "a replay must return the original charge's id, not mint a new one"
    );
    assert_eq!(
        rows_under(&store, "dup-key"),
        1,
        "exactly one charge row must exist per idempotency key"
    );
}

#[test]
fn reusing_a_key_with_a_different_payload_is_a_conflict() {
    let mut store = ChargeStore::new();
    charge(&mut store, new_id(), "conflict-key", 500);

    let second = charge(&mut store, new_id(), "conflict-key", 999);
    assert!(matches!(second, InsertChargeOutcome::Conflict(_)));
    assert_eq!(
        rows_under(&store, "conflict-key"),
        1,
        "a conflicting request must not create a second row"
    );
}

#[test]
fn concurrent_inserts_with_the_same_key_produce_one_row() {
    let mut store = ChargeStore::new();
    let a = charge(&mut store, new_id(), "race-key", 500);
    let b = charge(&mut store, new_id(), "race-key", 500);

    let created_count = [&a, &b]
        .iter()
        .filter(|o| matches!(o, InsertChargeOutcome::Created(_)))
        .count();
    assert_eq!(
        created_count, 1,
        "exactly one of the two racing requests should create the row"
    );
    assert_eq!(rows_under(&store, "race-key"), 1);
}

#[test]
fn every_part_of_the_payload_counts_for_a_conflict() {
    let mut store = ChargeStore::new();
    charge(&mut store, 1, "k", 500);
    for (customer, cents, currency) in [("c2", 500, "INR"), ("c1", 501, "INR"), ("c1", 500, "USD")]
    {
        let outcome =
            insert_or_get_charge(&mut store, 2, "k", customer, cents, currency, NOW).unwrap();
        match outcome {
            InsertChargeOutcome::Conflict(row) => assert_eq!(row.id, 1),
            other => panic!("expected Conflict, got {other:?}"),
        }
    }
}

#[test]
fn plain_insertion_refuses_a_used_key_and_a_used_identifier() {
    let mut store = ChargeStore::new();
    insert_charge(&mut store, 1, "k", "c1", 500, "INR", NOW).unwrap();
    assert!(matches!(
        insert_charge(&mut store, 2, "k", "c1", 500, "INR", NOW),
        Err(RepoError::Database(_))
    ));
    assert!(matches!(
        insert_charge(&mut store, 1, "other", "c1", 500, "INR", NOW),
        Err(RepoError::Database(_))
    ));
    assert!(matches!(
        insert_or_get_charge(&mut store, 1, "other", "c1", 500, "INR", NOW),
        Err(RepoError::Database(_))
    ));
    assert_eq!(store.rows.len(), 1);
}

#[test]
fn repeated_executions_of_two_jobs_charge_each_of_them_once() {
    let mut store = ChargeStore::new();
    for job in [1u128, 2, 1, 1, 2] {
        charge(&mut store, new_id(), &charge_idempotency_key(job), 100 * job as i64);
    }
    assert_eq!(store.rows.len(), 2);
    for job in [1u128, 2] {
        let found = find_by_idempotency_key(&store, &charge_idempotency_key(job)).unwrap();
        assert_eq!(found.amount_cents, 100 * job as i64);
    }
}
