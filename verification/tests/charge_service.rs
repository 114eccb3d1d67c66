//! The charge service: requests, injected failures, identifiers of requests.

use reliableq::config::{EnvValue, Environment};
use reliableq::db::charges::ChargeStore;
use reliableq::fake_charge::chaos::{
    set_control, test_control_enabled, ChaosDecision, ChaosMode, ChaosState, ControlRequest,
};
use reliableq::fake_charge::charges::{
    create_charge, idempotency_key, ChargeResponse, HeaderText,
};
use reliableq::fake_charge::correlation::request_id;
use reliableq::fake_charge::error::{handle_timeout_error, ApiError};
use reliableq::time::Timestamp;
use reliableq::validation::ChargePayload;
use uuid::Uuid;

const NOW: Timestamp = Timestamp {
    secs: 1_700_000_000,
    nanos: 0,
};

fn valid_payload() -> ChargePayload {
    ChargePayload {
        customer_id: "c1".to_string(),
        amount_cents: 500,
        currency: "INR".to_string(),
    }
}

fn post_charge(
    store: &mut ChargeStore,
    key: Option<&str>,
    payload: ChargePayload,
) -> Result<(u16, ChargeResponse), ApiError> {
    let header = match key {
        Some(key) => HeaderText::Text(key.to_string()),
        None => HeaderText::Absent,
    };
    create_charge(store, &header, Ok(payload), Uuid::new_v4().as_u128(), NOW)
}

#[test]
fn first_charge_returns_201() {
    let mut store = ChargeStore::new();
    let (status, body) = post_charge(&mut store, Some("key-1"), valid_payload()).unwrap();

    assert_eq!(status, 201);
    assert_eq!(body.customer_id, "c1");
    assert_eq!(body.amount_cents, 500);
    assert_eq!(body.currency, "INR");
    assert_eq!(body.idempotency_key, "key-1");
    assert!(!body.replayed);
    assert_eq!(body.id, store.rows[0].id);
    assert_eq!(body.created_at, NOW);
}

#[test]
fn missing_idempotency_key_is_rejected() {
    let mut store = ChargeStore::new();
    let err = post_charge(&mut store, None, valid_payload()).unwrap_err();

    assert_eq!(err.status, 400);
    assert_eq!(err.code, "INVALID_ARGUMENT");
    assert!(store.rows.is_empty());
}

#[test]
fn invalid_payload_is_rejected() {
    let mut store = ChargeStore::new();
    let mut payload = valid_payload();
    payload.amount_cents = -5;
    let err = post_charge(&mut store, Some("key-2"), payload).unwrap_err();

    assert_eq!(err.status, 400);
    assert_eq!(err.code, "INVALID_ARGUMENT");
}

#[test]
fn reused_idempotency_key_currently_errors_instead_of_replaying() {
    let mut store = ChargeStore::new();
    let (first_status, _) = post_charge(&mut store, Some("dup"), valid_payload()).unwrap();
    assert_eq!(first_status, 201);

    let second = post_charge(&mut store, Some("dup"), valid_payload()).unwrap_err();
    assert_eq!(second.status, 500);

    let count = store
        .rows
        .iter()
        .filter(|row| row.idempotency_key == "dup")
        .count();
    assert_eq!(
        count, 1,
        "the store caps it at one row even though the request failed"
    );
}

#[test]
fn keys_are_trimmed_and_must_be_text() {
    let text = |s: &str| idempotency_key(&HeaderText::Text(s.to_string()));
    assert_eq!(text("  a b ").unwrap(), "a b");
    assert_eq!(
        text(" \t").unwrap_err().message,
        "Idempotency-Key header must not be empty"
    );
    assert_eq!(
        idempotency_key(&HeaderText::Absent).unwrap_err().message,
        "Idempotency-Key header is required"
    );
    assert_eq!(
        idempotency_key(&HeaderText::Opaque).unwrap_err().message,
        "Idempotency-Key header must be valid UTF-8"
    );
}

#[test]
fn the_key_is_looked_at_before_the_payload() {
    let mut store = ChargeStore::new();
    let broken = || Err("missing field `currency`".to_string());
    let err = create_charge(&mut store, &HeaderText::Absent, broken(), 1, NOW).unwrap_err();
    assert_eq!(err.message, "Idempotency-Key header is required");
    let key = HeaderText::Text("k".to_string());
    let err = create_charge(&mut store, &key, broken(), 1, NOW).unwrap_err();
    assert_eq!(
        err.message,
        "payload does not match the expected charge shape: missing field `currency`"
    );
}

#[test]
fn exactly_as_many_requests_fail_as_were_asked_for() {
    let mut state = ChaosState::new();
    let request = ControlRequest::FailNext { n: 3, status: 503 };
    set_control(&mut state, request).unwrap();
    let decisions: Vec<ChaosDecision> = (0..5).map(|_| state.decide()).collect();
    assert_eq!(
        decisions,
        [
            ChaosDecision::Reject(503),
            ChaosDecision::Reject(503),
            ChaosDecision::Reject(503),
            ChaosDecision::Proceed,
            ChaosDecision::Proceed,
        ]
    );
    assert_eq!(state.mode, ChaosMode::Normal);
}

#[test]
fn modes_that_last() {
    let mut state = ChaosState::new();
    assert_eq!(state.decide(), ChaosDecision::Proceed);
    assert_eq!(state.delay_ms(), None);

    set_control(&mut state, ControlRequest::PermanentReject).unwrap();
    for _ in 0..3 {
        assert_eq!(state.decide(), ChaosDecision::Reject(422));
    }
    set_control(&mut state, ControlRequest::DelayMs { ms: 250 }).unwrap();
    for _ in 0..3 {
        assert_eq!(state.delay_ms(), Some(250));
        assert_eq!(state.decide(), ChaosDecision::Proceed);
    }
    set_control(&mut state, ControlRequest::Normal).unwrap();
    assert_eq!(state.delay_ms(), None);
}

#[test]
fn numbers_that_are_no_status_become_503() {
    for (status, answered) in [(99, 503), (100, 100), (999, 999), (1000, 503), (0, 503)] {
        let mut state = ChaosState::new();
        state.set(ChaosMode::FailNext {
            remaining: 1,
            status,
        });
        assert_eq!(state.decide(), ChaosDecision::Reject(answered));
    }
}

#[test]
fn a_request_for_no_failures_is_refused() {
    let mut state = ChaosState::new();
    state.set(ChaosMode::PermanentReject);
    let err = set_control(&mut state, ControlRequest::FailNext { n: 0, status: 500 }).unwrap_err();
    assert_eq!((err.status, err.code), (400, "INVALID_ARGUMENT"));
    assert_eq!(err.message, "n must be at least 1");
    assert_eq!(state.mode, ChaosMode::PermanentReject);
}

#[test]
fn the_peak_of_requests_in_progress() {
    let mut state = ChaosState::new();
    let a = state.track_inflight();
    let b = state.track_inflight();
    state.release(a);
    let c = state.track_inflight();
    assert_eq!(state.peak_inflight(), 2);
    state.release(b);
    state.release(c);
    assert_eq!(state.inflight, 0);
    assert_eq!(state.peak_inflight(), 2);
    state.reset_peak_inflight();
    assert_eq!(state.peak_inflight(), 0);
}

#[test]
fn test_control_has_to_be_switched_on() {
    let with = |value: EnvValue| {
        let mut env = Environment::new();
        env.set("FAKE_CHARGE_ENABLE_TEST_CONTROL", value);
        test_control_enabled(&env)
    };
    assert!(with(EnvValue::Text("true".to_string())));
    assert!(with(EnvValue::Text("1".to_string())));
    assert!(!with(EnvValue::Text("TRUE".to_string())));
    assert!(!with(EnvValue::Text("yes".to_string())));
    assert!(!with(EnvValue::NotUnicode));
    assert!(!with(EnvValue::Unset));
    assert!(!test_control_enabled(&Environment::new()));
}

#[test]
fn requests_keep_the_identifier_they_came_with() {
    assert_eq!(request_id(Some("abc".to_string()), 7), "abc");
    let fresh = "00000000-0000-0000-0000-000000000007";
    assert_eq!(request_id(Some(String::new()), 7), fresh);
    assert_eq!(request_id(None, 7), fresh);
}

#[test]
fn requests_that_were_cut_short() {
    let timeout = handle_timeout_error(true, "deadline".to_string());
    assert_eq!(
        (timeout.status, timeout.code, timeout.message.as_str()),
        (408, "TIMEOUT", "request timed out")
    );
    let other = handle_timeout_error(false, "broken pipe".to_string());
    assert_eq!(
        (other.status, other.code, other.message.as_str()),
        (500, "INTERNAL", "broken pipe")
    );
}
