//! Statuses, failure classes, retry delays, validation, keys and fingerprints.

use rand::rngs::StdRng;
use rand::SeedableRng;
use reliableq::domain::{AttemptOutcome, JobStatus};
use reliableq::failure::{classify_http_status, classify_network_error, FailureClass};
use reliableq::idempotency::charge_idempotency_key;
use reliableq::redact::{encode, lease_token_hash};
use reliableq::retry::{saturating_pow, RetryPolicy};
use reliableq::text;
use reliableq::time::{Duration, Timestamp};
use reliableq::validation::{
    parse_charge_payload, validate_charge_payload, validate_kind, validate_max_attempts,
    ChargePayload, ValidationError, MAX_CUSTOMER_ID_LEN, MAX_KIND_LEN, MAX_MAX_ATTEMPTS,
};
use reliableq::worker::{error_code, settle, ChargeAnswer, Settlement};
use serde_json::Value;
use uuid::Uuid;

// --- statuses ---

#[test]
fn job_status_round_trips_through_db_string() {
    for status in [
        JobStatus::Pending,
        JobStatus::Running,
        JobStatus::Succeeded,
        JobStatus::Dead,
    ] {
        assert_eq!(JobStatus::parse_db_str(status.as_db_str()), Some(status));
    }
}

#[test]
fn job_status_rejects_unknown_string() {
    assert_eq!(JobStatus::parse_db_str("BOGUS"), None);
}

#[test]
fn only_succeeded_and_dead_are_terminal() {
    assert!(!JobStatus::Pending.is_terminal());
    assert!(!JobStatus::Running.is_terminal());
    assert!(JobStatus::Succeeded.is_terminal());
    assert!(JobStatus::Dead.is_terminal());
}

#[test]
fn status_and_outcome_texts() {
    assert_eq!(JobStatus::Pending.to_string(), "PENDING");
    assert_eq!(JobStatus::Running.to_string(), "RUNNING");
    assert_eq!(JobStatus::Succeeded.to_string(), "SUCCEEDED");
    assert_eq!(JobStatus::Dead.to_string(), "DEAD");
    assert_eq!(AttemptOutcome::Succeeded.as_db_str(), "SUCCEEDED");
    assert_eq!(AttemptOutcome::RetryScheduled.as_db_str(), "RETRY_SCHEDULED");
    assert_eq!(AttemptOutcome::Dead.as_db_str(), "DEAD");
    assert_eq!(AttemptOutcome::LeaseLost.as_db_str(), "LEASE_LOST");
    assert_eq!(JobStatus::parse_db_str("pending"), None);
    assert_eq!(JobStatus::parse_db_str(""), None);
}

// --- failure classes ---

#[test]
fn rate_limit_and_timeout_status_are_transient() {
    assert_eq!(classify_http_status(408), FailureClass::Transient);
    assert_eq!(classify_http_status(429), FailureClass::Transient);
}

#[test]
fn server_errors_are_transient() {
    for status in [500, 502, 503, 504, 599] {
        assert_eq!(classify_http_status(status), FailureClass::Transient);
    }
}

#[test]
fn business_rejection_is_permanent() {
    assert_eq!(classify_http_status(422), FailureClass::Permanent);
    assert_eq!(classify_http_status(400), FailureClass::Permanent);
    assert_eq!(classify_http_status(404), FailureClass::Permanent);
}

#[test]
fn network_error_is_ambiguous() {
    assert_eq!(classify_network_error(), FailureClass::Ambiguous);
}

#[test]
fn transient_and_ambiguous_are_retryable_permanent_is_not() {
    assert!(FailureClass::Transient.is_retryable());
    assert!(FailureClass::Ambiguous.is_retryable());
    assert!(!FailureClass::Permanent.is_retryable());
}

#[test]
fn answers_are_settled_by_class_and_budget() {
    assert_eq!(settle(ChargeAnswer::Status(201), 1, 5), Settlement::Succeed);
    assert_eq!(settle(ChargeAnswer::Status(200), 5, 5), Settlement::Succeed);
    assert_eq!(
        settle(ChargeAnswer::Status(503), 1, 5),
        Settlement::Retry(FailureClass::Transient)
    );
    assert_eq!(
        settle(ChargeAnswer::Status(503), 5, 5),
        Settlement::GiveUp(FailureClass::Transient)
    );
    assert_eq!(
        settle(ChargeAnswer::Status(422), 1, 5),
        Settlement::GiveUp(FailureClass::Permanent)
    );
    assert_eq!(
        settle(ChargeAnswer::Nothing, 1, 5),
        Settlement::Retry(FailureClass::Ambiguous)
    );
    assert_eq!(error_code(FailureClass::Transient), "TRANSIENT");
    assert_eq!(error_code(FailureClass::Permanent), "PERMANENT");
    assert_eq!(error_code(FailureClass::Ambiguous), "AMBIGUOUS");
}

// --- retry delays ---

#[test]
fn cap_grows_exponentially_then_saturates_at_max_delay() {
    let policy = RetryPolicy {
        base_delay: Duration::from_secs(1),
        multiplier: 2,
        max_delay: Duration::from_secs(60),
    };
    assert_eq!(policy.cap(1), Duration::from_secs(1));
    assert_eq!(policy.cap(2), Duration::from_secs(2));
    assert_eq!(policy.cap(3), Duration::from_secs(4));
    assert_eq!(policy.cap(4), Duration::from_secs(8));
    assert_eq!(policy.cap(5), Duration::from_secs(16));
    assert_eq!(policy.cap(6), Duration::from_secs(32));
    assert_eq!(
        policy.cap(7),
        Duration::from_secs(60),
        "capped at max_delay"
    );
    assert_eq!(policy.cap(20), Duration::from_secs(60), "stays capped");
}

#[test]
fn cap_never_overflows_for_extreme_configuration() {
    let policy = RetryPolicy {
        base_delay: Duration::from_secs(3600),
        multiplier: 1000,
        max_delay: Duration::from_secs(60),
    };
    // Should saturate to max_delay, not panic or wrap.
    assert_eq!(policy.cap(50), Duration::from_secs(60));
}

#[test]
fn cap_handles_attempt_number_one_as_base_delay() {
    let policy = RetryPolicy::default_policy();
    assert_eq!(policy.cap(1), policy.base_delay);
}

#[test]
fn delay_is_within_zero_to_cap_bounds() {
    let policy = RetryPolicy::default_policy();
    let mut rng = StdRng::seed_from_u64(42);
    for attempt in 1..=10 {
        let cap = policy.cap(attempt);
        for _ in 0..50 {
            let delay = policy.delay(attempt, &mut rng);
            assert!(delay <= cap, "delay {delay:?} exceeded cap {cap:?}");
        }
    }
}

#[test]
fn delay_is_deterministic_given_the_same_seed() {
    let policy = RetryPolicy::default_policy();
    let mut rng_a = StdRng::seed_from_u64(7);
    let mut rng_b = StdRng::seed_from_u64(7);
    let sequence_a: Vec<Duration> = (1..=5).map(|n| policy.delay(n, &mut rng_a)).collect();
    let sequence_b: Vec<Duration> = (1..=5).map(|n| policy.delay(n, &mut rng_b)).collect();
    assert_eq!(sequence_a, sequence_b);
}

#[test]
fn delay_covers_a_spread_of_values_not_a_single_point() {
    let policy = RetryPolicy {
        base_delay: Duration::from_secs(10),
        multiplier: 2,
        max_delay: Duration::from_secs(600),
    };
    let mut rng = StdRng::seed_from_u64(99);
    let samples: Vec<Duration> = (0..200).map(|_| policy.delay(3, &mut rng)).collect();
    let min = samples.iter().min().unwrap();
    let max = samples.iter().max().unwrap();
    assert!(
        max.as_millis() - min.as_millis() > 1000,
        "200 samples of full jitter should spread out meaningfully, got min={min:?} max={max:?}"
    );
}

#[test]
fn default_policy_and_its_edges() {
    let policy = RetryPolicy::default_policy();
    assert_eq!(policy.base_delay, Duration::from_secs(1));
    assert_eq!(policy.multiplier, 2);
    assert_eq!(policy.max_delay, Duration::from_secs(60));
    // Attempt zero counts like the first one.
    assert_eq!(policy.cap(0), Duration::from_secs(1));
    assert_eq!(policy.jitter_bound(1), Some(1000));
    assert_eq!(RetryPolicy::delay_of_jitter(Some(250)), Duration::from_millis(250));
    assert_eq!(RetryPolicy::delay_of_jitter(None), Duration::zero());

    let still = RetryPolicy {
        base_delay: Duration::zero(),
        multiplier: 2,
        max_delay: Duration::from_secs(60),
    };
    assert_eq!(still.cap(9), Duration::zero());
    let mut rng = StdRng::seed_from_u64(1);
    assert_eq!(still.delay(9, &mut rng), Duration::zero());
    // Nothing is drawn for a delay that can only be zero.
    assert_eq!(rng, StdRng::seed_from_u64(1));
    policy.delay(9, &mut rng);
    assert_ne!(rng, StdRng::seed_from_u64(1));
}

#[test]
fn powers_saturate() {
    assert_eq!(saturating_pow(2, 10), 1024);
    assert_eq!(saturating_pow(0, 0), 1);
    assert_eq!(saturating_pow(1, u32::MAX), 1);
    assert_eq!(saturating_pow(0, u32::MAX), 0);
    assert_eq!(saturating_pow(3, 40), u32::MAX);
}

// --- validation ---

fn decode(payload: &Value) -> Result<ChargePayload, String> {
    let text_field = |name: &str| match payload.get(name) {
        Some(Value::String(s)) => Ok(s.clone()),
        Some(other) => Err(format!("invalid type: {other}, expected a string")),
        None => Err(format!("missing field `{name}`")),
    };
    let customer_id = text_field("customer_id")?;
    let amount_cents = match payload.get("amount_cents") {
        Some(n) => n
            .as_i64()
            .ok_or_else(|| format!("invalid type: {n}, expected i64"))?,
        None => return Err("missing field `amount_cents`".to_string()),
    };
    let currency = text_field("currency")?;
    Ok(ChargePayload {
        customer_id,
        amount_cents,
        currency,
    })
}

fn parse(json: &str) -> Result<ChargePayload, ValidationError> {
    let payload: Value = serde_json::from_str(json).expect("json");
    parse_charge_payload(decode(&payload))
}

#[test]
fn valid_kind_passes() {
    assert!(validate_kind("charge").is_ok());
}

#[test]
fn empty_kind_rejected() {
    assert_eq!(validate_kind("  "), Err(ValidationError::EmptyKind));
}

#[test]
fn overlong_kind_rejected() {
    let kind = "x".repeat(MAX_KIND_LEN + 1);
    assert_eq!(validate_kind(&kind), Err(ValidationError::KindTooLong));
}

#[test]
fn max_attempts_bounds() {
    assert!(validate_max_attempts(1).is_ok());
    assert!(validate_max_attempts(MAX_MAX_ATTEMPTS).is_ok());
    assert_eq!(
        validate_max_attempts(0),
        Err(ValidationError::MaxAttemptsOutOfRange)
    );
    assert_eq!(
        validate_max_attempts(MAX_MAX_ATTEMPTS + 1),
        Err(ValidationError::MaxAttemptsOutOfRange)
    );
}

#[test]
fn valid_charge_payload_parses() {
    let parsed = parse(r#"{"customer_id": "c123", "amount_cents": 5000, "currency": "INR"}"#)
        .unwrap();
    assert_eq!(parsed.customer_id, "c123");
    assert_eq!(parsed.amount_cents, 5000);
    assert_eq!(parsed.currency, "INR");
}

#[test]
fn non_positive_amount_rejected() {
    assert_eq!(
        parse(r#"{"customer_id": "c123", "amount_cents": 0, "currency": "INR"}"#),
        Err(ValidationError::NonPositiveAmount)
    );
}

#[test]
fn lowercase_currency_rejected() {
    assert_eq!(
        parse(r#"{"customer_id": "c123", "amount_cents": 100, "currency": "inr"}"#),
        Err(ValidationError::InvalidCurrency)
    );
}

#[test]
fn two_letter_currency_rejected() {
    assert_eq!(
        parse(r#"{"customer_id": "c123", "amount_cents": 100, "currency": "IN"}"#),
        Err(ValidationError::InvalidCurrency)
    );
}

#[test]
fn empty_customer_id_rejected() {
    assert_eq!(
        parse(r#"{"customer_id": "", "amount_cents": 100, "currency": "INR"}"#),
        Err(ValidationError::EmptyCustomerId)
    );
}

#[test]
fn missing_field_rejected_as_invalid_shape() {
    assert!(matches!(
        parse(r#"{"customer_id": "c123"}"#),
        Err(ValidationError::InvalidPayloadShape(_))
    ));
}

#[test]
fn lengths_are_counted_in_characters() {
    // However many bytes a character takes.
    for letter in ["k", "é", "\u{10FFFF}"] {
        assert!(validate_kind(&letter.repeat(40)).is_ok());
        assert!(validate_kind(&letter.repeat(MAX_KIND_LEN)).is_ok());
        assert_eq!(
            validate_kind(&letter.repeat(MAX_KIND_LEN + 1)),
            Err(ValidationError::KindTooLong)
        );
    }
    let payload = |customer_id: String| ChargePayload {
        customer_id,
        amount_cents: 1,
        currency: "USD".to_string(),
    };
    for letter in ["c", "é", "\u{10FFFF}"] {
        assert!(validate_charge_payload(&payload(letter.repeat(MAX_CUSTOMER_ID_LEN))).is_ok());
        assert_eq!(
            validate_charge_payload(&payload(letter.repeat(MAX_CUSTOMER_ID_LEN + 1))),
            Err(ValidationError::CustomerIdTooLong)
        );
    }
}

#[test]
fn three_letters_that_are_not_ascii_are_no_currency() {
    let payload = ChargePayload {
        customer_id: "c".to_string(),
        amount_cents: 1,
        currency: "ÉUR".to_string(),
    };
    assert_eq!(
        validate_charge_payload(&payload),
        Err(ValidationError::InvalidCurrency)
    );
}

#[test]
fn an_accepted_payload_is_accepted_again_unchanged() {
    let payload = || ChargePayload {
        customer_id: "c1".to_string(),
        amount_cents: 500,
        currency: "INR".to_string(),
    };
    let once = parse_charge_payload(Ok(payload())).unwrap();
    assert_eq!(parse_charge_payload(Ok(once)), Ok(payload()));
}

#[test]
fn validation_errors_in_words() {
    assert_eq!(ValidationError::EmptyKind.message(), "kind must not be empty");
    assert_eq!(
        ValidationError::KindTooLong.message(),
        "kind must be at most 64 characters"
    );
    assert_eq!(
        ValidationError::InvalidPayloadShape("why".to_string()).message(),
        "payload does not match the expected charge shape: why"
    );
    assert_eq!(
        ValidationError::EmptyCustomerId.message(),
        "payload.customer_id must not be empty"
    );
    assert_eq!(
        ValidationError::CustomerIdTooLong.message(),
        "payload.customer_id must be at most 128 characters"
    );
    assert_eq!(
        ValidationError::NonPositiveAmount.message(),
        "payload.amount_cents must be positive"
    );
    assert_eq!(
        ValidationError::InvalidCurrency.message(),
        "payload.currency must be a three-letter uppercase ISO 4217 code"
    );
    assert_eq!(
        ValidationError::MaxAttemptsOutOfRange.message(),
        "max_attempts must be between 1 and 20"
    );
}

// --- keys and fingerprints ---

#[test]
fn key_is_deterministic_for_the_same_job_id() {
    let id = Uuid::new_v4().as_u128();
    assert_eq!(charge_idempotency_key(id), charge_idempotency_key(id));
}

#[test]
fn key_differs_across_job_ids() {
    assert_ne!(
        charge_idempotency_key(Uuid::new_v4().as_u128()),
        charge_idempotency_key(Uuid::new_v4().as_u128())
    );
}

#[test]
fn key_has_the_documented_shape() {
    let id = Uuid::new_v4();
    assert_eq!(
        charge_idempotency_key(id.as_u128()),
        format!("reliableq:charge:{id}")
    );
    assert_eq!(
        charge_idempotency_key(0x0123_4567_89ab_cdef_0123_4567_89ab_cdef),
        "reliableq:charge:01234567-89ab-cdef-0123-456789abcdef"
    );
}

#[test]
fn lease_token_hash_is_deterministic_and_short() {
    let token = Uuid::new_v4().as_u128();
    let a = lease_token_hash(token);
    let b = lease_token_hash(token);
    assert_eq!(a, b);
    assert_eq!(a.len(), 12);
}

#[test]
fn lease_token_hash_differs_across_tokens() {
    assert_ne!(
        lease_token_hash(Uuid::new_v4().as_u128()),
        lease_token_hash(Uuid::new_v4().as_u128())
    );
}

#[test]
fn lease_token_hash_never_contains_the_original_uuid_text() {
    let token = Uuid::new_v4();
    let hash = lease_token_hash(token.as_u128());
    assert!(!hash.contains(&token.to_string()));
}

#[test]
fn lease_token_hash_is_the_start_of_the_sha256_digest() {
    // SHA-256 of sixteen zero bytes begins with 374708fff771.
    assert_eq!(lease_token_hash(0), "374708fff771");
}

#[test]
fn bytes_in_hexadecimal() {
    assert_eq!(encode(&[]), "");
    assert_eq!(encode(&[0x00, 0x0f, 0xa0, 0xff]), "000fa0ff");
}

// --- text and time ---

#[test]
fn numbers_are_read_as_the_standard_library_reads_them() {
    for s in [
        "0", "7", "+7", "007", "", "+", "-1", "-0", "1 ", "18446744073709551615",
        "18446744073709551616", "12a", "４",
    ] {
        assert_eq!(text::parse_unsigned(s, u64::MAX), s.parse::<u64>().ok(), "{s:?}");
    }
    assert_eq!(text::parse_unsigned("256", 255), None);
    assert_eq!(text::parse_unsigned("255", 255), Some(255));
}

#[test]
fn decimal_texts_are_read_back() {
    for n in [0, 9, 10, 1234, u64::MAX] {
        let s = text::decimal_text(n);
        assert_eq!(s, n.to_string());
        assert_eq!(text::parse_unsigned(&s, u64::MAX), Some(n));
        assert_eq!(text::trim(&s), s);
    }
    for n in [0, -1, i64::MIN, i64::MAX] {
        assert_eq!(text::signed_text(n), n.to_string());
    }
}

#[test]
fn white_space_is_what_the_standard_library_calls_so() {
    for code in 0..0x3100u32 {
        if let Some(c) = char::from_u32(code) {
            assert_eq!(text::is_white_space(c), c.is_whitespace(), "{code:x}");
        }
    }
    for s in ["", "  ", " a ", "\t a b \n", "\u{3000}x\u{85}", "abc"] {
        assert_eq!(text::trim(s), s.trim());
        assert_eq!(text::is_blank(s), s.trim().is_empty());
    }
}

#[test]
fn letter_case_and_comparison() {
    assert_eq!(text::to_ascii_lowercase("JsOn É"), "json É");
    assert!(text::same_text("abc", "abc"));
    assert!(!text::same_text("abc", "abd"));
    assert!(!text::same_text("abc", "ab"));
    assert!(text::starts_with("https://x", "https://"));
    assert!(!text::starts_with("http", "http://"));
}

#[test]
fn durations_agree_with_the_standard_library() {
    let d = Duration::from_millis(1_500);
    let std = std::time::Duration::from_millis(1_500);
    assert_eq!(d.as_secs(), std.as_secs());
    assert_eq!(d.subsec_nanos(), std.subsec_nanos());
    assert_eq!(d.as_millis(), std.as_millis());
    assert_eq!(d.as_nanos(), std.as_nanos());
    assert_eq!(d.saturating_mul(3), Duration::from_millis(4_500));
    let long = Duration::from_secs(u64::MAX).saturating_mul(2);
    let longest = std::time::Duration::MAX;
    assert_eq!(long.as_secs(), longest.as_secs());
    assert_eq!(long.subsec_nanos(), longest.subsec_nanos());
    assert!(Duration::from_secs(2).longer_than(&Duration::from_secs(1)));
    assert_eq!(
        Duration::from_secs(2).min(Duration::from_secs(1)),
        Duration::from_secs(1)
    );
    assert!(Duration::zero().is_zero());
}

#[test]
fn points_in_time_are_moved_on_in_microseconds() {
    let at = Timestamp {
        secs: 10,
        nanos: 999_999_000,
    };
    assert_eq!(
        at.checked_add(&Duration::from_millis(1)),
        Some(Timestamp {
            secs: 11,
            nanos: 999_000
        })
    );
    assert_eq!(at.checked_add(&Duration::zero()), Some(at));
    let end = Timestamp {
        secs: i64::MAX,
        nanos: 0,
    };
    assert_eq!(end.checked_add(&Duration::from_secs(1)), None);
    let early = Timestamp { secs: -5, nanos: 1 };
    assert_eq!(
        early.checked_add(&Duration::from_secs(3)),
        Some(Timestamp { secs: -2, nanos: 1 })
    );
    assert!(early.is_before(&at));
    assert!(!at.is_before(&at));
}
