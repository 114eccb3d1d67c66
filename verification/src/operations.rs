//! What whoever calls the small operations can rely on: how their arguments and their results hang
//! together. Those of the store and of the interface have their own.

use crate::api::cursor::{decode_cursor, encode_cursor, split_at_bar};
use crate::api::error::ApiError;
use crate::api::jobs::{
    plan_retry, submit_job, RetryJobRequest, SubmitJobRequest, SubmitJobResponse,
};
use crate::api::operations::{known_status, refused};
use crate::config::{
    law_database_settings_are_accepted_by_rule,
    law_database_settings_come_from_their_variables, law_server_settings_are_accepted_by_rule,
    law_server_settings_come_from_their_variables, law_the_last_assignment_counts,
    law_worker_settings_are_accepted_by_rule, law_worker_settings_come_from_their_variables,
    invalid, parse_env, ConfigError, ConfigFault, DatabaseConfig, EnvText, EnvValue, Environment,
    HttpConfig, LogFormat, WorkerConfig,
};
use crate::db::charges::ChargeStore;
use crate::db::jobs::{JobRow, JobStore};
use crate::db::operations::{charged_under, lies_after};
use crate::domain::{law_status_text_round_trip, AttemptOutcome, JobStatus};
use crate::failure::{
    classify_http_status, classify_network_error, law_temporary_problems_are_tried_again,
    FailureClass,
};
use crate::fake_charge::chaos::{
    law_requests_are_counted_while_they_last, law_requests_fail_only_where_asked_for, set_control,
    test_control_enabled, ChaosDecision, ChaosMode, ChaosState, ControlRequest, InflightGuard,
};
use crate::fake_charge::charges::{
    create_charge, idempotency_key, law_answers_speak_of_their_charge,
    law_charge_requests_are_accepted_by_rule, law_keys_are_what_stands_in_the_header, ChargeResponse,
    HeaderText,
};
use crate::fake_charge::correlation::request_id;
use crate::fake_charge::error::handle_timeout_error;
use crate::idempotency::charge_idempotency_key;
use crate::ids::uuid_text;
use crate::redact::{encode, lease_token_hash};
use crate::retry::{
    drawn, generator_state, law_cap_is_the_power_up_to_the_maximum, law_jitter_ranges_up_to_the_cap,
    saturating_pow, RetryPolicy,
};
use crate::text::{
    decimal_text, first_place, is_blank, is_white_space, law_decimal_round_trip,
    law_first_places_come_first, law_trimming_takes_white_space_at_the_ends, parse_unsigned,
    signed_text, to_ascii_lowercase, trim, trim_end_of, trim_start_of, trimmed, white_space,
    without_leading, without_trailing,
};
use crate::time::{
    law_earlier_points_come_before, law_later_points_lie_a_span_away, max_nanos, Duration,
    Timestamp,
};
use crate::validation::{
    law_kinds_are_accepted_by_rule, law_payloads_are_accepted_by_rule, parse_charge_payload,
    validate_charge_payload, validate_kind, validate_max_attempts, ChargePayload, ValidationError,
};
use crate::worker::{
    error_code, law_attempts_are_settled_by_the_answer, settle, ChargeAnswer, Settlement,
};
use rand::rngs::StdRng;
use vstd::arithmetic::power::pow;
use vstd::prelude::*;

verus! {

// ---------------------------------------------------------------------------------------------
// Retrying
// ---------------------------------------------------------------------------------------------

/// The longest delay is the base delay times the multiplier to the power of the failures before this
/// one, where the power stops at the largest `u32`, or the maximal delay if that is less.
pub proof fn law_longest_delays_grow_by_the_multiplier(
    policy: RetryPolicy,
    attempt_number: u32,
    cap: Duration,
)
    requires
        call_ensures(RetryPolicy::cap, (&policy, attempt_number), cap),
        policy.max_delay@ <= max_nanos(),
    ensures
        ({
            let before = if attempt_number == 0 { 0nat } else { (attempt_number - 1) as nat };
            let power = pow(policy.multiplier as int, before);
            let counted = if power <= u32::MAX { power } else { u32::MAX as int };
            &&& cap@ <= policy.max_delay@
            &&& cap@ <= policy.base_delay@ * counted
            &&& cap@ == policy.max_delay@ || cap@ == policy.base_delay@ * counted
        }),
{
    law_cap_is_the_power_up_to_the_maximum(policy, attempt_number);
}

/// The jitter of an attempt is drawn from the milliseconds up to the longest delay of that attempt, and
/// none is drawn if and only if there is no delay.
pub proof fn law_jitter_ends_at_the_longest_delay(
    policy: RetryPolicy,
    attempt_number: u32,
    cap: Duration,
    bound: Option<u64>,
)
    requires
        call_ensures(RetryPolicy::cap, (&policy, attempt_number), cap),
        call_ensures(RetryPolicy::jitter_bound, (&policy, attempt_number), bound),
    ensures
        bound is None <==> cap@ == 0,
        bound matches Some(millis) ==> {
            &&& millis * 1_000_000 <= cap@
            &&& cap@ / 1_000_000 <= u64::MAX ==> cap@ - millis * 1_000_000 < 1_000_000
            &&& cap@ / 1_000_000 > u64::MAX ==> millis == u64::MAX
        },
{
    law_jitter_ranges_up_to_the_cap(policy, attempt_number);
}

/// A delay is what the generator draws from the whole range, in milliseconds, and never longer than the
/// longest delay. Where there is no delay nothing is drawn.
pub proof fn law_delays_are_what_is_drawn(
    policy: RetryPolicy,
    attempt_number: u32,
    rng: &mut StdRng,
    cap: Duration,
    bound: u64,
    delay: Duration,
)
    requires
        call_ensures(RetryPolicy::cap, (&policy, attempt_number), cap),
        call_ensures(RetryPolicy::delay, (&policy, attempt_number, rng), delay),
        bound * 1_000_000 <= cap@ < bound * 1_000_000 + 1_000_000,
    ensures
        delay@ <= cap@,
        delay@ % 1_000_000 == 0,
        cap@ > 0 ==> delay@ == drawn(generator_state(*old(rng)), bound).0 * 1_000_000
            && generator_state(*final(rng)) == drawn(generator_state(*old(rng)), bound).1,
        cap@ == 0 ==> delay@ == 0 && *final(rng) == *old(rng),
{
    law_jitter_ranges_up_to_the_cap(policy, attempt_number);
}

/// Jitter counts milliseconds, and without any there is no delay.
pub proof fn law_jitter_counts_milliseconds(jitter: Option<u64>, delay: Duration)
    requires
        call_ensures(RetryPolicy::delay_of_jitter, (jitter,), delay),
    ensures
        jitter matches Some(millis) ==> delay@ == millis * 1_000_000,
        jitter is None ==> delay@ == 0,
{
}

/// The usual policy begins with a second and doubles it up to a minute.
pub proof fn law_the_usual_policy_doubles_a_second(policy: RetryPolicy)
    requires
        call_ensures(RetryPolicy::default_policy, (), policy),
    ensures
        policy.base_delay@ == 1_000_000_000,
        policy.max_delay@ == 60_000_000_000,
        policy.multiplier == 2,
{
}

/// Powers are exact as long as they fit, and otherwise the largest number.
pub proof fn law_powers_stop_at_the_largest_number(base: u32, exponent: u32, r: u32)
    requires
        call_ensures(saturating_pow, (base, exponent), r),
    ensures
        pow(base as int, exponent as nat) <= u32::MAX ==> r == pow(base as int, exponent as nat),
        pow(base as int, exponent as nat) > u32::MAX ==> r == u32::MAX,
{
    vstd::arithmetic::power::lemma_pow0(base as int);
    if base > 0 {
        vstd::arithmetic::power::lemma_pow_positive(base as int, exponent as nat);
    } else if exponent > 0 {
        vstd::arithmetic::power::lemma0_pow(exponent as nat);
    }
}

/// An attempt succeeds on any answer from 200 to 299. It is tried again after an answer of 408, 429 or
/// from 500 to 599, or after none, as long as the attempts are not used up; and otherwise given up.
pub proof fn law_answers_settle_attempts(
    answer: ChargeAnswer,
    attempt_number: i32,
    max_attempts: i32,
    s: Settlement,
)
    requires
        call_ensures(settle, (answer, attempt_number, max_attempts), s),
    ensures
        ({
            let class = match answer {
                ChargeAnswer::Status(status) => if status == 408 || status == 429 || 500 <= status
                    <= 599 {
                    FailureClass::Transient
                } else {
                    FailureClass::Permanent
                },
                ChargeAnswer::Nothing => FailureClass::Ambiguous,
            };
            if answer matches ChargeAnswer::Status(status) && 200 <= status <= 299 {
                s == Settlement::Succeed
            } else if class !is Permanent && attempt_number < max_attempts {
                s == Settlement::Retry(class)
            } else {
                s == Settlement::GiveUp(class)
            }
        }),
{
    law_attempts_are_settled_by_the_answer(answer, attempt_number, max_attempts);
}

/// How failures are classed, whether the class is tried again, and what it is called.
pub proof fn law_failures_are_classed(
    status: u16,
    by_status: FailureClass,
    by_network: FailureClass,
    class: FailureClass,
    again: bool,
    code: &'static str,
)
    requires
        call_ensures(classify_http_status, (status,), by_status),
        call_ensures(classify_network_error, (), by_network),
        call_ensures(FailureClass::is_retryable, (class,), again),
        call_ensures(error_code, (class,), code),
    ensures
        by_status is Transient <==> status == 408 || status == 429 || 500 <= status <= 599,
        by_status is Permanent <==> by_status !is Transient,
        by_network is Ambiguous,
        again <==> class is Transient || class is Ambiguous,
        class is Transient ==> code@ == "TRANSIENT"@,
        class is Permanent ==> code@ == "PERMANENT"@,
        class is Ambiguous ==> code@ == "AMBIGUOUS"@,
{
    law_temporary_problems_are_tried_again(status);
}

/// Statuses and outcomes are stored under their names, and statuses are read back from them. The ends are
/// success and death.
pub proof fn law_statuses_have_their_names(
    status: JobStatus,
    text: &'static str,
    owned: String,
    ended: bool,
    read: &str,
    found: Option<JobStatus>,
    outcome: AttemptOutcome,
    outcome_text: &'static str,
)
    requires
        call_ensures(JobStatus::as_db_str, (status,), text),
        call_ensures(JobStatus::to_string, (&status,), owned),
        call_ensures(JobStatus::is_terminal, (status,), ended),
        call_ensures(JobStatus::parse_db_str, (read,), found),
        call_ensures(AttemptOutcome::as_db_str, (outcome,), outcome_text),
    ensures
        text@ == owned@,
        text@ == match status {
            JobStatus::Pending => "PENDING"@,
            JobStatus::Running => "RUNNING"@,
            JobStatus::Succeeded => "SUCCEEDED"@,
            JobStatus::Dead => "DEAD"@,
        },
        ended <==> status is Succeeded || status is Dead,
        found == Some(status) <==> read@ == text@,
        outcome_text@ == match outcome {
            AttemptOutcome::Succeeded => "SUCCEEDED"@,
            AttemptOutcome::RetryScheduled => "RETRY_SCHEDULED"@,
            AttemptOutcome::Dead => "DEAD"@,
            AttemptOutcome::LeaseLost => "LEASE_LOST"@,
        },
{
    law_status_text_round_trip(status, read@);
}

// ---------------------------------------------------------------------------------------------
// Time
// ---------------------------------------------------------------------------------------------

/// Spans are made of seconds or milliseconds, and give them back.
pub proof fn law_spans_count_nanoseconds(
    n: u64,
    none: Duration,
    of_secs: Duration,
    of_millis: Duration,
    span: Duration,
    secs: u64,
    rest: u32,
    nanos: u128,
    millis: u128,
    empty: bool,
)
    requires
        call_ensures(Duration::zero, (), none),
        call_ensures(Duration::from_secs, (n,), of_secs),
        call_ensures(Duration::from_millis, (n,), of_millis),
        call_ensures(Duration::as_secs, (&span,), secs),
        call_ensures(Duration::subsec_nanos, (&span,), rest),
        call_ensures(Duration::as_nanos, (&span,), nanos),
        call_ensures(Duration::as_millis, (&span,), millis),
        call_ensures(Duration::is_zero, (&span,), empty),
    ensures
        none@ == 0,
        of_secs@ == n * 1_000_000_000,
        of_millis@ == n * 1_000_000,
        nanos == span@,
        secs * 1_000_000_000 + rest == span@ && rest < 1_000_000_000,
        millis * 1_000_000 <= span@ < millis * 1_000_000 + 1_000_000,
        empty <==> span@ == 0,
{
}

/// Spans are compared and multiplied as numbers, up to the longest span.
pub proof fn law_spans_are_compared_and_multiplied(
    a: Duration,
    b: Duration,
    factor: u32,
    longer: bool,
    lesser: Duration,
    product: Duration,
)
    requires
        call_ensures(Duration::longer_than, (&a, &b), longer),
        call_ensures(Duration::min, (a, b), lesser),
        call_ensures(Duration::saturating_mul, (a, factor), product),
    ensures
        longer <==> a@ > b@,
        lesser@ <= a@ && lesser@ <= b@ && (lesser@ == a@ || lesser@ == b@),
        a@ * factor <= u64::MAX * 1_000_000_000 + 999_999_999 ==> product@ == a@ * factor,
        a@ * factor > u64::MAX * 1_000_000_000 + 999_999_999 ==> product@ == u64::MAX
            * 1_000_000_000 + 999_999_999,
{
}

/// Points in time are compared by their seconds and then by what is beyond them, and moving one by a span
/// leads that far, to the nearest microsecond.
pub proof fn law_points_are_compared_and_moved(
    a: Timestamp,
    b: Timestamp,
    span: Duration,
    earlier: bool,
    moved: Option<Timestamp>,
)
    requires
        call_ensures(Timestamp::is_before, (&a, &b), earlier),
        call_ensures(Timestamp::checked_add, (&a, &span), moved),
    ensures
        earlier <==> a.secs < b.secs || a.secs == b.secs && a.nanos < b.nanos,
        moved matches Some(then) ==> lies_after(then, a, span@) && then.nanos < 1_000_000_000,
        moved is None ==> a.secs * 1_000_000_000 + a.nanos + span@ + 500 >= (i64::MAX + 1)
            * 1_000_000_000,
{
    law_earlier_points_come_before(a, b, b);
    law_earlier_points_come_before(b, a, a);
    law_later_points_lie_a_span_away(a, span@);
}

// ---------------------------------------------------------------------------------------------
// What is accepted
// ---------------------------------------------------------------------------------------------

/// A kind is accepted if it has a character other than white space, and at most 64 in all.
pub proof fn law_kinds_are_checked(kind: &str, r: Result<(), ValidationError>)
    requires
        call_ensures(validate_kind, (kind,), r),
    ensures
        ({
            let written = exists|i: int| 0 <= i < kind@.len() && !white_space(#[trigger] kind@[i]);
            match r {
                Ok(_) => written && kind@.len() <= 64,
                Err(e) => if written {
                    e is KindTooLong && kind@.len() > 64
                } else {
                    e is EmptyKind
                },
            }
        }),
{
    law_kinds_are_accepted_by_rule(kind@);
}

/// From 1 to 20 attempts may be asked for.
pub proof fn law_numbers_of_attempts_are_checked(n: i32, r: Result<(), ValidationError>)
    requires
        call_ensures(validate_max_attempts, (n,), r),
    ensures
        r is Ok <==> 1 <= n <= 20,
        r matches Err(e) ==> e is MaxAttemptsOutOfRange,
{
}

/// The first thing that is wrong with a payload, if anything is: the customer, the amount, the currency.
pub open spec fn first_wrong(payload: ChargePayload) -> Option<ValidationError> {
    if forall|i: int| 0 <= i < payload.customer_id@.len() ==> white_space(
        #[trigger] payload.customer_id@[i],
    ) {
        Some(ValidationError::EmptyCustomerId)
    } else if payload.customer_id@.len() > 128 {
        Some(ValidationError::CustomerIdTooLong)
    } else if payload.amount_cents <= 0 {
        Some(ValidationError::NonPositiveAmount)
    } else if !(payload.currency@.len() == 3 && forall|i: int|
        0 <= i < 3 ==> 'A' <= (#[trigger] payload.currency@[i]) <= 'Z') {
        Some(ValidationError::InvalidCurrency)
    } else {
        None
    }
}

/// A payload is accepted if nothing is wrong with it, and otherwise refused for the first thing that is.
pub proof fn law_payloads_are_checked(
    payload: ChargePayload,
    decoded: Result<ChargePayload, String>,
    r: Result<(), ValidationError>,
    parsed: Result<ChargePayload, ValidationError>,
)
    requires
        call_ensures(validate_charge_payload, (&payload,), r),
        call_ensures(parse_charge_payload, (decoded,), parsed),
    ensures
        r is Ok <==> first_wrong(payload) is None,
        r matches Err(e) ==> first_wrong(payload) == Some(e),
        match decoded {
            Ok(given) => match first_wrong(given) {
                None => parsed == Ok::<ChargePayload, ValidationError>(given),
                Some(e) => parsed == Err::<ChargePayload, ValidationError>(e),
            },
            Err(detail) => parsed == Err::<ChargePayload, ValidationError>(
                ValidationError::InvalidPayloadShape(detail),
            ),
        },
{
    lemma_first_wrong(payload);
    if decoded is Ok {
        lemma_first_wrong(decoded->Ok_0);
    }
}

proof fn lemma_first_wrong(payload: ChargePayload)
    ensures
        crate::validation::payload_fault(payload) == first_wrong(payload),
{
    law_payloads_are_accepted_by_rule(payload);
}

/// What is wrong, in words.
pub open spec fn worded(e: ValidationError) -> Seq<char> {
    match e {
        ValidationError::EmptyKind => "kind must not be empty"@,
        ValidationError::KindTooLong => "kind must be at most 64 characters"@,
        ValidationError::InvalidPayloadShape(detail) =>
            "payload does not match the expected charge shape: "@ + detail@,
        ValidationError::EmptyCustomerId => "payload.customer_id must not be empty"@,
        ValidationError::CustomerIdTooLong => "payload.customer_id must be at most 128 characters"@,
        ValidationError::NonPositiveAmount => "payload.amount_cents must be positive"@,
        ValidationError::InvalidCurrency =>
            "payload.currency must be a three-letter uppercase ISO 4217 code"@,
        ValidationError::MaxAttemptsOutOfRange => "max_attempts must be between 1 and 20"@,
    }
}

proof fn lemma_worded(e: ValidationError)
    ensures
        e.text() == worded(e),
{
    reveal_with_fuel(crate::text::decimal, 4);
    reveal_strlit("kind must be at most ");
    reveal_strlit("payload.customer_id must be at most ");
    reveal_strlit(" characters");
    reveal_strlit("max_attempts must be between ");
    reveal_strlit(" and ");
    reveal_strlit("kind must be at most 64 characters");
    reveal_strlit("payload.customer_id must be at most 128 characters");
    reveal_strlit("max_attempts must be between 1 and 20");
}

/// A refusal says in words what was wrong.
pub proof fn law_refusals_are_worded(e: ValidationError, s: String)
    requires
        call_ensures(ValidationError::message, (&e,), s),
    ensures
        s@ == worded(e),
{
    lemma_worded(e);
}

/// The first thing that is wrong with a submission, if anything is: its kind, its number of attempts,
/// its payload.
pub open spec fn first_wrong_of(
    body: SubmitJobRequest,
    decoded: Result<ChargePayload, String>,
) -> Option<ValidationError> {
    if forall|i: int| 0 <= i < body.kind@.len() ==> white_space(#[trigger] body.kind@[i]) {
        Some(ValidationError::EmptyKind)
    } else if body.kind@.len() > 64 {
        Some(ValidationError::KindTooLong)
    } else if !(1 <= body.max_attempts <= 20) {
        Some(ValidationError::MaxAttemptsOutOfRange)
    } else {
        match decoded {
            Ok(payload) => first_wrong(payload),
            Err(detail) => Some(ValidationError::InvalidPayloadShape(detail)),
        }
    }
}

/// A submission is refused for the first thing that is wrong with it, and says so.
pub proof fn law_submissions_are_refused_for_the_first_fault(
    store: &mut JobStore,
    body: &SubmitJobRequest,
    decoded: Result<ChargePayload, String>,
    id: u128,
    now: Timestamp,
    r: Result<(u16, SubmitJobResponse), ApiError>,
)
    requires
        call_ensures(submit_job, (store, body, decoded, id, now), r),
    ensures
        first_wrong_of(*body, decoded) matches Some(wrong) ==> (r matches Err(e) && refused(
            e,
            400,
            "INVALID_ARGUMENT"@,
        ) && e.message@ == worded(wrong)),
        r matches Err(e) ==> first_wrong_of(*body, decoded) is Some || e.message@
            == "internal error"@,
{
    law_kinds_are_accepted_by_rule(body.kind@);
    if decoded is Ok {
        lemma_first_wrong(decoded->Ok_0);
    }
    if first_wrong_of(*body, decoded) is Some {
        lemma_worded(first_wrong_of(*body, decoded)->0);
    }
}

/// A refused retry says why: the job is not there, is not dead, or the number of attempts is not one
/// that can be granted.
pub proof fn law_refused_retries_are_worded(
    id: u128,
    existing: Option<JobRow>,
    body: Option<RetryJobRequest>,
    e: ApiError,
)
    requires
        call_ensures(plan_retry, (id, &existing, body), Err(e)),
    ensures
        match existing {
            None => e.message@ == "job "@ + uuid_text(id) + " not found"@,
            Some(row) => if row.status@ == "DEAD"@ {
                body matches Some(b) && b.max_attempts matches Some(n) && if 1 <= n <= 20 {
                    e.message@ == "max_attempts ("@ + crate::text::signed_decimal(n as int)
                        + ") must be greater than the job's existing attempts ("@
                        + crate::text::signed_decimal(row.attempts as int) + ")"@
                } else {
                    e.message@ == "max_attempts must be between 1 and 20"@
                }
            } else if known_status(row.status@) {
                e.message@ == "job "@ + uuid_text(id) + " is "@ + row.status@
                    + ", not DEAD; only a DEAD job can be retried"@
            } else {
                e.message@ == "internal error"@
            },
        },
{
    lemma_worded(ValidationError::MaxAttemptsOutOfRange);
    if existing is Some {
        let status = existing->0.status@;
        law_status_text_round_trip(JobStatus::Pending, status);
        law_status_text_round_trip(JobStatus::Running, status);
        law_status_text_round_trip(JobStatus::Succeeded, status);
        law_status_text_round_trip(JobStatus::Dead, status);
    }
}

// ---------------------------------------------------------------------------------------------
// The charge service
// ---------------------------------------------------------------------------------------------

/// The key of a request is what stands in its header, without white space around it. A header that is
/// missing, no text or blank is refused.
pub proof fn law_headers_give_the_key(header: HeaderText, r: Result<String, ApiError>)
    requires
        call_ensures(idempotency_key, (&header,), r),
    ensures
        r is Ok <==> (header matches HeaderText::Text(text) && exists|i: int|
            0 <= i < text@.len() && !white_space(#[trigger] text@[i])),
        r matches Ok(key) ==> key@ == trimmed(header->Text_0@),
        r matches Err(e) ==> e.status == 400,
{
    law_keys_are_what_stands_in_the_header(header);
}

/// A charge is made, and answered with 201, if and only if the request keeps the rules and neither its
/// key nor the identifier was used before. It is recorded as asked for. Nothing else changes anything.
pub proof fn law_charges_are_made_once(
    store: &mut ChargeStore,
    header: HeaderText,
    decoded: Result<ChargePayload, String>,
    id: u128,
    now: Timestamp,
    r: Result<(u16, ChargeResponse), ApiError>,
)
    requires
        call_ensures(create_charge, (store, &header, decoded, id, now), r),
    ensures
        ({
            let keyed = header matches HeaderText::Text(text) && exists|i: int|
                0 <= i < text@.len() && !white_space(#[trigger] text@[i]);
            let proper = keyed && (decoded matches Ok(payload) && first_wrong(payload) is None);
            let key = trimmed(header->Text_0@);
            let used = charged_under(old(store)@, key) || exists|i: int|
                0 <= i < old(store)@.len() && (#[trigger] old(store)@[i]).id == id;
            &&& r is Ok <==> proper && !used
            &&& !proper ==> (r matches Err(e) && refused(e, 400, "INVALID_ARGUMENT"@))
            &&& proper && used ==> (r matches Err(e) && refused(e, 500, "INTERNAL"@))
            &&& r is Err ==> final(store)@ == old(store)@
            &&& r matches Ok(answer) ==> {
                let charge = final(store)@.last();
                &&& final(store)@ == old(store)@.push(charge)
                &&& charge.id == id && charge.idempotency_key == key && charge.created_at == now
                &&& charge.customer_id == decoded->Ok_0.customer_id@
                &&& charge.amount_cents == decoded->Ok_0.amount_cents
                &&& charge.currency == decoded->Ok_0.currency@
                &&& answer.0 == 201 && !answer.1.replayed
                &&& answer.1.id == id && answer.1.idempotency_key@ == key && answer.1.created_at
                    == now
                &&& answer.1.customer_id@ == charge.customer_id && answer.1.amount_cents
                    == charge.amount_cents && answer.1.currency@ == charge.currency
            }
        }),
{
    law_keys_are_what_stands_in_the_header(header);
    law_charge_requests_are_accepted_by_rule(header, decoded);
    if decoded is Ok {
        lemma_first_wrong(decoded->Ok_0);
    }
    if header is Text {
        crate::db::operations::lemma_charged_under(old(store)@, trimmed(header->Text_0@));
    }
    if r is Ok {
        law_answers_speak_of_their_charge(r->Ok_0.1);
    }
}

/// A request for a charge is refused for its key first, and then for the first thing that is wrong with
/// its payload.
pub proof fn law_charges_are_refused_for_the_first_fault(
    store: &mut ChargeStore,
    header: HeaderText,
    decoded: Result<ChargePayload, String>,
    id: u128,
    now: Timestamp,
    e: ApiError,
)
    requires
        call_ensures(create_charge, (store, &header, decoded, id, now), Err(e)),
    ensures
        match header {
            HeaderText::Absent => e.message@ == "Idempotency-Key header is required"@,
            HeaderText::Opaque => e.message@ == "Idempotency-Key header must be valid UTF-8"@,
            HeaderText::Text(text) => if forall|i: int|
                0 <= i < text@.len() ==> white_space(#[trigger] text@[i]) {
                e.message@ == "Idempotency-Key header must not be empty"@
            } else {
                match decoded {
                    Err(detail) => e.message@ == "payload does not match the expected charge shape: "@
                        + detail@,
                    Ok(payload) => match first_wrong(payload) {
                        Some(wrong) => e.message@ == worded(wrong),
                        None => e.message@ == "internal error"@,
                    },
                }
            },
        },
{
    law_keys_are_what_stands_in_the_header(header);
    if decoded is Ok {
        lemma_first_wrong(decoded->Ok_0);
        if first_wrong(decoded->Ok_0) is Some {
            lemma_worded(first_wrong(decoded->Ok_0)->0);
        }
    }
}

/// What becomes of a request, and how the mode goes on: failures are counted down, one for each request,
/// and every other mode lasts.
pub proof fn law_chaos_decides_by_its_mode(state: &mut ChaosState, d: ChaosDecision)
    requires
        call_ensures(ChaosState::decide, (state,), d),
    ensures
        final(state).inflight == old(state).inflight,
        final(state).peak_inflight == old(state).peak_inflight,
        match old(state).mode {
            ChaosMode::Normal => d is Proceed && final(state).mode is Normal,
            ChaosMode::DelayMs(ms) => d is Proceed && final(state).mode == ChaosMode::DelayMs(ms),
            ChaosMode::PermanentReject => d == ChaosDecision::Reject(422) && final(
                state
            ).mode is PermanentReject,
            ChaosMode::FailNext { remaining, status } => {
                &&& 100 <= status <= 999 ==> d == ChaosDecision::Reject(status)
                &&& status < 100 || status > 999 ==> d == ChaosDecision::Reject(503)
                &&& remaining > 1 ==> final(state).mode == (ChaosMode::FailNext {
                    remaining: (remaining - 1) as u32,
                    status,
                })
                &&& remaining <= 1 ==> final(state).mode is Normal
            },
        },
{
    law_requests_fail_only_where_asked_for(old(state).mode, 0);
}

/// A request for a mode sets that mode and nothing else; one for no failures at all is refused.
pub proof fn law_chaos_is_set_as_asked_for(
    state: &mut ChaosState,
    body: ControlRequest,
    r: Result<(), ApiError>,
)
    requires
        call_ensures(set_control, (state, body), r),
    ensures
        final(state).inflight == old(state).inflight,
        final(state).peak_inflight == old(state).peak_inflight,
        r is Err <==> (body matches ControlRequest::FailNext { n, .. } && n == 0),
        r matches Err(e) ==> refused(e, 400, "INVALID_ARGUMENT"@) && final(state).mode == old(
            state
        ).mode,
        r is Ok ==> match body {
            ControlRequest::Normal => final(state).mode is Normal,
            ControlRequest::PermanentReject => final(state).mode is PermanentReject,
            ControlRequest::DelayMs { ms } => final(state).mode == ChaosMode::DelayMs(ms),
            ControlRequest::FailNext { n, status } => final(state).mode == (ChaosMode::FailNext {
                remaining: n,
                status,
            }),
        },
{
}

/// Requests are counted while they last, and the most at one time are kept until they are forgotten.
pub proof fn law_requests_in_progress_are_counted(
    begun: &mut ChaosState,
    ended: &mut ChaosState,
    forgotten: &mut ChaosState,
    guard: InflightGuard,
    state: ChaosState,
    peak: usize,
    delay: Option<u64>,
)
    requires
        call_ensures(ChaosState::track_inflight, (begun,), guard),
        old(begun).inflight < usize::MAX,
        call_ensures(ChaosState::release, (ended, guard), ()),
        old(ended).inflight > 0,
        call_ensures(ChaosState::reset_peak_inflight, (forgotten,), ()),
        call_ensures(ChaosState::peak_inflight, (&state,), peak),
        call_ensures(ChaosState::delay_ms, (&state,), delay),
    ensures
        final(begun).inflight == old(begun).inflight + 1,
        final(begun).mode == old(begun).mode,
        final(begun).peak_inflight >= old(begun).peak_inflight,
        final(begun).peak_inflight >= final(begun).inflight,
        final(begun).peak_inflight == old(begun).peak_inflight || final(begun).peak_inflight
            == final(begun).inflight,
        final(ended).inflight == old(ended).inflight - 1,
        final(ended).mode == old(ended).mode,
        final(ended).peak_inflight == old(ended).peak_inflight,
        final(forgotten).peak_inflight == 0,
        final(forgotten).inflight == old(forgotten).inflight,
        final(forgotten).mode == old(forgotten).mode,
        peak == state.peak_inflight,
        state.mode matches ChaosMode::DelayMs(ms) ==> delay == Some(ms),
        state.mode !is DelayMs ==> delay is None,
{
    law_requests_are_counted_while_they_last(*old(begun));
}

/// A new service fails no request and has none in progress; setting a mode sets it alone.
pub proof fn law_chaos_begins_calm(fresh: ChaosState, state: &mut ChaosState, mode: ChaosMode)
    requires
        call_ensures(ChaosState::new, (), fresh),
        call_ensures(ChaosState::set, (state, mode), ()),
    ensures
        fresh.mode is Normal && fresh.inflight == 0 && fresh.peak_inflight == 0,
        final(state).mode == mode,
        final(state).inflight == old(state).inflight,
        final(state).peak_inflight == old(state).peak_inflight,
{
}

/// A request keeps the identifier that it came with, unless that is empty, and otherwise gets a new one.
pub proof fn law_requests_keep_their_identifier(inbound: Option<String>, fresh: u128, id: String)
    requires
        call_ensures(request_id, (inbound, fresh), id),
    ensures
        inbound matches Some(text) ==> (text@.len() > 0 ==> id@ == text@),
        inbound is None ==> id@ == uuid_text(fresh),
        inbound matches Some(text) ==> (text@.len() == 0 ==> id@ == uuid_text(fresh)),
{
}

/// A request that took too long is answered with 408.
pub proof fn law_late_answers_are_timeouts(elapsed: bool, reason: String, e: ApiError)
    requires
        call_ensures(handle_timeout_error, (elapsed, reason), e),
    ensures
        elapsed ==> refused(e, 408, "TIMEOUT"@) && e.message@ == "request timed out"@,
        !elapsed ==> refused(e, 500, "INTERNAL"@) && e.message@ == reason@,
{
}

/// The key of the charge for a job is made of its identifier alone.
pub proof fn law_charge_keys_name_their_job(job_id: u128, key: String)
    requires
        call_ensures(charge_idempotency_key, (job_id,), key),
    ensures
        key@ == "reliableq:charge:"@ + uuid_text(job_id),
{
}

/// Bytes are written as two digits of base sixteen each, and of a token's digest six bytes are shown.
pub proof fn law_bytes_are_written_as_two_digits(bytes: &[u8], s: String, token: u128, shown: String)
    requires
        call_ensures(encode, (bytes,), s),
        call_ensures(lease_token_hash, (token,), shown),
    ensures
        s@.len() == 2 * bytes@.len(),
        forall|i: int|
            0 <= i < bytes@.len() ==> sixteenth(s@[2 * i]) * 16 + sixteenth(s@[2 * i + 1])
                == #[trigger] bytes@[i],
        shown@.len() == 12,
{
    assert forall|i: int| 0 <= i < bytes@.len() implies sixteenth(s@[2 * i]) * 16 + sixteenth(
        s@[2 * i + 1],
    ) == #[trigger] bytes@[i] by {
        assert((2 * i) / 2 == i && (2 * i) % 2 == 0);
        assert((2 * i + 1) / 2 == i && (2 * i + 1) % 2 == 1);
    }
}

/// The number that a digit of base sixteen stands for, in small letters; otherwise -1000.
pub open spec fn sixteenth(c: char) -> int {
    if '0' <= c <= '9' {
        c as int - '0' as int
    } else if 'a' <= c <= 'f' {
        c as int - 'a' as int + 10
    } else {
        -1000
    }
}

// ---------------------------------------------------------------------------------------------
// Settings
// ---------------------------------------------------------------------------------------------

/// A variable has the value that it was set to last.
pub proof fn law_variables_have_their_last_value(
    env: &mut Environment,
    name: &str,
    value: EnvValue,
    after: Environment,
    read: &str,
    r: EnvValue,
    before: Environment,
    earlier: EnvValue,
)
    requires
        call_ensures(Environment::set, (env, name, value), ()),
        after@ == final(env)@,
        call_ensures(Environment::var, (&after, read), r),
        before@ == old(env)@,
        call_ensures(Environment::var, (&before, read), earlier),
    ensures
        read@ == name@ ==> r@ == value@,
        read@ != name@ ==> r@ == earlier@,
{
    law_the_last_assignment_counts(old(env)@, name@, value@, read@);
}

/// The settings of the database are read from their variables, with 10 connections and 5 seconds unless
/// they say otherwise, and are accepted only with an address of the database, from 1 to 100 connections,
/// and a timeout of up to a minute.
pub proof fn law_database_settings_are_read(
    env: &Environment,
    r: Result<DatabaseConfig, ConfigError>,
    n: nat,
)
    requires
        call_ensures(DatabaseConfig::from_env, (env,), r),
    ensures
        env.value("DATABASE_URL"@) !is Text ==> r is Err,
        r matches Ok(config) ==> {
            &&& env.value("DATABASE_URL"@) == EnvText::Text(config.url@)
            &&& "postgres://"@.is_prefix_of(config.url@) || "postgresql://"@.is_prefix_of(
                config.url@,
            )
            &&& 1 <= config.max_connections <= 100
            &&& 0 < config.connect_timeout@ <= 60_000_000_000
            &&& env.value("DATABASE_MAX_CONNECTIONS"@) is Unset ==> config.max_connections == 10
            &&& env.value("DATABASE_MAX_CONNECTIONS"@) == EnvText::Text(crate::text::decimal(n))
                ==> config.max_connections == n
            &&& env.value("DATABASE_CONNECT_TIMEOUT_SECS"@) is Unset ==> config.connect_timeout@
                == 5_000_000_000
            &&& env.value("DATABASE_CONNECT_TIMEOUT_SECS"@) == EnvText::Text(
                crate::text::decimal(n),
            ) ==> config.connect_timeout@ == n * 1_000_000_000
        },
{
    law_database_settings_come_from_their_variables(*env, n);
    if r is Ok {
        law_database_settings_are_accepted_by_rule(r->Ok_0@);
    }
}

/// They are valid by the same rules.
pub proof fn law_database_settings_are_checked(
    config: DatabaseConfig,
    r: Result<(), ConfigError>,
)
    requires
        call_ensures(DatabaseConfig::validate, (&config,), r),
    ensures
        r is Ok <==> {
            &&& !crate::text::blank(config.url@)
            &&& "postgres://"@.is_prefix_of(config.url@) || "postgresql://"@.is_prefix_of(
                config.url@,
            )
            &&& 1 <= config.max_connections <= 100
            &&& 0 < config.connect_timeout@ <= 60_000_000_000
        },
{
    law_database_settings_are_accepted_by_rule(config@);
}

/// The settings of a server are read from the variables under its prefix, with 64 KiB and 10 seconds
/// unless they say otherwise, and are accepted with a proper address, from a byte to 10 MiB, and a timeout
/// of up to two minutes.
pub proof fn law_server_settings_are_read(
    env: &Environment,
    prefix: &str,
    default_bind_addr: &str,
    is_address: bool,
    r: Result<HttpConfig, ConfigError>,
    address: String,
    n: nat,
)
    requires
        call_ensures(HttpConfig::from_env, (env, prefix, default_bind_addr, is_address), r),
        call_ensures(HttpConfig::bind_addr_from_env, (env, prefix, default_bind_addr), address),
    ensures
        address@ == match env.value(prefix@ + "_BIND_ADDR"@) {
            EnvText::Text(raw) => raw,
            _ => default_bind_addr@,
        },
        !is_address ==> r is Err,
        r matches Ok(config) ==> {
            &&& config.bind_addr@ == address@
            &&& 1 <= config.max_body_bytes <= 10 * 1024 * 1024
            &&& 0 < config.request_timeout@ <= 120_000_000_000
            &&& env.value(prefix@ + "_MAX_BODY_BYTES"@) is Unset ==> config.max_body_bytes == 64
                * 1024
            &&& env.value(prefix@ + "_MAX_BODY_BYTES"@) == EnvText::Text(crate::text::decimal(n))
                ==> config.max_body_bytes == n
            &&& env.value(prefix@ + "_REQUEST_TIMEOUT_SECS"@) is Unset ==> config.request_timeout@
                == 10_000_000_000
            &&& env.value(prefix@ + "_REQUEST_TIMEOUT_SECS"@) == EnvText::Text(
                crate::text::decimal(n),
            ) ==> config.request_timeout@ == n * 1_000_000_000
        },
{
    law_server_settings_come_from_their_variables(
        *env,
        prefix@,
        default_bind_addr@,
        is_address,
        n,
    );
    if r is Ok {
        law_server_settings_are_accepted_by_rule(r->Ok_0@, prefix@);
    }
}

/// They are valid by the same rules.
pub proof fn law_server_settings_are_checked(
    config: HttpConfig,
    prefix: &str,
    r: Result<(), ConfigError>,
)
    requires
        call_ensures(HttpConfig::validate, (&config, prefix), r),
    ensures
        r is Ok <==> 1 <= config.max_body_bytes <= 10 * 1024 * 1024 && 0 < config.request_timeout@
            <= 120_000_000_000,
{
    law_server_settings_are_accepted_by_rule(config@, prefix@);
}

/// The rules that the settings of a worker keep.
pub open spec fn fit_to_work(config: WorkerConfig) -> bool {
    &&& 1 <= config.concurrency <= 1000
    &&& 0 < config.poll_interval@ <= 60_000_000_000
    &&& 0 < config.lease_duration@ <= 3_600_000_000_000
    &&& "http://"@.is_prefix_of(config.charge_service_url@) || "https://"@.is_prefix_of(
        config.charge_service_url@,
    )
    &&& 0 < config.charge_request_timeout@ <= 120_000_000_000
    &&& 0 < config.retry_base_delay@ <= config.retry_max_delay@
    &&& config.retry_max_delay@ <= 3_600_000_000_000
    &&& 1 <= config.retry_multiplier
    &&& config.shutdown_grace@ <= 3_600_000_000_000
}

/// The settings of a worker are valid if and only if they keep the rules.
pub proof fn law_worker_settings_are_checked(config: WorkerConfig, r: Result<(), ConfigError>)
    requires
        call_ensures(WorkerConfig::validate, (&config,), r),
    ensures
        r is Ok <==> fit_to_work(config),
{
    law_worker_settings_are_accepted_by_rule(config@);
}

/// They are read from their variables, each with its own value where nothing is set, and are accepted
/// only if they keep the rules. The policy for retries is made of them.
pub proof fn law_worker_settings_are_read(
    env: &Environment,
    r: Result<WorkerConfig, ConfigError>,
    config: WorkerConfig,
    policy: RetryPolicy,
    n: nat,
)
    requires
        call_ensures(WorkerConfig::from_env, (env,), r),
        call_ensures(WorkerConfig::retry_policy, (&config,), policy),
    ensures
        policy.base_delay == config.retry_base_delay,
        policy.multiplier == config.retry_multiplier,
        policy.max_delay == config.retry_max_delay,
        env.value("WORKER_CHARGE_SERVICE_URL"@) !is Text ==> r is Err,
        r matches Ok(c) ==> {
            let given = EnvText::Text(crate::text::decimal(n));
            &&& fit_to_work(c)
            &&& env.value("WORKER_CHARGE_SERVICE_URL"@) == EnvText::Text(c.charge_service_url@)
            &&& env.value("WORKER_CONCURRENCY"@) is Unset ==> c.concurrency == 10
            &&& env.value("WORKER_CONCURRENCY"@) == given ==> c.concurrency == n
            &&& env.value("WORKER_POLL_INTERVAL_MS"@) is Unset ==> c.poll_interval@ == 250_000_000
            &&& env.value("WORKER_POLL_INTERVAL_MS"@) == given ==> c.poll_interval@ == n * 1_000_000
            &&& env.value("WORKER_LEASE_DURATION_SECS"@) is Unset ==> c.lease_duration@
                == 30_000_000_000
            &&& env.value("WORKER_LEASE_DURATION_SECS"@) == given ==> c.lease_duration@ == n
                * 1_000_000_000
            &&& env.value("WORKER_CHARGE_REQUEST_TIMEOUT_SECS"@) is Unset
                ==> c.charge_request_timeout@ == 10_000_000_000
            &&& env.value("WORKER_CHARGE_REQUEST_TIMEOUT_SECS"@) == given
                ==> c.charge_request_timeout@ == n * 1_000_000_000
            &&& env.value("WORKER_RETRY_BASE_DELAY_MS"@) is Unset ==> c.retry_base_delay@
                == 1_000_000_000
            &&& env.value("WORKER_RETRY_BASE_DELAY_MS"@) == given ==> c.retry_base_delay@ == n
                * 1_000_000
            &&& env.value("WORKER_RETRY_MULTIPLIER"@) is Unset ==> c.retry_multiplier == 2
            &&& env.value("WORKER_RETRY_MULTIPLIER"@) == given ==> c.retry_multiplier == n
            &&& env.value("WORKER_RETRY_MAX_DELAY_SECS"@) is Unset ==> c.retry_max_delay@
                == 60_000_000_000
            &&& env.value("WORKER_RETRY_MAX_DELAY_SECS"@) == given ==> c.retry_max_delay@ == n
                * 1_000_000_000
            &&& env.value("WORKER_SHUTDOWN_GRACE_SECS"@) is Unset ==> c.shutdown_grace@
                == 30_000_000_000
            &&& env.value("WORKER_SHUTDOWN_GRACE_SECS"@) == given ==> c.shutdown_grace@ == n
                * 1_000_000_000
        },
{
    law_worker_settings_come_from_their_variables(*env, n);
    if r is Ok {
        law_worker_settings_are_accepted_by_rule(r->Ok_0@);
    }
}

/// The error is about that variable.
pub open spec fn is_about(e: ConfigError, variable: Seq<char>) -> bool {
    match e@ {
        ConfigFault::Missing(name) => name == variable,
        ConfigFault::Invalid { name, .. } => name == variable,
    }
}

/// The variable is set to something other than a number up to `max`.
pub open spec fn no_number(env: Environment, name: Seq<char>, max: nat) -> bool {
    match env.value(name) {
        EnvText::Unset => false,
        EnvText::NotUnicode => true,
        EnvText::Text(raw) => !(crate::text::unsigned_value(trimmed(raw)) matches Some(n) && n <= max),
    }
}

/// The first rule that the settings of a worker break, by the variable that it is about.
pub open spec fn first_unfit(c: WorkerConfig) -> Option<Seq<char>> {
    if !(1 <= c.concurrency <= 1000) {
        Some("WORKER_CONCURRENCY"@)
    } else if !(0 < c.poll_interval@ <= 60_000_000_000) {
        Some("WORKER_POLL_INTERVAL_MS"@)
    } else if !(0 < c.lease_duration@ <= 3_600_000_000_000) {
        Some("WORKER_LEASE_DURATION_SECS"@)
    } else if !("http://"@.is_prefix_of(c.charge_service_url@) || "https://"@.is_prefix_of(
        c.charge_service_url@,
    )) {
        Some("WORKER_CHARGE_SERVICE_URL"@)
    } else if !(0 < c.charge_request_timeout@ <= 120_000_000_000) {
        Some("WORKER_CHARGE_REQUEST_TIMEOUT_SECS"@)
    } else if c.retry_base_delay@ == 0 {
        Some("WORKER_RETRY_BASE_DELAY_MS"@)
    } else if c.retry_multiplier == 0 {
        Some("WORKER_RETRY_MULTIPLIER"@)
    } else if !(0 < c.retry_max_delay@ <= 3_600_000_000_000) {
        Some("WORKER_RETRY_MAX_DELAY_SECS"@)
    } else if c.retry_base_delay@ > c.retry_max_delay@ {
        Some("WORKER_RETRY_BASE_DELAY_MS"@)
    } else if c.shutdown_grace@ > 3_600_000_000_000 {
        Some("WORKER_SHUTDOWN_GRACE_SECS"@)
    } else {
        None
    }
}

/// Of several broken rules of a worker the first is reported.
pub proof fn law_the_first_broken_rule_is_reported(config: WorkerConfig, e: ConfigError)
    requires
        call_ensures(WorkerConfig::validate, (&config,), Err(e)),
    ensures
        first_unfit(config) matches Some(name) && is_about(e, name),
{
}

/// The first variable of a worker that is unreadable or missing.
pub open spec fn first_unread(env: Environment) -> Option<Seq<char>> {
    if no_number(env, "WORKER_CONCURRENCY"@, usize::MAX as nat) {
        Some("WORKER_CONCURRENCY"@)
    } else if no_number(env, "WORKER_POLL_INTERVAL_MS"@, u64::MAX as nat) {
        Some("WORKER_POLL_INTERVAL_MS"@)
    } else if no_number(env, "WORKER_LEASE_DURATION_SECS"@, u64::MAX as nat) {
        Some("WORKER_LEASE_DURATION_SECS"@)
    } else if env.value("WORKER_CHARGE_SERVICE_URL"@) !is Text {
        Some("WORKER_CHARGE_SERVICE_URL"@)
    } else if no_number(env, "WORKER_CHARGE_REQUEST_TIMEOUT_SECS"@, u64::MAX as nat) {
        Some("WORKER_CHARGE_REQUEST_TIMEOUT_SECS"@)
    } else if no_number(env, "WORKER_RETRY_BASE_DELAY_MS"@, u64::MAX as nat) {
        Some("WORKER_RETRY_BASE_DELAY_MS"@)
    } else if no_number(env, "WORKER_RETRY_MULTIPLIER"@, u32::MAX as nat) {
        Some("WORKER_RETRY_MULTIPLIER"@)
    } else if no_number(env, "WORKER_RETRY_MAX_DELAY_SECS"@, u64::MAX as nat) {
        Some("WORKER_RETRY_MAX_DELAY_SECS"@)
    } else if no_number(env, "WORKER_SHUTDOWN_GRACE_SECS"@, u64::MAX as nat) {
        Some("WORKER_SHUTDOWN_GRACE_SECS"@)
    } else {
        None
    }
}

/// Of several variables of a worker that are unreadable or missing the first is reported, before any rule
/// that is broken; and where all are readable and every rule is kept, nothing is.
pub proof fn law_the_first_unreadable_variable_is_reported(
    env: &Environment,
    r: Result<WorkerConfig, ConfigError>,
)
    requires
        call_ensures(WorkerConfig::from_env, (env,), r),
    ensures
        first_unread(*env) matches Some(name) ==> (r matches Err(e) && is_about(e, name)),
        r is Ok ==> first_unread(*env) is None,
{
}

/// The settings of the database are missing, unreadable or broken in this order: the address first,
/// then the connections, then the timeout.
pub proof fn law_database_faults_are_reported_in_order(
    env: &Environment,
    r: Result<DatabaseConfig, ConfigError>,
    config: DatabaseConfig,
    v: Result<(), ConfigError>,
)
    requires
        call_ensures(DatabaseConfig::from_env, (env,), r),
        call_ensures(DatabaseConfig::validate, (&config,), v),
    ensures
        env.value("DATABASE_URL"@) !is Text ==> (r matches Err(e) && e@ == ConfigFault::Missing(
            "DATABASE_URL"@,
        )),
        env.value("DATABASE_URL"@) is Text ==> {
            &&& no_number(*env, "DATABASE_MAX_CONNECTIONS"@, u32::MAX as nat) ==> (r matches Err(e)
                && is_about(e, "DATABASE_MAX_CONNECTIONS"@))
            &&& !no_number(*env, "DATABASE_MAX_CONNECTIONS"@, u32::MAX as nat) && no_number(
                *env,
                "DATABASE_CONNECT_TIMEOUT_SECS"@,
                u64::MAX as nat,
            ) ==> (r matches Err(e) && is_about(e, "DATABASE_CONNECT_TIMEOUT_SECS"@))
        },
        v matches Err(e) ==> {
            let address = !crate::text::blank(config.url@) && ("postgres://"@.is_prefix_of(
                config.url@,
            ) || "postgresql://"@.is_prefix_of(config.url@));
            let connections = 1 <= config.max_connections <= 100;
            is_about(
                e,
                if !address {
                    "DATABASE_URL"@
                } else if !connections {
                    "DATABASE_MAX_CONNECTIONS"@
                } else {
                    "DATABASE_CONNECT_TIMEOUT_SECS"@
                },
            )
        },
{
}

/// An error of the configuration says which variable it is about, and what is wrong with it.
pub proof fn law_configuration_errors_are_worded(
    e: ConfigError,
    s: String,
    name: &str,
    reason: String,
    made: ConfigError,
)
    requires
        call_ensures(ConfigError::message, (&e,), s),
        call_ensures(invalid, (name, reason), made),
    ensures
        e@ matches ConfigFault::Missing(variable) ==> s@ == "missing required environment variable "@
            + variable,
        e@ matches ConfigFault::Invalid { name: variable, reason: why } ==> s@
            == "invalid value for "@ + variable + ": "@ + why,
        made@ == (ConfigFault::Invalid { name: name@, reason: reason@ }),
{
}

/// A number is read from a variable, white space around it aside, if it does not exceed the maximum; a
/// variable that is not set stands for the default.
pub proof fn law_numbers_are_read_from_variables(
    env: &Environment,
    key: &str,
    max: u64,
    default: u64,
    r: Result<u64, ConfigError>,
)
    requires
        call_ensures(parse_env, (env, key, max, default), r),
    ensures
        r is Err <==> no_number(*env, key@, max as nat),
        r matches Err(e) ==> is_about(e, key@),
        env.value(key@) is Unset ==> r == Ok::<u64, ConfigError>(default),
        env.value(key@) matches EnvText::Text(raw) ==> (r matches Ok(n)
            ==> crate::text::unsigned_value(trimmed(raw)) == Some(n as nat)),
{
}

/// Logs are written as JSON unless the variable asks for the pretty form; white space around it and the
/// case of its letters do not count, and anything else is refused.
pub proof fn law_log_formats_are_read(env: &Environment, r: Result<LogFormat, ConfigError>)
    requires
        call_ensures(LogFormat::from_env, (env,), r),
    ensures
        env.value("LOG_FORMAT"@) !is Text ==> (r matches Ok(format) && format is Json),
        env.value("LOG_FORMAT"@) matches EnvText::Text(raw) ==> {
            let name = trimmed(raw).map_values(|c: char| crate::text::lower(c));
            match r {
                Ok(format) => format is Json && name == "json"@ || format is Pretty && name
                    == "pretty"@,
                Err(_) => name != "json"@ && name != "pretty"@,
            }
        },
{
    reveal_strlit("json");
    reveal_strlit("pretty");
}

/// Tests may control the service if and only if the variable says `true` or `1`.
pub proof fn law_control_is_enabled_by_its_variable(env: &Environment, enabled: bool)
    requires
        call_ensures(test_control_enabled, (env,), enabled),
    ensures
        enabled <==> env.value("FAKE_CHARGE_ENABLE_TEST_CONTROL"@) == EnvText::Text("true"@)
            || env.value("FAKE_CHARGE_ENABLE_TEST_CONTROL"@) == EnvText::Text("1"@),
{
}

// ---------------------------------------------------------------------------------------------
// Text and places
// ---------------------------------------------------------------------------------------------

/// White space is what Unicode says it is, and is taken away at both ends of a text and nowhere else.
pub proof fn law_texts_are_trimmed(c: char, is_space: bool, s: &str, r: String, empty: bool) -> (cut: (
    int,
    int,
))
    requires
        call_ensures(is_white_space, (c,), is_space),
        call_ensures(trim, (s,), r),
        call_ensures(is_blank, (s,), empty),
    ensures
        ({
            let n = c as int;
            is_space <==> 0x9 <= n <= 0xd || n == 0x20 || n == 0x85 || n == 0xa0 || n == 0x1680
                || 0x2000 <= n <= 0x200a || n == 0x2028 || n == 0x2029 || n == 0x202f || n == 0x205f
                || n == 0x3000
        }),
        0 <= cut.0 <= cut.1 <= s@.len(),
        r@ == s@.subrange(cut.0, cut.1),
        forall|i: int| 0 <= i < cut.0 ==> white_space(#[trigger] s@[i]),
        forall|i: int| cut.1 <= i < s@.len() ==> white_space(#[trigger] s@[i]),
        r@.len() > 0 ==> !white_space(r@.first()) && !white_space(r@.last()),
        empty <==> forall|i: int| 0 <= i < s@.len() ==> white_space(#[trigger] s@[i]),
{
    law_trimming_takes_white_space_at_the_ends(s@)
}

/// A character is taken away at one end of a text, as often as it stands there.
pub proof fn law_characters_are_taken_away_at_an_end(
    s: &str,
    c: char,
    begun: String,
    ended: String,
) -> (taken: (int, int))
    requires
        call_ensures(trim_start_of, (s, c), begun),
        call_ensures(trim_end_of, (s, c), ended),
    ensures
        0 <= taken.0 <= s@.len() && 0 <= taken.1 <= s@.len(),
        begun@ == s@.skip(taken.0),
        forall|i: int| 0 <= i < taken.0 ==> #[trigger] s@[i] == c,
        begun@.len() > 0 ==> begun@.first() != c,
        ended@ == s@.take(taken.1),
        forall|i: int| taken.1 <= i < s@.len() ==> #[trigger] s@[i] == c,
        ended@.len() > 0 ==> ended@.last() != c,
{
    (lemma_taken_at_the_start(s@, c), lemma_taken_at_the_end(s@, c))
}

proof fn lemma_taken_at_the_start(s: Seq<char>, c: char) -> (n: int)
    ensures
        0 <= n <= s.len(),
        without_leading(s, c) == s.skip(n),
        forall|i: int| 0 <= i < n ==> #[trigger] s[i] == c,
        n < s.len() ==> s[n] != c,
    decreases s.len(),
{
    if s.len() > 0 && s[0] == c {
        let rest = s.drop_first();
        let n = lemma_taken_at_the_start(rest, c);
        assert(rest.skip(n) == s.skip(n + 1));
        assert forall|i: int| 0 <= i < n + 1 implies #[trigger] s[i] == c by {
            if i > 0 {
                assert(rest[i - 1] == c);
            }
        }
        n + 1
    } else {
        assert(s.skip(0) == s);
        0
    }
}

proof fn lemma_taken_at_the_end(s: Seq<char>, c: char) -> (n: int)
    ensures
        0 <= n <= s.len(),
        without_trailing(s, c) == s.take(n),
        forall|i: int| n <= i < s.len() ==> #[trigger] s[i] == c,
        n > 0 ==> s[n - 1] != c,
    decreases s.len(),
{
    if s.len() > 0 && s.last() == c {
        let rest = s.drop_last();
        let n = lemma_taken_at_the_end(rest, c);
        assert(rest.take(n) == s.take(n));
        assert forall|i: int| n <= i < s.len() implies #[trigger] s[i] == c by {
            if i < s.len() - 1 {
                assert(rest[i] == c);
            }
        }
        n
    } else {
        assert(s.take(s.len() as int) == s);
        s.len() as int
    }
}

/// Numbers are written with decimal digits, without zeros that are not needed, and read back from them,
/// up to the largest that is allowed.
pub proof fn law_numbers_are_written_and_read(
    n: u64,
    text: String,
    m: i64,
    signed: String,
    written: &str,
    max: u64,
    r: Option<u64>,
)
    requires
        call_ensures(decimal_text, (n,), text),
        written@ == text@,
        call_ensures(signed_text, (m,), signed),
        call_ensures(parse_unsigned, (written, max), r),
    ensures
        text@.len() >= 1,
        forall|i: int| 0 <= i < text@.len() ==> '0' <= #[trigger] text@[i] <= '9',
        text@[0] == '0' ==> n == 0 && text@.len() == 1,
        m >= 0 ==> signed@ == crate::text::decimal(m as nat),
        m < 0 ==> signed@ == seq!['-'] + crate::text::decimal((-m) as nat),
        r == if n <= max { Some(n) } else { None::<u64> },
{
    lemma_plain_digits(n as nat);
    law_decimal_round_trip(n as nat);
}

proof fn lemma_plain_digits(n: nat)
    ensures
        crate::text::decimal(n).len() >= 1,
        forall|i: int|
            0 <= i < crate::text::decimal(n).len() ==> '0' <= #[trigger] crate::text::decimal(n)[i]
                <= '9',
        crate::text::decimal(n)[0] == '0' ==> n == 0 && crate::text::decimal(n).len() == 1,
    decreases n,
{
    if n >= 10 {
        lemma_plain_digits(n / 10);
    }
}

/// Capital letters are made small, and all else stays.
pub proof fn law_capitals_are_made_small(s: &str, r: String, i: int)
    requires
        call_ensures(to_ascii_lowercase, (s,), r),
        0 <= i < s@.len(),
    ensures
        r@.len() == s@.len(),
        'A' <= s@[i] <= 'Z' ==> r@[i] as int == s@[i] as int + 32,
        !('A' <= s@[i] <= 'Z') ==> r@[i] == s@[i],
{
}

/// A cursor names its place, and is read back to it as long as that has a year of four digits. What
/// names no place is refused.
pub proof fn law_cursors_are_written_and_read(
    created_at: Timestamp,
    id: u128,
    cursor: String,
    given: &str,
    r: Result<(Timestamp, u128), ApiError>,
)
    requires
        call_ensures(encode_cursor, (created_at, id), cursor),
        call_ensures(decode_cursor, (given,), r),
        -62_167_219_200 <= created_at.secs <= 253_402_300_799,
        given@ == cursor@,
        created_at.nanos < 1_000_000_000,
    ensures
        r == Ok::<(Timestamp, u128), ApiError>((created_at, id)),
{
}

/// A text is parted at its first bar.
pub proof fn law_texts_are_parted_at_the_first_bar(s: &str, r: Option<(String, String)>)
    requires
        call_ensures(split_at_bar, (s,), r),
    ensures
        r is Some <==> s@.contains('|'),
        r matches Some(parts) ==> s@ == parts.0@ + seq!['|'] + parts.1@ && !parts.0@.contains('|'),
{
    law_first_places_come_first(s@, '|');
    let at = first_place(s@, '|');
    if s@.contains('|') {
        let i = s@.index_of('|');
        assert(s@[i] == '|');
    }
    if r is Some {
        assert(s@ == s@.take(at) + seq!['|'] + s@.skip(at + 1));
    }
}

} // verus!
