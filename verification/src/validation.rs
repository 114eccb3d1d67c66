//! The rules for what may be submitted. The same rules hold when a worker reads the payload back, so
//! that what was accepted can be executed.

use crate::text::{blank, chars_of, decimal, decimal_text, is_blank, join2, join3};
use vstd::prelude::*;

verus! {

/// The most characters that a kind may have.
pub const MAX_KIND_LEN: usize = 64;

/// The most characters that a customer identifier may have.
pub const MAX_CUSTOMER_ID_LEN: usize = 128;

pub const MIN_MAX_ATTEMPTS: i32 = 1;

pub const MAX_MAX_ATTEMPTS: i32 = 20;

/// The payload of a charge job.
#[derive(Debug, Clone, PartialEq, Eq)]
pub struct ChargePayload {
    pub customer_id: String,
    pub amount_cents: i64,
    pub currency: String,
}

#[derive(Debug, PartialEq, Eq)]
pub enum ValidationError {
    EmptyKind,
    KindTooLong,
    InvalidPayloadShape(String),
    EmptyCustomerId,
    CustomerIdTooLong,
    NonPositiveAmount,
    InvalidCurrency,
    MaxAttemptsOutOfRange,
}

impl ValidationError {
    /// The error in words.
    pub open spec fn text(self) -> Seq<char> {
        match self {
            ValidationError::EmptyKind => "kind must not be empty"@,
            ValidationError::KindTooLong => "kind must be at most "@ + decimal(64) + " characters"@,
            ValidationError::InvalidPayloadShape(detail) =>
                "payload does not match the expected charge shape: "@ + detail@,
            ValidationError::EmptyCustomerId => "payload.customer_id must not be empty"@,
            ValidationError::CustomerIdTooLong => "payload.customer_id must be at most "@ + decimal(
                128,
            ) + " characters"@,
            ValidationError::NonPositiveAmount => "payload.amount_cents must be positive"@,
            ValidationError::InvalidCurrency =>
                "payload.currency must be a three-letter uppercase ISO 4217 code"@,
            ValidationError::MaxAttemptsOutOfRange => "max_attempts must be between "@ + decimal(1)
                + " and "@ + decimal(20),
        }
    }

    pub fn message(&self) -> (s: String)
        ensures
            s@ == self.text(),
    {
        match self {
            ValidationError::EmptyKind => "kind must not be empty".to_string(),
            ValidationError::KindTooLong => join3(
                "kind must be at most ",
                &decimal_text(MAX_KIND_LEN as u64),
                " characters",
            ),
            ValidationError::InvalidPayloadShape(detail) => join2(
                "payload does not match the expected charge shape: ",
                detail,
            ),
            ValidationError::EmptyCustomerId => "payload.customer_id must not be empty".to_string(),
            ValidationError::CustomerIdTooLong => join3(
                "payload.customer_id must be at most ",
                &decimal_text(MAX_CUSTOMER_ID_LEN as u64),
                " characters",
            ),
            ValidationError::NonPositiveAmount =>
                "payload.amount_cents must be positive".to_string(),
            ValidationError::InvalidCurrency =>
                "payload.currency must be a three-letter uppercase ISO 4217 code".to_string(),
            ValidationError::MaxAttemptsOutOfRange => join2(
                &join3("max_attempts must be between ", &decimal_text(1), " and "),
                &decimal_text(MAX_MAX_ATTEMPTS as u64),
            ),
        }
    }
}

/// What is wrong with the kind of a job.
pub open spec fn kind_fault(kind: Seq<char>) -> Option<ValidationError> {
    if blank(kind) {
        Some(ValidationError::EmptyKind)
    } else if kind.len() > 64 {
        Some(ValidationError::KindTooLong)
    } else {
        None
    }
}

pub fn validate_kind(kind: &str) -> (r: Result<(), ValidationError>)
    ensures
        match kind_fault(kind@) {
            None => r is Ok,
            Some(e) => r == Err::<(), ValidationError>(e),
        },
{
    if is_blank(kind) {
        return Err(ValidationError::EmptyKind);
    }
    if chars_of(kind).len() > MAX_KIND_LEN {
        return Err(ValidationError::KindTooLong);
    }
    Ok(())
}

pub fn validate_max_attempts(max_attempts: i32) -> (r: Result<(), ValidationError>)
    ensures
        1 <= max_attempts <= 20 ==> r is Ok,
        !(1 <= max_attempts <= 20) ==> r == Err::<(), ValidationError>(
            ValidationError::MaxAttemptsOutOfRange,
        ),
{
    if max_attempts < MIN_MAX_ATTEMPTS || max_attempts > MAX_MAX_ATTEMPTS {
        return Err(ValidationError::MaxAttemptsOutOfRange);
    }
    Ok(())
}

/// Three ASCII capitals.
pub open spec fn currency_code(s: Seq<char>) -> bool {
    s.len() == 3 && 'A' <= s[0] <= 'Z' && 'A' <= s[1] <= 'Z' && 'A' <= s[2] <= 'Z'
}

fn is_currency_code(s: &str) -> (r: bool)
    ensures
        r == currency_code(s@),
{
    let x = chars_of(s);
    x.len() == 3 && is_capital(x[0]) && is_capital(x[1]) && is_capital(x[2])
}

fn is_capital(c: char) -> (r: bool)
    ensures
        r == ('A' <= c <= 'Z'),
{
    c >= 'A' && c <= 'Z'
}

/// What is wrong with a charge payload.
pub open spec fn payload_fault(payload: ChargePayload) -> Option<ValidationError> {
    if blank(payload.customer_id@) {
        Some(ValidationError::EmptyCustomerId)
    } else if payload.customer_id@.len() > 128 {
        Some(ValidationError::CustomerIdTooLong)
    } else if payload.amount_cents <= 0 {
        Some(ValidationError::NonPositiveAmount)
    } else if !currency_code(payload.currency@) {
        Some(ValidationError::InvalidCurrency)
    } else {
        None
    }
}

pub fn validate_charge_payload(payload: &ChargePayload) -> (r: Result<(), ValidationError>)
    ensures
        match payload_fault(*payload) {
            None => r is Ok,
            Some(e) => r == Err::<(), ValidationError>(e),
        },
{
    if is_blank(&payload.customer_id) {
        return Err(ValidationError::EmptyCustomerId);
    }
    if chars_of(&payload.customer_id).len() > MAX_CUSTOMER_ID_LEN {
        return Err(ValidationError::CustomerIdTooLong);
    }
    if payload.amount_cents <= 0 {
        return Err(ValidationError::NonPositiveAmount);
    }
    if !is_currency_code(&payload.currency) {
        return Err(ValidationError::InvalidCurrency);
    }
    Ok(())
}

/// Checks a payload that was decoded from JSON, or passes on why it could not be decoded. An accepted
/// payload is handed back as it is, so that reading it again gives the same.
pub fn parse_charge_payload(decoded: Result<ChargePayload, String>) -> (r: Result<
    ChargePayload,
    ValidationError,
>)
    ensures
        match decoded {
            Err(detail) => r == Err::<ChargePayload, ValidationError>(
                ValidationError::InvalidPayloadShape(detail),
            ),
            Ok(payload) => match payload_fault(payload) {
                None => r == Ok::<ChargePayload, ValidationError>(payload),
                Some(e) => r == Err::<ChargePayload, ValidationError>(e),
            },
        },
{
    match decoded {
        Err(detail) => Err(ValidationError::InvalidPayloadShape(detail)),
        Ok(payload) => {
            validate_charge_payload(&payload)?;
            Ok(payload)
        },
    }
}

/// A kind is accepted if and only if something other than white space stands in it and it has at most 64
/// characters. One of the two is what is wrong with any other.
pub proof fn law_kinds_are_accepted_by_rule(kind: Seq<char>)
    ensures
        kind_fault(kind) is None <==> {
            &&& kind.len() <= 64
            &&& exists|i: int| 0 <= i < kind.len() && !crate::text::white_space(#[trigger] kind[i])
        },
        kind_fault(kind) == Some(ValidationError::EmptyKind) <==> forall|i: int|
            0 <= i < kind.len() ==> crate::text::white_space(#[trigger] kind[i]),
        kind_fault(kind) == Some(ValidationError::KindTooLong) ==> kind.len() > 64,
{
}

/// A charge is accepted if and only if its customer is not blank and has at most 128 characters, its
/// amount is positive, and its currency is three capital letters. What is wrong with any other is one
/// of these rules that it breaks.
pub proof fn law_payloads_are_accepted_by_rule(payload: ChargePayload)
    ensures
        payload_fault(payload) is None <==> {
            &&& exists|i: int|
                0 <= i < payload.customer_id@.len() && !crate::text::white_space(
                    #[trigger] payload.customer_id@[i],
                )
            &&& payload.customer_id@.len() <= 128
            &&& payload.amount_cents > 0
            &&& payload.currency@.len() == 3
            &&& forall|i: int| 0 <= i < 3 ==> 'A' <= (#[trigger] payload.currency@[i]) <= 'Z'
        },
        payload_fault(payload) == Some(ValidationError::EmptyCustomerId) <==> forall|i: int|
            0 <= i < payload.customer_id@.len() ==> crate::text::white_space(
                #[trigger] payload.customer_id@[i],
            ),
        payload_fault(payload) == Some(ValidationError::CustomerIdTooLong)
            ==> payload.customer_id@.len() > 128,
        payload_fault(payload) == Some(ValidationError::NonPositiveAmount) ==> payload.amount_cents
            <= 0,
        payload_fault(payload) == Some(ValidationError::InvalidCurrency) ==> {
            ||| payload.currency@.len() != 3
            ||| exists|i: int| 0 <= i < 3 && !('A' <= (#[trigger] payload.currency@[i]) <= 'Z')
        },
        payload_fault(payload) matches Some(e) ==> e is EmptyCustomerId || e is CustomerIdTooLong
            || e is NonPositiveAmount || e is InvalidCurrency,
{
    let c = payload.currency@;
    if c.len() == 3 {
        assert(currency_code(c) <==> ('A' <= c[0] <= 'Z' && 'A' <= c[1] <= 'Z' && 'A' <= c[2]
            <= 'Z'));
        if currency_code(c) {
            assert forall|i: int| 0 <= i < 3 implies 'A' <= (#[trigger] c[i]) <= 'Z' by {
                assert(i == 0 || i == 1 || i == 2);
            }
        }
    }
}

} // verus!
