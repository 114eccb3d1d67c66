//! `POST /v1/charges`.

use crate::db::charges::{charge_for, has_charge, insert_charge, ChargeRecord, ChargeStore};
use crate::fake_charge::error::{ApiError, ApiFault};
use crate::text::{trim, trimmed};
use crate::time::Timestamp;
use crate::validation::{parse_charge_payload, payload_fault, ChargePayload, ValidationError};
use vstd::prelude::*;

verus! {

/// What a request says in a header.
#[derive(Debug)]
pub enum HeaderText {
    Absent,
    /// Bytes that are not text.
    Opaque,
    Text(String),
}

#[derive(Debug)]
pub struct ChargeResponse {
    pub id: u128,
    pub idempotency_key: String,
    pub customer_id: String,
    pub amount_cents: i64,
    pub currency: String,
    pub created_at: Timestamp,
    pub replayed: bool,
}

impl ChargeResponse {
    /// The charge that the answer speaks of.
    pub open spec fn charge(self) -> ChargeRecord {
        ChargeRecord {
            id: self.id,
            idempotency_key: self.idempotency_key@,
            customer_id: self.customer_id@,
            amount_cents: self.amount_cents,
            currency: self.currency@,
            created_at: self.created_at,
        }
    }
}

/// The key that the header holds, without white space around it.
pub open spec fn header_key(header: HeaderText) -> Result<Seq<char>, ApiFault> {
    match header {
        HeaderText::Absent => Err(
            ApiFault::invalid_argument("Idempotency-Key header is required"@),
        ),
        HeaderText::Opaque => Err(
            ApiFault::invalid_argument("Idempotency-Key header must be valid UTF-8"@),
        ),
        HeaderText::Text(text) => if trimmed(text@).len() == 0 {
            Err(ApiFault::invalid_argument("Idempotency-Key header must not be empty"@))
        } else {
            Ok(trimmed(text@))
        },
    }
}

/// The key of a request, from its `Idempotency-Key` header.
pub fn idempotency_key(header: &HeaderText) -> (r: Result<String, ApiError>)
    ensures
        match header_key(*header) {
            Ok(key) => r matches Ok(k) && k@ == key,
            Err(fault) => r matches Err(e) && e@ == fault,
        },
{
    match header {
        HeaderText::Absent => Err(
            ApiError::invalid_argument("Idempotency-Key header is required".to_string()),
        ),
        HeaderText::Opaque => Err(
            ApiError::invalid_argument("Idempotency-Key header must be valid UTF-8".to_string()),
        ),
        HeaderText::Text(text) => {
            let key = trim(text);
            if key.as_str().is_empty() {
                Err(
                    ApiError::invalid_argument(
                        "Idempotency-Key header must not be empty".to_string(),
                    ),
                )
            } else {
                Ok(key)
            }
        },
    }
}

/// What is wrong with a charge request, apart from what is stored.
pub open spec fn request_fault(
    header: HeaderText,
    decoded: Result<ChargePayload, String>,
) -> Option<ApiFault> {
    match header_key(header) {
        Err(fault) => Some(fault),
        Ok(_) => match decoded {
            Err(detail) => Some(
                ApiFault::invalid_argument(ValidationError::InvalidPayloadShape(detail).text()),
            ),
            Ok(payload) => match payload_fault(payload) {
                Some(fault) => Some(ApiFault::invalid_argument(fault.text())),
                None => None,
            },
        },
    }
}

/// Checks a charge request and records the charge under `id`. `decoded` is the body read as a charge.
/// The answer has the status 201. A key that is in use is an internal error: the store refuses a
/// second charge under it.
pub fn create_charge(
    store: &mut ChargeStore,
    header: &HeaderText,
    decoded: Result<ChargePayload, String>,
    id: u128,
    now: Timestamp,
) -> (r: Result<(u16, ChargeResponse), ApiError>)
    ensures
        match request_fault(*header, decoded) {
            Some(fault) => {
                &&& r matches Err(e) && e@ == fault
                &&& *final(store) == *old(store)
            },
            None => {
                let key = header_key(*header)->Ok_0;
                let payload = decoded->Ok_0;
                if charge_for(old(store)@, key) is Some || has_charge(old(store)@, id) {
                    &&& r matches Err(e) && e@ == ApiFault::repository()
                    &&& *final(store) == *old(store)
                } else {
                    let charge = ChargeRecord {
                        id,
                        idempotency_key: key,
                        customer_id: payload.customer_id@,
                        amount_cents: payload.amount_cents,
                        currency: payload.currency@,
                        created_at: now,
                    };
                    &&& final(store)@ == old(store)@.push(charge)
                    &&& r matches Ok(answer) && answer.0 == 201 && answer.1.charge() == charge
                        && !answer.1.replayed
                }
            },
        },
{
    let key = idempotency_key(header)?;
    let payload = match parse_charge_payload(decoded) {
        Ok(payload) => payload,
        Err(e) => {
            return Err(ApiError::from_validation_error(e));
        },
    };
    match insert_charge(
        store,
        id,
        &key,
        &payload.customer_id,
        payload.amount_cents,
        &payload.currency,
        now,
    ) {
        Ok(row) => Ok(
            (
                201,
                ChargeResponse {
                    id: row.id,
                    idempotency_key: row.idempotency_key,
                    customer_id: row.customer_id,
                    amount_cents: row.amount_cents,
                    currency: row.currency,
                    created_at: row.created_at,
                    replayed: false,
                },
            ),
        ),
        Err(e) => Err(ApiError::from_repo_error(e)),
    }
}

/// Which key a request has: what stands in its header, without white space around it. A request without
/// one, or with a blank one, is refused with the status 400.
pub proof fn law_keys_are_what_stands_in_the_header(header: HeaderText)
    ensures
        header is Absent || header is Opaque ==> (header_key(header) matches Err(fault)
            && fault.status == 400),
        header matches HeaderText::Text(text) ==> {
            &&& header_key(header) is Ok <==> exists|i: int|
                0 <= i < text@.len() && !crate::text::white_space(#[trigger] text@[i])
            &&& header_key(header) matches Ok(key) ==> key == trimmed(text@)
            &&& header_key(header) matches Err(fault) ==> fault.status == 400
        },
{
    if header is Text {
        crate::text::law_blank_iff_trimmed_to_nothing(header->Text_0@);
    }
}

/// A request to charge is in order if and only if it has a key and its body is a charge that follows the
/// rules. What is wrong with any other is the client's fault.
pub proof fn law_charge_requests_are_accepted_by_rule(
    header: HeaderText,
    decoded: Result<ChargePayload, String>,
)
    ensures
        request_fault(header, decoded) is None <==> header_key(header) is Ok && (
        decoded matches Ok(payload) && payload_fault(payload) is None),
        request_fault(header, decoded) matches Some(fault) ==> fault.status == 400 && fault.code
            == "INVALID_ARGUMENT"@,
        header_key(header) matches Err(fault) ==> request_fault(header, decoded) == Some(fault),
{
    law_keys_are_what_stands_in_the_header(header);
}

/// An answer speaks of the charge that its fields hold.
pub proof fn law_answers_speak_of_their_charge(answer: ChargeResponse)
    ensures
        answer.charge().id == answer.id,
        answer.charge().idempotency_key == answer.idempotency_key@,
        answer.charge().customer_id == answer.customer_id@,
        answer.charge().amount_cents == answer.amount_cents,
        answer.charge().currency == answer.currency@,
        answer.charge().created_at == answer.created_at,
{
}

} // verus!
