//! The errors that a request is answered with: an HTTP status, a stable code and a message.

use crate::db::jobs::RepoError;
use crate::validation::ValidationError;
use vstd::prelude::*;

verus! {

#[derive(Debug)]
pub struct ApiError {
    pub status: u16,
    pub code: &'static str,
    pub message: String,
}

/// What an [`ApiError`] says.
#[verifier::ext_equal]
pub struct ApiFault {
    pub status: u16,
    pub code: Seq<char>,
    pub message: Seq<char>,
}

impl View for ApiError {
    type V = ApiFault;

    open spec fn view(&self) -> ApiFault {
        ApiFault { status: self.status, code: self.code@, message: self.message@ }
    }
}

impl ApiFault {
    pub open spec fn invalid_argument(message: Seq<char>) -> ApiFault {
        ApiFault { status: 400, code: "INVALID_ARGUMENT"@, message }
    }

    pub open spec fn not_found(message: Seq<char>) -> ApiFault {
        ApiFault { status: 404, code: "NOT_FOUND"@, message }
    }

    pub open spec fn invalid_state(message: Seq<char>) -> ApiFault {
        ApiFault { status: 409, code: "INVALID_STATE"@, message }
    }

    pub open spec fn internal(message: Seq<char>) -> ApiFault {
        ApiFault { status: 500, code: "INTERNAL"@, message }
    }

    /// What the client learns of a failure of the store.
    pub open spec fn repository() -> ApiFault {
        ApiFault::internal("internal error"@)
    }
}

impl ApiError {
    pub fn new(status: u16, code: &'static str, message: String) -> (e: Self)
        ensures
            e@ == (ApiFault { status, code: code@, message: message@ }),
    {
        ApiError { status, code, message }
    }

    /// 400: the request itself is at fault.
    pub fn invalid_argument(message: String) -> (e: Self)
        ensures
            e@ == ApiFault::invalid_argument(message@),
    {
        Self::new(400, "INVALID_ARGUMENT", message)
    }

    /// 404: there is no such thing.
    pub fn not_found(message: String) -> (e: Self)
        ensures
            e@ == ApiFault::not_found(message@),
    {
        Self::new(404, "NOT_FOUND", message)
    }

    /// 409: the request does not fit the state of things.
    pub fn invalid_state(message: String) -> (e: Self)
        ensures
            e@ == ApiFault::invalid_state(message@),
    {
        Self::new(409, "INVALID_STATE", message)
    }

    /// 500: something went wrong on this side.
    pub fn internal(message: String) -> (e: Self)
        ensures
            e@ == ApiFault::internal(message@),
    {
        Self::new(500, "INTERNAL", message)
    }

    /// The client learns that the store failed, and no more than that.
    pub fn from_repo_error(_err: RepoError) -> (e: Self)
        ensures
            e@ == ApiFault::repository(),
    {
        Self::internal("internal error".to_string())
    }

    pub fn from_validation_error(err: ValidationError) -> (e: Self)
        ensures
            e@ == ApiFault::invalid_argument(err.text()),
    {
        Self::invalid_argument(err.message())
    }
}

/// What the client is told of an error. The request is named, so that it can be found in the logs.
#[derive(Debug)]
pub struct ErrorDetail {
    pub code: &'static str,
    pub message: String,
    pub request_id: String,
}

/// The envelope in which an error is sent.
#[derive(Debug)]
pub struct ErrorBody {
    pub error: ErrorDetail,
}

/// The body of the answer to a request that failed.
pub fn error_body(err: ApiError, request_id: String) -> (body: ErrorBody)
    ensures
        body.error.code@ == err@.code,
        body.error.message@ == err@.message,
        body.error.request_id@ == request_id@,
{
    ErrorBody { error: ErrorDetail { code: err.code, message: err.message, request_id } }
}

/// Every kind of error has its status and its stable code, and passes its message on. Of a failure of
/// the store the client learns nothing but that something went wrong.
pub proof fn law_errors_have_their_status_and_code(message: Seq<char>)
    ensures
        ApiFault::invalid_argument(message).status == 400,
        ApiFault::invalid_argument(message).code == "INVALID_ARGUMENT"@,
        ApiFault::invalid_argument(message).message == message,
        ApiFault::not_found(message).status == 404,
        ApiFault::not_found(message).code == "NOT_FOUND"@,
        ApiFault::not_found(message).message == message,
        ApiFault::invalid_state(message).status == 409,
        ApiFault::invalid_state(message).code == "INVALID_STATE"@,
        ApiFault::invalid_state(message).message == message,
        ApiFault::internal(message).status == 500,
        ApiFault::internal(message).code == "INTERNAL"@,
        ApiFault::internal(message).message == message,
        ApiFault::repository().status == 500,
        ApiFault::repository().code == "INTERNAL"@,
        ApiFault::repository().message == "internal error"@,
{
}

} // verus!
