//! User-visible shaping of outcomes: the message of each error, the HTTP
//! status code of each result, and the fixed health answer.

use vstd::prelude::*;

use crate::form::{SubmissionResponse, SubmissionResponseView};
use crate::submit::{submit_result_view, SubmitError, SubmitErrorView};
use crate::validate::ValidationError;

verus! {

/// The message of each validation rule, as the client sees it.
pub open spec fn validation_message_spec(e: ValidationError) -> Seq<char> {
    match e {
        ValidationError::EmptyName => "Name cannot be empty"@,
        ValidationError::NameTooLong => "Name is too long (max 100 characters)"@,
        ValidationError::EmptyEmail => "Email cannot be empty"@,
        ValidationError::InvalidEmail => "Invalid email format"@,
        ValidationError::EmailTooLong => "Email is too long (max 255 characters)"@,
        ValidationError::EmptyMessage => "Message cannot be empty"@,
        ValidationError::MessageTooLong => "Message is too long (max 1000 characters)"@,
    }
}

impl ValidationError {
    /// The rule's message, exactly as [`validation_message_spec`] states it.
    pub fn message(&self) -> (m: String)
        ensures
            m@ == validation_message_spec(*self),
    {
        match self {
            ValidationError::EmptyName => "Name cannot be empty".to_owned(),
            ValidationError::NameTooLong => "Name is too long (max 100 characters)".to_owned(),
            ValidationError::EmptyEmail => "Email cannot be empty".to_owned(),
            ValidationError::InvalidEmail => "Invalid email format".to_owned(),
            ValidationError::EmailTooLong => "Email is too long (max 255 characters)".to_owned(),
            ValidationError::EmptyMessage => "Message cannot be empty".to_owned(),
            ValidationError::MessageTooLong => "Message is too long (max 1000 characters)".to_owned(),
        }
    }
}

/// The body of the error response for each failed submission: the specific
/// rule message for a rejected input, the shaped storage message for a
/// persistence failure, and a fixed generic message for the store breaking
/// its one-record contract.
pub open spec fn error_message_spec(e: SubmitErrorView) -> Seq<char> {
    match e {
        SubmitErrorView::Validation(v) => validation_message_spec(v),
        SubmitErrorView::Storage(m) => m,
        SubmitErrorView::Internal => "Internal error: no record was created"@,
    }
}

impl SubmitError {
    /// The error's message, exactly as [`error_message_spec`] states it.
    pub fn message(&self) -> (m: String)
        ensures
            m@ == error_message_spec(self@),
    {
        match self {
            SubmitError::Validation(v) => v.message(),
            SubmitError::Storage(s) => s.clone(),
            SubmitError::Internal => "Internal error: no record was created".to_owned(),
        }
    }
}

/// The body of every failure answer: a single human-readable message.
#[derive(Debug)]
pub struct ErrorResponse {
    pub error: String,
}

/// The failure body for an error: exactly the error's message.
pub fn error_response(e: &SubmitError) -> (r: ErrorResponse)
    ensures
        r.error@ == error_message_spec(e@),
{
    ErrorResponse { error: e.message() }
}

/// The HTTP status of a submission result: success is 200, a validation
/// failure is the client's fault (400), and both storage failures and the
/// store's broken contract are server faults (500).
pub open spec fn status_spec(r: Result<SubmissionResponseView, SubmitErrorView>) -> u16 {
    match r {
        Ok(_) => 200u16,
        Err(SubmitErrorView::Validation(_)) => 400u16,
        Err(SubmitErrorView::Storage(_)) => 500u16,
        Err(SubmitErrorView::Internal) => 500u16,
    }
}

/// The HTTP status code of a submission result, exactly as [`status_spec`]
/// states it.
pub fn http_status(r: &Result<SubmissionResponse, SubmitError>) -> (s: u16)
    ensures
        s == status_spec(submit_result_view(*r)),
{
    match r {
        Ok(_) => 200,
        Err(SubmitError::Validation(_)) => 400,
        Err(SubmitError::Storage(_)) => 500,
        Err(SubmitError::Internal) => 500,
    }
}

/// The fixed body of the health answer.
#[derive(Debug)]
pub struct HealthResponse {
    pub status: String,
    pub message: String,
}

/// The health answer, the same whatever happened before: status `"ok"`,
/// message `"Server is running"`.
pub fn health_response() -> (h: HealthResponse)
    ensures
        h.status@ == "ok"@,
        h.message@ == "Server is running"@,
{
    HealthResponse { status: "ok".to_owned(), message: "Server is running".to_owned() }
}

/// The HTTP status of the health answer: always 200.
pub fn health_status() -> (s: u16)
    ensures
        s == 200u16,
{
    200
}

} // verus!
