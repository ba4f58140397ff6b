//! The answer that the API gives to each error: a status code and a body.

use vstd::prelude::*;
use vstd::string::*;
use crate::domain::ValidationErrors;
use crate::service::ServiceError;
use crate::text::{decimal_text, push_decimal};
use super::http::{BAD_REQUEST, INTERNAL_SERVER_ERROR, NOT_FOUND};

verus! {

/// A body that holds only a message.
#[derive(Debug)]
pub struct ErrorResponse {
    pub message: String,
}

/// A body that holds a message and, when there are any, the messages of a
/// failed validation by field.
#[derive(Debug)]
pub struct ValidationErrorResponse {
    pub message: String,
    pub errors: ValidationErrors,
}

/// The body of an error answer.
#[derive(Debug)]
pub enum ErrorBody {
    Message(ErrorResponse),
    Validation(ValidationErrorResponse),
}

/// An error answer: a status code and a body.
#[derive(Debug)]
pub struct ErrorReply {
    pub status: u16,
    pub body: ErrorBody,
}

/// An error of the HTTP layer: one of the service, or a body that could not
/// be read as the request expects.
#[derive(Debug)]
pub enum ApiError {
    Service(ServiceError),
    MalformedBody(String),
}

impl From<ServiceError> for ApiError {
    fn from(error: ServiceError) -> (r: Self) {
        ApiError::Service(error)
    }
}

impl vstd::std_specs::convert::FromSpecImpl<ServiceError> for ApiError {
    open spec fn obeys_from_spec() -> bool {
        true
    }

    open spec fn from_spec(v: ServiceError) -> Self {
        ApiError::Service(v)
    }
}

/// An error of the HTTP layer in a flat form: a missing person, a failed
/// validation, an unreadable body, or a failure inside.
#[derive(Debug)]
pub enum AppError {
    NotFound(i32),
    Validation(ValidationErrors),
    MalformedBody(String),
    Internal(String),
}

/// The message that a missing person is answered with.
pub open spec fn not_found_text(id: i32) -> Seq<char> {
    "Person with id "@ + decimal_text(id as int) + " not found"@
}

/// `Person with id {id} not found`.
pub fn not_found_message(id: i32) -> (r: String)
    ensures
        r@ == not_found_text(id),
{
    let mut message = "Person with id ".to_owned();
    push_decimal(&mut message, id);
    message.append(" not found");
    message
}

/// The answer to a missing person: `404` with the message.
pub open spec fn is_not_found_reply(r: ErrorReply, id: i32) -> bool {
    &&& r.status == NOT_FOUND
    &&& r.body matches ErrorBody::Message(body) && body.message@ == not_found_text(id)
}

/// The answer to a failed validation: `400` with `Validation failed` and
/// the messages by field.
pub open spec fn is_validation_reply(r: ErrorReply, errors: ValidationErrors) -> bool {
    &&& r.status == BAD_REQUEST
    &&& r.body matches ErrorBody::Validation(body) && body.message@ == "Validation failed"@
        && body.errors == errors
}

/// The answer to a body that could not be read: `400` with the reason and
/// no messages by field.
pub open spec fn is_malformed_reply(r: ErrorReply, message: String) -> bool {
    &&& r.status == BAD_REQUEST
    &&& r.body matches ErrorBody::Validation(body) && body.message == message && body.errors@
        == Map::<Seq<char>, Seq<char>>::empty()
}

/// The answer to a failure inside: `500` with `Internal server error`; the
/// cause is not shown.
pub open spec fn is_internal_reply(r: ErrorReply) -> bool {
    &&& r.status == INTERNAL_SERVER_ERROR
    &&& r.body matches ErrorBody::Message(body) && body.message@ == "Internal server error"@
}

fn not_found_reply(id: i32) -> (r: ErrorReply)
    ensures
        is_not_found_reply(r, id),
{
    ErrorReply {
        status: NOT_FOUND,
        body: ErrorBody::Message(ErrorResponse { message: not_found_message(id) }),
    }
}

fn validation_reply(errors: ValidationErrors) -> (r: ErrorReply)
    ensures
        is_validation_reply(r, errors),
{
    ErrorReply {
        status: BAD_REQUEST,
        body: ErrorBody::Validation(
            ValidationErrorResponse { message: "Validation failed".to_owned(), errors },
        ),
    }
}

fn malformed_reply(message: String) -> (r: ErrorReply)
    ensures
        is_malformed_reply(r, message),
{
    ErrorReply {
        status: BAD_REQUEST,
        body: ErrorBody::Validation(
            ValidationErrorResponse { message, errors: ValidationErrors::new() },
        ),
    }
}

fn internal_reply() -> (r: ErrorReply)
    ensures
        is_internal_reply(r),
{
    ErrorReply {
        status: INTERNAL_SERVER_ERROR,
        body: ErrorBody::Message(ErrorResponse { message: "Internal server error".to_owned() }),
    }
}

impl ApiError {
    /// The answer to this error.
    pub fn into_reply(self) -> (r: ErrorReply)
        ensures
            match self {
                ApiError::Service(ServiceError::NotFound(id)) => is_not_found_reply(r, id),
                ApiError::Service(ServiceError::Validation(errors)) => is_validation_reply(
                    r,
                    errors,
                ),
                ApiError::Service(ServiceError::Storage(_)) => is_internal_reply(r),
                ApiError::MalformedBody(message) => is_malformed_reply(r, message),
            },
    {
        match self {
            ApiError::Service(ServiceError::NotFound(id)) => not_found_reply(id),
            ApiError::Service(ServiceError::Validation(errors)) => validation_reply(errors),
            ApiError::Service(ServiceError::Storage(_)) => internal_reply(),
            ApiError::MalformedBody(message) => malformed_reply(message),
        }
    }
}

impl AppError {
    /// The answer to this error.
    pub fn into_reply(self) -> (r: ErrorReply)
        ensures
            match self {
                AppError::NotFound(id) => is_not_found_reply(r, id),
                AppError::Validation(errors) => is_validation_reply(r, errors),
                AppError::MalformedBody(message) => is_malformed_reply(r, message),
                AppError::Internal(_) => is_internal_reply(r),
            },
    {
        match self {
            AppError::NotFound(id) => not_found_reply(id),
            AppError::Validation(errors) => validation_reply(errors),
            AppError::MalformedBody(message) => malformed_reply(message),
            AppError::Internal(_) => internal_reply(),
        }
    }
}

} // verus!
