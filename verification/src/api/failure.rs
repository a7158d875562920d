//! A refused request: the HTTP status, the error code, a message, and the
//! request it answers.

use vstd::prelude::*;

use crate::error_code::ErrorCode;
use crate::text::copy_str;

verus! {

pub const STATUS_BAD_REQUEST: u16 = 400;

pub const STATUS_UNAUTHORIZED: u16 = 401;

pub const STATUS_FORBIDDEN: u16 = 403;

pub const STATUS_NOT_FOUND: u16 = 404;

pub const STATUS_CONFLICT: u16 = 409;

pub const STATUS_INTERNAL_SERVER_ERROR: u16 = 500;

pub const STATUS_NOT_IMPLEMENTED: u16 = 501;

#[derive(Debug, PartialEq, Eq)]
pub struct ApiFailure {
    pub status: u16,
    pub code: ErrorCode,
    pub message: String,
    pub request_id: u128,
}

/// Whether `f` answers request `request_id` with `status`, `code` and `message`.
pub open spec fn failure_is(f: ApiFailure, status: u16, code: ErrorCode, message: Seq<char>, request_id: u128) -> bool {
    &&& f.status == status
    &&& f.code == code
    &&& f.message@ == message
    &&& f.request_id == request_id
}

pub fn error_response(status: u16, code: ErrorCode, message: String, request_id: u128) -> (r: ApiFailure)
    ensures
        failure_is(r, status, code, message@, request_id),
{
    ApiFailure { status, code, message, request_id }
}

pub fn not_found(request_id: u128, message: &str) -> (r: ApiFailure)
    ensures
        failure_is(r, STATUS_NOT_FOUND, ErrorCode::NotFound, message@, request_id),
{
    error_response(STATUS_NOT_FOUND, ErrorCode::NotFound, copy_str(message), request_id)
}

pub fn invalid_input(request_id: u128, message: &str) -> (r: ApiFailure)
    ensures
        failure_is(r, STATUS_BAD_REQUEST, ErrorCode::InvalidInput, message@, request_id),
{
    error_response(STATUS_BAD_REQUEST, ErrorCode::InvalidInput, copy_str(message), request_id)
}

pub fn internal_error(request_id: u128, message: &str) -> (r: ApiFailure)
    ensures
        failure_is(r, STATUS_INTERNAL_SERVER_ERROR, ErrorCode::InternalError, message@, request_id),
{
    error_response(STATUS_INTERNAL_SERVER_ERROR, ErrorCode::InternalError, copy_str(message), request_id)
}

/// The answer to a request without valid credentials.
pub fn unauthorized(request_id: u128) -> (r: ApiFailure)
    ensures
        failure_is(
            r,
            STATUS_UNAUTHORIZED,
            ErrorCode::Unauthorized,
            "authentication is required"@,
            request_id,
        ),
{
    error_response(
        STATUS_UNAUTHORIZED,
        ErrorCode::Unauthorized,
        copy_str("authentication is required"),
        request_id,
    )
}

/// The answer to a checkout or order of an empty cart.
pub fn empty_cart_error(request_id: u128) -> (r: ApiFailure)
    ensures
        failure_is(r, STATUS_BAD_REQUEST, ErrorCode::InvalidInput, "cart has no items"@, request_id),
{
    invalid_input(request_id, "cart has no items")
}

} // verus!
