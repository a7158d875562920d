//! How the library's errors are answered over HTTP.

use vstd::prelude::*;

use super::failure::{
    error_response, failure_is, ApiFailure, STATUS_BAD_REQUEST, STATUS_CONFLICT, STATUS_FORBIDDEN,
    STATUS_INTERNAL_SERVER_ERROR, STATUS_NOT_FOUND,
};
use crate::ai_agent::errors::{ai_error_message, error_code_of, AiError};
use crate::cart::cart::CartError;
use crate::cart::service::{cart_service_error_message, CartServiceError};
use crate::catalog::service::{catalog_error_message, CatalogError};
use crate::error_code::ErrorCode;

verus! {

/// The status of each AI error: unknown things are not found; refusals of
/// the grant, the switch, the owner, the listing or the policy are
/// forbidden; a confirmation or missing stock is a conflict; bad input is a
/// bad request; failures of collaborators are internal errors.
pub open spec fn ai_error_status(e: AiError) -> u16 {
    match e {
        AiError::AuthorizationNotFound | AiError::ProductNotFound | AiError::CartNotFound => STATUS_NOT_FOUND,
        AiError::AuthorizationExpired | AiError::AuthorizationRevoked | AiError::MissingScope { .. }
        | AiError::AutoPurchaseDisabled | AiError::CartOwnerMismatch | AiError::ProductNotPurchasable
        | AiError::PolicyNotFound | AiError::PolicyBlocked { .. } => STATUS_FORBIDDEN,
        AiError::RequiresUserConfirmation { .. } | AiError::ProductOutOfStock => STATUS_CONFLICT,
        AiError::UnknownScope | AiError::BlankClientId | AiError::InvalidQuantity
        | AiError::BlankIdempotencyKey | AiError::InvalidPolicyAmount => STATUS_BAD_REQUEST,
        AiError::Cart(_) | AiError::Order | AiError::Catalog(_) | AiError::CatalogFacts(_)
        | AiError::Repository(_) => STATUS_INTERNAL_SERVER_ERROR,
    }
}

/// The answer to a request that an AI operation refused.
pub fn map_ai_error(error: &AiError, request_id: u128) -> (r: ApiFailure)
    ensures
        failure_is(r, ai_error_status(*error), error_code_of(*error), ai_error_message(*error), request_id),
{
    let status = match error {
        AiError::AuthorizationNotFound | AiError::ProductNotFound | AiError::CartNotFound => STATUS_NOT_FOUND,
        AiError::AuthorizationExpired | AiError::AuthorizationRevoked | AiError::MissingScope { .. }
        | AiError::AutoPurchaseDisabled | AiError::CartOwnerMismatch | AiError::ProductNotPurchasable
        | AiError::PolicyNotFound | AiError::PolicyBlocked { .. } => STATUS_FORBIDDEN,
        AiError::RequiresUserConfirmation { .. } | AiError::ProductOutOfStock => STATUS_CONFLICT,
        AiError::UnknownScope | AiError::BlankClientId | AiError::InvalidQuantity
        | AiError::BlankIdempotencyKey | AiError::InvalidPolicyAmount => STATUS_BAD_REQUEST,
        AiError::Cart(_) | AiError::Order | AiError::Catalog(_) | AiError::CatalogFacts(_)
        | AiError::Repository(_) => STATUS_INTERNAL_SERVER_ERROR,
    };
    error_response(status, error.error_code(), error.message(), request_id)
}

/// The status and code of each cart error.
pub open spec fn cart_error_answer(e: CartServiceError) -> (u16, ErrorCode) {
    match e {
        CartServiceError::CartNotFound => (STATUS_NOT_FOUND, ErrorCode::NotFound),
        CartServiceError::ProductNotPurchasable => (STATUS_FORBIDDEN, ErrorCode::Forbidden),
        CartServiceError::Cart(CartError::ItemNotFound) => (STATUS_NOT_FOUND, ErrorCode::NotFound),
        CartServiceError::Cart(CartError::PriceSnapshotChanged) => (STATUS_CONFLICT, ErrorCode::PriceChanged),
        CartServiceError::Cart(_) => (STATUS_BAD_REQUEST, ErrorCode::InvalidInput),
        CartServiceError::Repository(_) => (STATUS_INTERNAL_SERVER_ERROR, ErrorCode::InternalError),
    }
}

/// The answer to a request that the cart service refused.
pub fn map_cart_error(error: &CartServiceError, request_id: u128) -> (r: ApiFailure)
    ensures
        failure_is(
            r,
            cart_error_answer(*error).0,
            cart_error_answer(*error).1,
            cart_service_error_message(*error),
            request_id,
        ),
{
    let (status, code) = match error {
        CartServiceError::CartNotFound => (STATUS_NOT_FOUND, ErrorCode::NotFound),
        CartServiceError::ProductNotPurchasable => (STATUS_FORBIDDEN, ErrorCode::Forbidden),
        CartServiceError::Cart(CartError::ItemNotFound) => (STATUS_NOT_FOUND, ErrorCode::NotFound),
        CartServiceError::Cart(CartError::PriceSnapshotChanged) => (
            STATUS_CONFLICT,
            ErrorCode::PriceChanged,
        ),
        CartServiceError::Cart(_) => (STATUS_BAD_REQUEST, ErrorCode::InvalidInput),
        CartServiceError::Repository(_) => (STATUS_INTERNAL_SERVER_ERROR, ErrorCode::InternalError),
    };
    error_response(status, code, error.message(), request_id)
}

/// The answer to a request that the catalog refused: invalid input, or an
/// internal error of the store.
pub fn map_catalog_error(error: &CatalogError, request_id: u128) -> (r: ApiFailure)
    ensures
        error is Repository ==> failure_is(
            r,
            STATUS_INTERNAL_SERVER_ERROR,
            ErrorCode::InternalError,
            catalog_error_message(*error),
            request_id,
        ),
        !(error is Repository) ==> failure_is(
            r,
            STATUS_BAD_REQUEST,
            ErrorCode::InvalidInput,
            catalog_error_message(*error),
            request_id,
        ),
{
    let (status, code) = match error {
        CatalogError::Repository(_) => (STATUS_INTERNAL_SERVER_ERROR, ErrorCode::InternalError),
        _ => (STATUS_BAD_REQUEST, ErrorCode::InvalidInput),
    };
    error_response(status, code, error.message(), request_id)
}

} // verus!
