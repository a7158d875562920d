//! Errors of the AI agent and the codes under which they are reported.

use vstd::prelude::*;

use super::policy::PolicyReason;
use super::repository::AiRepositoryError;
use super::facts::CatalogFactsError;
use super::scope::AiScope;
use crate::cart::service::CartServiceError;
use crate::catalog::repository::CatalogRepositoryError;
use crate::error_code::ErrorCode;

use crate::text::copy_str;
use super::scope::scope_name;
use super::policy::reason_name;
use super::repository::ai_repository_error_message;
use super::facts::catalog_facts_error_message;
use crate::cart::service::cart_service_error_message;
use crate::catalog::repository::catalog_repository_error_message;
verus! {

#[derive(Clone, Copy, Debug, PartialEq, Eq, Structural)]
pub enum AiError {
    UnknownScope,
    BlankClientId,
    AuthorizationNotFound,
    AuthorizationExpired,
    AuthorizationRevoked,
    MissingScope { required: AiScope },
    AutoPurchaseDisabled,
    PolicyNotFound,
    PolicyBlocked { reason: PolicyReason },
    RequiresUserConfirmation { reason: PolicyReason },
    ProductNotFound,
    ProductNotPurchasable,
    ProductOutOfStock,
    CartNotFound,
    CartOwnerMismatch,
    InvalidQuantity,
    BlankIdempotencyKey,
    InvalidPolicyAmount,
    Cart(CartServiceError),
    /// The order service refused or failed to place the order.
    Order,
    Catalog(CatalogRepositoryError),
    CatalogFacts(CatalogFactsError),
    Repository(AiRepositoryError),
}

/// The API code under which each error is reported.
pub open spec fn error_code_of(e: AiError) -> ErrorCode {
    match e {
        AiError::UnknownScope | AiError::BlankClientId | AiError::InvalidQuantity
        | AiError::BlankIdempotencyKey | AiError::InvalidPolicyAmount => ErrorCode::InvalidInput,
        AiError::AuthorizationNotFound | AiError::ProductNotFound | AiError::CartNotFound => {
            ErrorCode::NotFound
        },
        AiError::AuthorizationExpired => ErrorCode::AiAuthorizationExpired,
        AiError::AuthorizationRevoked | AiError::MissingScope { .. } | AiError::AutoPurchaseDisabled
        | AiError::CartOwnerMismatch | AiError::ProductNotPurchasable => ErrorCode::Forbidden,
        AiError::PolicyNotFound | AiError::PolicyBlocked { .. } => ErrorCode::AutoPurchaseLimitExceeded,
        AiError::RequiresUserConfirmation { .. } => ErrorCode::PriceChanged,
        AiError::ProductOutOfStock => ErrorCode::ProductOutOfStock,
        AiError::Cart(_) | AiError::Order | AiError::Catalog(_) | AiError::CatalogFacts(_)
        | AiError::Repository(_) => ErrorCode::InternalError,
    }
}

/// The code written into the audit trail for each error.
pub open spec fn audit_code_of(e: AiError) -> Seq<char> {
    match e {
        AiError::UnknownScope => "UNKNOWN_SCOPE"@,
        AiError::BlankClientId => "BLANK_CLIENT_ID"@,
        AiError::AuthorizationNotFound => "AUTHORIZATION_NOT_FOUND"@,
        AiError::AuthorizationExpired => "AI_AUTHORIZATION_EXPIRED"@,
        AiError::AuthorizationRevoked => "AUTHORIZATION_REVOKED"@,
        AiError::MissingScope { .. } => "MISSING_SCOPE"@,
        AiError::AutoPurchaseDisabled => "AUTO_PURCHASE_DISABLED"@,
        AiError::PolicyNotFound => "POLICY_NOT_FOUND"@,
        AiError::PolicyBlocked { .. } => "AUTO_PURCHASE_LIMIT_EXCEEDED"@,
        AiError::RequiresUserConfirmation { .. } => "REQUIRES_USER_CONFIRMATION"@,
        AiError::ProductNotFound => "NOT_FOUND"@,
        AiError::ProductNotPurchasable => "PRODUCT_NOT_PURCHASABLE"@,
        AiError::ProductOutOfStock => "PRODUCT_OUT_OF_STOCK"@,
        AiError::CartNotFound => "CART_NOT_FOUND"@,
        AiError::CartOwnerMismatch => "CART_OWNER_MISMATCH"@,
        AiError::InvalidQuantity => "INVALID_QUANTITY"@,
        AiError::BlankIdempotencyKey => "BLANK_IDEMPOTENCY_KEY"@,
        AiError::InvalidPolicyAmount => "INVALID_POLICY_AMOUNT"@,
        AiError::Cart(_) => "CART_FAILED"@,
        AiError::Order => "ORDER_FAILED"@,
        AiError::Catalog(_) | AiError::CatalogFacts(_) => "CATALOG_FAILED"@,
        AiError::Repository(_) => "REPOSITORY_FAILED"@,
    }
}

impl AiError {
    pub fn error_code(&self) -> (r: ErrorCode)
        ensures
            r == error_code_of(*self),
    {
        match self {
            AiError::UnknownScope | AiError::BlankClientId | AiError::InvalidQuantity
            | AiError::BlankIdempotencyKey | AiError::InvalidPolicyAmount => ErrorCode::InvalidInput,
            AiError::AuthorizationNotFound | AiError::ProductNotFound | AiError::CartNotFound => {
                ErrorCode::NotFound
            },
            AiError::AuthorizationExpired => ErrorCode::AiAuthorizationExpired,
            AiError::AuthorizationRevoked | AiError::MissingScope { .. }
            | AiError::AutoPurchaseDisabled | AiError::CartOwnerMismatch => ErrorCode::Forbidden,
            AiError::PolicyNotFound | AiError::PolicyBlocked { .. } => {
                ErrorCode::AutoPurchaseLimitExceeded
            },
            AiError::RequiresUserConfirmation { .. } => ErrorCode::PriceChanged,
            AiError::ProductNotPurchasable => ErrorCode::Forbidden,
            AiError::ProductOutOfStock => ErrorCode::ProductOutOfStock,
            AiError::Cart(_) | AiError::Order | AiError::Catalog(_) | AiError::CatalogFacts(_)
            | AiError::Repository(_) => ErrorCode::InternalError,
        }
    }

    pub fn audit_code(&self) -> (r: &'static str)
        ensures
            r@ == audit_code_of(*self),
    {
        match self {
            AiError::UnknownScope => "UNKNOWN_SCOPE",
            AiError::BlankClientId => "BLANK_CLIENT_ID",
            AiError::AuthorizationNotFound => "AUTHORIZATION_NOT_FOUND",
            AiError::AuthorizationExpired => "AI_AUTHORIZATION_EXPIRED",
            AiError::AuthorizationRevoked => "AUTHORIZATION_REVOKED",
            AiError::MissingScope { .. } => "MISSING_SCOPE",
            AiError::AutoPurchaseDisabled => "AUTO_PURCHASE_DISABLED",
            AiError::PolicyNotFound => "POLICY_NOT_FOUND",
            AiError::PolicyBlocked { .. } => "AUTO_PURCHASE_LIMIT_EXCEEDED",
            AiError::RequiresUserConfirmation { .. } => "REQUIRES_USER_CONFIRMATION",
            AiError::ProductNotFound => "NOT_FOUND",
            AiError::ProductNotPurchasable => "PRODUCT_NOT_PURCHASABLE",
            AiError::ProductOutOfStock => "PRODUCT_OUT_OF_STOCK",
            AiError::CartNotFound => "CART_NOT_FOUND",
            AiError::CartOwnerMismatch => "CART_OWNER_MISMATCH",
            AiError::InvalidQuantity => "INVALID_QUANTITY",
            AiError::BlankIdempotencyKey => "BLANK_IDEMPOTENCY_KEY",
            AiError::InvalidPolicyAmount => "INVALID_POLICY_AMOUNT",
            AiError::Cart(_) => "CART_FAILED",
            AiError::Order => "ORDER_FAILED",
            AiError::Catalog(_) | AiError::CatalogFacts(_) => "CATALOG_FAILED",
            AiError::Repository(_) => "REPOSITORY_FAILED",
        }
    }
}

/// The text that describes each error.
pub open spec fn ai_error_message(e: AiError) -> Seq<char> {
    match e {
        AiError::UnknownScope => "AI scope is unknown"@,
        AiError::BlankClientId => "AI client id cannot be blank"@,
        AiError::AuthorizationNotFound => "authorization was not found"@,
        AiError::AuthorizationExpired => "authorization has expired"@,
        AiError::AuthorizationRevoked => "authorization has been revoked"@,
        AiError::MissingScope { required } => "missing required AI scope "@ + scope_name(required),
        AiError::AutoPurchaseDisabled => "user has not enabled auto-purchase"@,
        AiError::PolicyNotFound => "purchase policy was not found"@,
        AiError::PolicyBlocked { reason } => "purchase policy blocked this action: "@ + reason_name(reason),
        AiError::RequiresUserConfirmation { reason } => "purchase policy requires user confirmation: "@ + reason_name(reason),
        AiError::ProductNotFound => "product was not found"@,
        AiError::ProductNotPurchasable => "product cannot be purchased"@,
        AiError::ProductOutOfStock => "product is out of stock"@,
        AiError::CartNotFound => "cart was not found"@,
        AiError::CartOwnerMismatch => "cart does not belong to the authorized subject"@,
        AiError::InvalidQuantity => "quantity must be greater than zero"@,
        AiError::BlankIdempotencyKey => "idempotency key cannot be blank"@,
        AiError::InvalidPolicyAmount => "purchase policy amount cannot be negative"@,
        AiError::Cart(e) => "cart operation failed: "@ + cart_service_error_message(e),
        AiError::Order => "order operation failed"@,
        AiError::Catalog(e) => "catalog lookup failed: "@ + catalog_repository_error_message(e),
        AiError::CatalogFacts(e) => "catalog facts lookup failed: "@ + catalog_facts_error_message(e),
        AiError::Repository(e) => "AI repository failed: "@ + ai_repository_error_message(e),
    }
}

impl AiError {
    pub fn message(&self) -> (r: String)
        ensures
            r@ == ai_error_message(*self),
    {
        match self {
            AiError::UnknownScope => copy_str("AI scope is unknown"),
            AiError::BlankClientId => copy_str("AI client id cannot be blank"),
            AiError::AuthorizationNotFound => copy_str("authorization was not found"),
            AiError::AuthorizationExpired => copy_str("authorization has expired"),
            AiError::AuthorizationRevoked => copy_str("authorization has been revoked"),
            AiError::MissingScope { required } => {
                let mut text = copy_str("missing required AI scope ");
                text.push_str(required.as_api_str());
                text
            },
            AiError::AutoPurchaseDisabled => copy_str("user has not enabled auto-purchase"),
            AiError::PolicyNotFound => copy_str("purchase policy was not found"),
            AiError::PolicyBlocked { reason } => {
                let mut text = copy_str("purchase policy blocked this action: ");
                text.push_str(reason.as_str());
                text
            },
            AiError::RequiresUserConfirmation { reason } => {
                let mut text = copy_str("purchase policy requires user confirmation: ");
                text.push_str(reason.as_str());
                text
            },
            AiError::ProductNotFound => copy_str("product was not found"),
            AiError::ProductNotPurchasable => copy_str("product cannot be purchased"),
            AiError::ProductOutOfStock => copy_str("product is out of stock"),
            AiError::CartNotFound => copy_str("cart was not found"),
            AiError::CartOwnerMismatch => copy_str("cart does not belong to the authorized subject"),
            AiError::InvalidQuantity => copy_str("quantity must be greater than zero"),
            AiError::BlankIdempotencyKey => copy_str("idempotency key cannot be blank"),
            AiError::InvalidPolicyAmount => copy_str("purchase policy amount cannot be negative"),
            AiError::Cart(e) => {
                let mut text = copy_str("cart operation failed: ");
                text.push_str(e.message().as_str());
                text
            },
            AiError::Order => copy_str("order operation failed"),
            AiError::Catalog(e) => {
                let mut text = copy_str("catalog lookup failed: ");
                text.push_str(e.message().as_str());
                text
            },
            AiError::CatalogFacts(e) => {
                let mut text = copy_str("catalog facts lookup failed: ");
                text.push_str(e.message().as_str());
                text
            },
            AiError::Repository(e) => {
                let mut text = copy_str("AI repository failed: ");
                text.push_str(e.message().as_str());
                text
            },
        }
    }
}

} // verus!
