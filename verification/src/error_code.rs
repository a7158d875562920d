//! The error codes that the HTTP API reports to clients.

use vstd::prelude::*;

verus! {

#[derive(Clone, Copy, Debug, PartialEq, Eq, Structural)]
pub enum ErrorCode {
    InvalidInput,
    Unauthorized,
    NotFound,
    Forbidden,
    AiAuthorizationExpired,
    AutoPurchaseLimitExceeded,
    PriceChanged,
    ProductOutOfStock,
    OrderStateInvalid,
    InternalError,
}

} // verus!
