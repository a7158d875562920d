//! The API's names for catalog, cart and order states.

use vstd::prelude::*;

use crate::cart::cart::CartItemSource;
use crate::catalog::product::{FulfillmentType, ProductStatus};

verus! {

#[derive(Clone, Copy, Debug, PartialEq, Eq, Structural)]
pub enum ApiFulfillmentType {
    Digital,
    PhysicalStandard,
}

#[derive(Clone, Copy, Debug, PartialEq, Eq, Structural)]
pub enum ApiCartItemSource {
    User,
    Ai,
}

#[derive(Clone, Copy, Debug, PartialEq, Eq, Structural)]
pub enum ApiProductStatus {
    Draft,
    PendingReview,
    Published,
    Suspended,
    Archived,
}

/// The life cycle of an order as the API reports it.
#[derive(Clone, Copy, Debug, PartialEq, Eq, Structural)]
pub enum ApiOrderStatus {
    Draft,
    PendingConfirmation,
    PendingPayment,
    PaymentProcessing,
    Paid,
    FulfillmentProcessing,
    Shipped,
    Delivered,
    Completed,
    CancellationRequested,
    Cancelled,
    RefundProcessing,
    Refunded,
    DisputeProcessing,
}

pub open spec fn api_fulfillment_of(value: FulfillmentType) -> ApiFulfillmentType {
    match value {
        FulfillmentType::Digital => ApiFulfillmentType::Digital,
        FulfillmentType::PhysicalStandard => ApiFulfillmentType::PhysicalStandard,
    }
}

pub open spec fn fulfillment_of(value: ApiFulfillmentType) -> FulfillmentType {
    match value {
        ApiFulfillmentType::Digital => FulfillmentType::Digital,
        ApiFulfillmentType::PhysicalStandard => FulfillmentType::PhysicalStandard,
    }
}

pub open spec fn api_source_of(value: CartItemSource) -> ApiCartItemSource {
    match value {
        CartItemSource::User => ApiCartItemSource::User,
        CartItemSource::Ai => ApiCartItemSource::Ai,
    }
}

pub open spec fn source_of(value: ApiCartItemSource) -> CartItemSource {
    match value {
        ApiCartItemSource::User => CartItemSource::User,
        ApiCartItemSource::Ai => CartItemSource::Ai,
    }
}

pub open spec fn api_status_of(value: ProductStatus) -> ApiProductStatus {
    match value {
        ProductStatus::Draft => ApiProductStatus::Draft,
        ProductStatus::PendingReview => ApiProductStatus::PendingReview,
        ProductStatus::Published => ApiProductStatus::Published,
        ProductStatus::Suspended => ApiProductStatus::Suspended,
        ProductStatus::Archived => ApiProductStatus::Archived,
    }
}

impl From<FulfillmentType> for ApiFulfillmentType {
    fn from(value: FulfillmentType) -> (r: Self) {
        match value {
            FulfillmentType::Digital => ApiFulfillmentType::Digital,
            FulfillmentType::PhysicalStandard => ApiFulfillmentType::PhysicalStandard,
        }
    }
}

impl vstd::std_specs::convert::FromSpecImpl<FulfillmentType> for ApiFulfillmentType {
    open spec fn obeys_from_spec() -> bool {
        true
    }

    open spec fn from_spec(v: FulfillmentType) -> Self {
        api_fulfillment_of(v)
    }
}

impl From<ApiFulfillmentType> for FulfillmentType {
    fn from(value: ApiFulfillmentType) -> (r: Self) {
        match value {
            ApiFulfillmentType::Digital => FulfillmentType::Digital,
            ApiFulfillmentType::PhysicalStandard => FulfillmentType::PhysicalStandard,
        }
    }
}

impl vstd::std_specs::convert::FromSpecImpl<ApiFulfillmentType> for FulfillmentType {
    open spec fn obeys_from_spec() -> bool {
        true
    }

    open spec fn from_spec(v: ApiFulfillmentType) -> Self {
        fulfillment_of(v)
    }
}

impl From<CartItemSource> for ApiCartItemSource {
    fn from(value: CartItemSource) -> (r: Self) {
        match value {
            CartItemSource::User => ApiCartItemSource::User,
            CartItemSource::Ai => ApiCartItemSource::Ai,
        }
    }
}

impl vstd::std_specs::convert::FromSpecImpl<CartItemSource> for ApiCartItemSource {
    open spec fn obeys_from_spec() -> bool {
        true
    }

    open spec fn from_spec(v: CartItemSource) -> Self {
        api_source_of(v)
    }
}

impl From<ApiCartItemSource> for CartItemSource {
    fn from(value: ApiCartItemSource) -> (r: Self) {
        match value {
            ApiCartItemSource::User => CartItemSource::User,
            ApiCartItemSource::Ai => CartItemSource::Ai,
        }
    }
}

impl vstd::std_specs::convert::FromSpecImpl<ApiCartItemSource> for CartItemSource {
    open spec fn obeys_from_spec() -> bool {
        true
    }

    open spec fn from_spec(v: ApiCartItemSource) -> Self {
        source_of(v)
    }
}

impl From<ProductStatus> for ApiProductStatus {
    fn from(value: ProductStatus) -> (r: Self) {
        match value {
            ProductStatus::Draft => ApiProductStatus::Draft,
            ProductStatus::PendingReview => ApiProductStatus::PendingReview,
            ProductStatus::Published => ApiProductStatus::Published,
            ProductStatus::Suspended => ApiProductStatus::Suspended,
            ProductStatus::Archived => ApiProductStatus::Archived,
        }
    }
}

impl vstd::std_specs::convert::FromSpecImpl<ProductStatus> for ApiProductStatus {
    open spec fn obeys_from_spec() -> bool {
        true
    }

    open spec fn from_spec(v: ProductStatus) -> Self {
        api_status_of(v)
    }
}

/// The API's fulfillment and source names are the domain's, one for one.
pub proof fn lemma_wire_names_round_trip(f: FulfillmentType, a: ApiFulfillmentType, s: CartItemSource, b: ApiCartItemSource)
    ensures
        fulfillment_of(api_fulfillment_of(f)) == f,
        api_fulfillment_of(fulfillment_of(a)) == a,
        source_of(api_source_of(s)) == s,
        api_source_of(source_of(b)) == b,
{
}

/// The domain status that an API status names.
pub open spec fn product_status_of(value: ApiProductStatus) -> ProductStatus {
    match value {
        ApiProductStatus::Draft => ProductStatus::Draft,
        ApiProductStatus::PendingReview => ProductStatus::PendingReview,
        ApiProductStatus::Published => ProductStatus::Published,
        ApiProductStatus::Suspended => ProductStatus::Suspended,
        ApiProductStatus::Archived => ProductStatus::Archived,
    }
}

/// The API shows each product status under its own name, one for one: the
/// API status names back the domain status it came from, distinct statuses
/// stay distinct, and every API status is shown for some status.
pub proof fn lemma_status_names_round_trip(s: ProductStatus, t: ProductStatus, a: ApiProductStatus)
    ensures
        product_status_of(api_status_of(s)) == s,
        api_status_of(product_status_of(a)) == a,
        api_status_of(s) == api_status_of(t) ==> s == t,
        (s == ProductStatus::Draft) == (api_status_of(s) == ApiProductStatus::Draft),
        (s == ProductStatus::PendingReview) == (api_status_of(s) == ApiProductStatus::PendingReview),
        (s == ProductStatus::Published) == (api_status_of(s) == ApiProductStatus::Published),
        (s == ProductStatus::Suspended) == (api_status_of(s) == ApiProductStatus::Suspended),
        (s == ProductStatus::Archived) == (api_status_of(s) == ApiProductStatus::Archived),
{
}

} // verus!
