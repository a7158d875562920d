//! The product page: the catalog product with its listing's store, stock,
//! delivery and refund rules.

use vstd::prelude::*;

use super::cart::stock_in;
use super::directory::{MarketplaceDirectory, ProductListingRecordView};
use super::enums::{api_fulfillment_of, api_status_of, ApiFulfillmentType, ApiProductStatus};
use super::failure::{failure_is, internal_error, not_found, ApiFailure, STATUS_NOT_FOUND};
use crate::ai_agent::action::optional_text;
use crate::catalog::product::{Product, ProductView};
use crate::catalog::repository::InMemoryCatalogRepository;
use crate::catalog::service::CatalogService;
use crate::error_code::ErrorCode;
use crate::ids::{id_text, uuid_text, ProductId, ProductVariantId, SellerId, StoreId};
use crate::text::{chars_of, copy_optional, copy_str, copy_strings, decimal_text, string_of_range, u64_text};

verus! {

#[derive(Debug, PartialEq, Eq)]
pub struct ProductVariantResponse {
    pub variant_id: ProductVariantId,
    pub sku: String,
    pub price_minor: i64,
    pub currency: String,
    pub available_stock: u64,
}

#[derive(Debug, PartialEq, Eq)]
pub struct DeliveryRulesResponse {
    pub fulfillment_type: ApiFulfillmentType,
    pub estimated_days_min: u32,
    pub estimated_days_max: u32,
    pub digital_method: Option<String>,
    pub shipping_regions: Vec<String>,
}

#[derive(Debug, PartialEq, Eq)]
pub struct RefundRulesResponse {
    pub refund_window_days: u32,
    pub is_refundable: bool,
    pub summary: String,
}

#[derive(Debug, PartialEq, Eq)]
pub struct ProductDetailResponse {
    pub product_id: ProductId,
    pub seller_id: SellerId,
    pub store_id: Option<StoreId>,
    pub store_name: String,
    pub title: String,
    pub description: String,
    pub fulfillment_type: ApiFulfillmentType,
    pub price_minor: i64,
    pub currency: String,
    pub available_stock: u64,
    pub status: ApiProductStatus,
    pub delivery_rules: DeliveryRulesResponse,
    pub refund_rules: RefundRulesResponse,
    pub variants: Vec<ProductVariantResponse>,
}

/// The listing record of product `id`, if any.
pub open spec fn listing_of(listings: Map<ProductId, ProductListingRecordView>, id: ProductId) -> Option<
    ProductListingRecordView,
> {
    if listings.contains_key(id) {
        Some(listings[id])
    } else {
        None
    }
}

/// The variant a product page shows: the listed one, else the variant with
/// the product's own identifier.
pub open spec fn shown_variant(listing: Option<ProductListingRecordView>, id: ProductId) -> ProductVariantId {
    match listing {
        Some(l) => l.variant_id,
        None => ProductVariantId { value: id.value },
    }
}

pub open spec fn refund_days(listing: Option<ProductListingRecordView>) -> u32 {
    match listing {
        Some(l) => l.refund_window_days,
        None => 14,
    }
}

/// The refund summary: the window in days, or that the product is not refundable.
pub open spec fn refund_summary(days: u32) -> Seq<char> {
    if days > 0 {
        decimal_text(days as int) + " day refund window."@
    } else {
        "Not refundable."@
    }
}

/// The delivery rules of a product page: the listing's, else those of the
/// product's kind (a file download at once, or three to seven days by post).
pub open spec fn delivery_rules(listing: Option<ProductListingRecordView>, kind: ApiFulfillmentType) -> (
    u32,
    u32,
    Option<Seq<char>>,
    Seq<String>,
) {
    match listing {
        Some(l) => (
            l.estimated_days_min,
            l.estimated_days_max,
            optional_text(l.digital_method),
            l.shipping_regions,
        ),
        None => match kind {
            ApiFulfillmentType::Digital => (0, 0, Some("file_download"@), Seq::empty()),
            ApiFulfillmentType::PhysicalStandard => (3, 7, None, Seq::empty()),
        },
    }
}

/// The SKU shown for a product: `SKU-` and the first eight digits of its identifier.
pub open spec fn sku_of(id: ProductId) -> Seq<char> {
    "SKU-"@ + uuid_text(id.value).take(8)
}

/// Whether `d` is the page of product `p` over the catalog `store` and the
/// listing records `listings`.
pub open spec fn detail_shows(
    d: ProductDetailResponse,
    store: InMemoryCatalogRepository,
    listings: Map<ProductId, ProductListingRecordView>,
    p: ProductView,
) -> bool {
    let listing = listing_of(listings, p.id);
    let variant = shown_variant(listing, p.id);
    let stock = stock_in(store, variant);
    let kind = api_fulfillment_of(p.product_type);
    let days = refund_days(listing);
    let rules = delivery_rules(listing, kind);
    &&& d.product_id == p.id
    &&& d.seller_id == p.seller_id
    &&& d.store_id == match listing {
        Some(l) => l.store_id,
        None => None,
    }
    &&& d.store_name@ == match listing {
        Some(l) => l.store_name,
        None => "Store"@,
    }
    &&& d.title@ == p.title
    &&& d.description@ == p.description
    &&& d.fulfillment_type == kind
    &&& d.price_minor == p.price@.minor
    &&& d.currency@ == p.price@.currency@
    &&& d.available_stock == stock
    &&& d.status == api_status_of(p.status)
    &&& d.delivery_rules.fulfillment_type == kind
    &&& d.delivery_rules.estimated_days_min == rules.0
    &&& d.delivery_rules.estimated_days_max == rules.1
    &&& optional_text(d.delivery_rules.digital_method) == rules.2
    &&& d.delivery_rules.shipping_regions@ == rules.3
    &&& d.refund_rules.refund_window_days == days
    &&& d.refund_rules.is_refundable == (days > 0)
    &&& d.refund_rules.summary@ == refund_summary(days)
    &&& d.variants@.len() == 1
    &&& d.variants@[0].variant_id == variant
    &&& d.variants@[0].sku@ == sku_of(p.id)
    &&& d.variants@[0].price_minor == p.price@.minor
    &&& d.variants@[0].currency@ == p.price@.currency@
    &&& d.variants@[0].available_stock == stock
}

fn sku_text(id: ProductId) -> (r: String)
    ensures
        r@ == sku_of(id),
{
    let text = chars_of(id_text(id.as_u128()).as_str());
    assert(uuid_text(id.value).len() == 36);
    let digits = string_of_range(&text, 0, 8);
    let mut sku = copy_str("SKU-");
    sku.push_str(digits.as_str());
    assert(digits@ =~= uuid_text(id.value).take(8));
    sku
}

fn refund_summary_text(days: u32) -> (r: String)
    ensures
        r@ == refund_summary(days),
{
    if days > 0 {
        let mut summary = u64_text(days as u64);
        summary.push_str(" day refund window.");
        summary
    } else {
        copy_str("Not refundable.")
    }
}

/// The page of `product`.
pub fn build_product_detail(
    catalog: &CatalogService,
    directory: &MarketplaceDirectory,
    product: &Product,
    request_id: u128,
) -> (r: Result<ProductDetailResponse, ApiFailure>)
    requires
        catalog.wf(),
    ensures
        r matches Ok(d) && detail_shows(d, catalog.store(), directory.listings(), product@),
{
    let listing = directory.listing(product.id());
    let ghost lv = listing_of(directory.listings(), product@.id);
    let variant_id = match &listing {
        Some(record) => record.variant_id,
        None => ProductVariantId::from_u128(product.id().as_u128()),
    };
    let available_stock = match catalog.get_inventory(variant_id) {
        Ok(Some(inventory)) => inventory.available_stock(),
        Ok(None) => 0,
        Err(e) => return Err(internal_error(request_id, e.message().as_str())),
    };
    let fulfillment_type = ApiFulfillmentType::from(product.product_type());
    let refund_window_days = match &listing {
        Some(record) => record.refund_window_days,
        None => 14,
    };
    let (estimated_days_min, estimated_days_max, digital_method, shipping_regions) = match &listing {
        Some(record) => (
            record.estimated_days_min,
            record.estimated_days_max,
            copy_optional(&record.digital_method),
            copy_strings(&record.shipping_regions),
        ),
        None => match fulfillment_type {
            ApiFulfillmentType::Digital => (0, 0, Some(copy_str("file_download")), Vec::new()),
            ApiFulfillmentType::PhysicalStandard => (3, 7, None, Vec::new()),
        },
    };
    let (store_id, store_name) = match &listing {
        Some(record) => (record.store_id, record.store_name.clone()),
        None => (None, copy_str("Store")),
    };
    let mut variants: Vec<ProductVariantResponse> = Vec::new();
    variants.push(
        ProductVariantResponse {
            variant_id,
            sku: sku_text(product.id()),
            price_minor: product.price().minor(),
            currency: product.price().currency().as_string(),
            available_stock,
        },
    );
    assert(shipping_regions@ == delivery_rules(lv, fulfillment_type).3);
    Ok(
        ProductDetailResponse {
            product_id: product.id(),
            seller_id: product.seller_id(),
            store_id,
            store_name,
            title: copy_str(product.title()),
            description: copy_str(product.description()),
            fulfillment_type,
            price_minor: product.price().minor(),
            currency: product.price().currency().as_string(),
            available_stock,
            status: ApiProductStatus::from(product.status()),
            delivery_rules: DeliveryRulesResponse {
                fulfillment_type,
                estimated_days_min,
                estimated_days_max,
                digital_method,
                shipping_regions,
            },
            refund_rules: RefundRulesResponse {
                refund_window_days,
                is_refundable: refund_window_days > 0,
                summary: refund_summary_text(refund_window_days),
            },
            variants,
        },
    )
}

/// The page of product `product_id`; an unknown product is not found.
pub fn get_product(
    catalog: &CatalogService,
    directory: &MarketplaceDirectory,
    product_id: ProductId,
    request_id: u128,
) -> (r: Result<ProductDetailResponse, ApiFailure>)
    requires
        catalog.wf(),
    ensures
        catalog.store().products().contains_key(product_id) ==> (r matches Ok(d) && detail_shows(
            d,
            catalog.store(),
            directory.listings(),
            catalog.store().products()[product_id],
        )),
        !catalog.store().products().contains_key(product_id) ==> (r matches Err(f) && failure_is(
            f,
            STATUS_NOT_FOUND,
            ErrorCode::NotFound,
            "product was not found"@,
            request_id,
        )),
{
    let product = match catalog.get_product(product_id) {
        Ok(Some(product)) => product,
        Ok(None) => return Err(not_found(request_id, "product was not found")),
        Err(e) => return Err(
            super::failure::error_response(
                super::failure::STATUS_INTERNAL_SERVER_ERROR,
                ErrorCode::InternalError,
                e.message(),
                request_id,
            ),
        ),
    };
    build_product_detail(catalog, directory, &product, request_id)
}

} // verus!
