//! Sellers listing products: the catalog product, its first stock, and the
//! listing record that the product page shows.

use vstd::prelude::*;

use super::directory::{MarketplaceDirectory, ProductListingRecord, ProductListingRecordView};
use super::enums::{fulfillment_of, ApiFulfillmentType};
use super::errors::map_catalog_error;
use super::failure::{error_response, failure_is, ApiFailure, STATUS_BAD_REQUEST, STATUS_INTERNAL_SERVER_ERROR, STATUS_NOT_IMPLEMENTED};
use super::cart::stock_in;
use super::enums::ApiProductStatus;
use super::product::{build_product_detail, detail_shows, listing_of, ProductDetailResponse};
use crate::ai_agent::action::optional_text;
use crate::catalog::inventory::InventoryView;
use crate::catalog::product::{ProductError, ProductStatus, ProductView};
use crate::catalog::repository::CatalogRepositoryError;
use crate::catalog::service::{catalog_error_message, CatalogError, CatalogService, CreateProductCommand};
use crate::error_code::ErrorCode;
use crate::ids::{ProductId, ProductVariantId, SellerId, StoreId};
use crate::money::{is_currency_code, CurrencyCodeError, MoneyError};
use crate::text::{copy_str, trim_ws};

verus! {

#[derive(Debug, PartialEq, Eq)]
pub struct DigitalDraftRequest {
    pub delivery_method: Option<String>,
}

#[derive(Debug, PartialEq, Eq)]
pub struct PhysicalDraftRequest {
    pub shipping_regions: Option<Vec<String>>,
    pub estimated_days_min: Option<u32>,
    pub estimated_days_max: Option<u32>,
}

/// A seller's new product, with optional stock, refund window and delivery details.
#[derive(Debug, PartialEq, Eq)]
pub struct CreateSellerProductRequest {
    pub title: String,
    pub description: String,
    pub fulfillment_type: ApiFulfillmentType,
    pub price_minor: i64,
    pub currency: String,
    pub available_stock: Option<u64>,
    pub refund_window_days: Option<u32>,
    pub digital: Option<DigitalDraftRequest>,
    pub physical: Option<PhysicalDraftRequest>,
}

/// Why the catalog refuses a product with these fields, if it does: the
/// currency, then the price, then the title and the description are checked.
pub open spec fn product_refusal(title: Seq<char>, description: Seq<char>, price_minor: i64, currency: Seq<char>) -> Option<
    CatalogError,
> {
    if !is_currency_code(currency) {
        Some(CatalogError::InvalidCurrencyCode(CurrencyCodeError::Invalid))
    } else if price_minor < 0 {
        Some(CatalogError::InvalidPrice(MoneyError::NegativeAmount))
    } else if trim_ws(title).len() == 0 {
        Some(CatalogError::InvalidProduct(ProductError::BlankTitle))
    } else if trim_ws(description).len() == 0 {
        Some(CatalogError::InvalidProduct(ProductError::BlankDescription))
    } else {
        None
    }
}

/// Whether `rec` is the listing record of a product created by `body` under
/// `store` with variant `rec.variant_id`: the store's name (else "Store"), a
/// 14-day refund window unless given, and the delivery details of its kind
/// with their defaults.
pub open spec fn listing_recorded(rec: ProductListingRecordView, body: CreateSellerProductRequest, store: Option<(StoreId, String)>) -> bool {
    &&& rec.store_id == match store {
        Some(s) => Some(s.0),
        None => None,
    }
    &&& rec.store_name == match store {
        Some(s) => s.1@,
        None => "Store"@,
    }
    &&& rec.refund_window_days == match body.refund_window_days {
        Some(d) => d,
        None => 14,
    }
    &&& match body.fulfillment_type {
        ApiFulfillmentType::Digital => {
            &&& rec.estimated_days_min == 0
            &&& rec.estimated_days_max == 0
            &&& optional_text(rec.digital_method) == Some(
                match body.digital {
                    Some(d) => match d.delivery_method {
                        Some(m) => m@,
                        None => "file_download"@,
                    },
                    None => "file_download"@,
                },
            )
            &&& rec.shipping_regions.len() == 0
        },
        ApiFulfillmentType::PhysicalStandard => {
            &&& rec.estimated_days_min == match body.physical {
                Some(p) => match p.estimated_days_min {
                    Some(d) => d,
                    None => 3,
                },
                None => 3,
            }
            &&& rec.estimated_days_max == match body.physical {
                Some(p) => match p.estimated_days_max {
                    Some(d) => d,
                    None => 7,
                },
                None => 7,
            }
            &&& rec.digital_method is None
            &&& rec.shipping_regions == match body.physical {
                Some(p) => match p.shipping_regions {
                    Some(regions) => regions@,
                    None => Seq::empty(),
                },
                None => Seq::empty(),
            }
        },
    }
}

/// The delivery details of a new listing, with their defaults.
fn delivery_details(
    fulfillment_type: ApiFulfillmentType,
    digital: Option<DigitalDraftRequest>,
    physical: Option<PhysicalDraftRequest>,
) -> (r: (u32, u32, Option<String>, Vec<String>))
    ensures
        match fulfillment_type {
            ApiFulfillmentType::Digital => {
                &&& r.0 == 0
                &&& r.1 == 0
                &&& optional_text(r.2) == Some(
                    match digital {
                        Some(d) => match d.delivery_method {
                            Some(m) => m@,
                            None => "file_download"@,
                        },
                        None => "file_download"@,
                    },
                )
                &&& r.3@.len() == 0
            },
            ApiFulfillmentType::PhysicalStandard => {
                &&& r.0 == match physical {
                    Some(p) => match p.estimated_days_min {
                        Some(d) => d,
                        None => 3,
                    },
                    None => 3,
                }
                &&& r.1 == match physical {
                    Some(p) => match p.estimated_days_max {
                        Some(d) => d,
                        None => 7,
                    },
                    None => 7,
                }
                &&& r.2 is None
                &&& r.3@ == match physical {
                    Some(p) => match p.shipping_regions {
                        Some(regions) => regions@,
                        None => Seq::empty(),
                    },
                    None => Seq::empty(),
                }
            },
        },
{
    match fulfillment_type {
        ApiFulfillmentType::Digital => {
            let method = match digital {
                Some(draft) => match draft.delivery_method {
                    Some(m) => m,
                    None => copy_str("file_download"),
                },
                None => copy_str("file_download"),
            };
            (0, 0, Some(method), Vec::new())
        },
        ApiFulfillmentType::PhysicalStandard => match physical {
            Some(draft) => {
                let min = match draft.estimated_days_min {
                    Some(d) => d,
                    None => 3,
                };
                let max = match draft.estimated_days_max {
                    Some(d) => d,
                    None => 7,
                };
                let regions = match draft.shipping_regions {
                    Some(regions) => regions,
                    None => Vec::new(),
                };
                (min, max, None, regions)
            },
            None => (3, 7, None, Vec::new()),
        },
    }
}

/// Whether `p` is the draft product that `body` asks `seller_id` to create.
pub open spec fn product_made(p: ProductView, seller_id: SellerId, body: CreateSellerProductRequest) -> bool {
    &&& p.seller_id == seller_id
    &&& p.title == trim_ws(body.title@)
    &&& p.description == trim_ws(body.description@)
    &&& p.product_type == fulfillment_of(body.fulfillment_type)
    &&& p.price@.minor == body.price_minor
    &&& p.price@.currency@ == body.currency@
    &&& p.status == ProductStatus::Draft
}

/// Creating the product of `body` for `seller_id` under `store`, stocked
/// under variant `variant_id`, took the catalog and directory from `cat0` and
/// `dir0` to `cat1` and `dir1` and answered `r`. A refused product changes
/// nothing. Otherwise the draft is stored; a variant that is already stocked
/// is then refused as an internal error, with nothing stocked or listed;
/// a fresh one gets its stock and listing record, and the answer is the
/// product page.
pub open spec fn seller_product_created(
    cat1: CatalogService,
    cat0: CatalogService,
    dir1: MarketplaceDirectory,
    dir0: MarketplaceDirectory,
    seller_id: SellerId,
    store: Option<(StoreId, String)>,
    body: CreateSellerProductRequest,
    variant_id: ProductVariantId,
    request_id: u128,
    r: Result<ProductDetailResponse, ApiFailure>,
) -> bool {
    match product_refusal(body.title@, body.description@, body.price_minor, body.currency@) {
        Some(e) => {
            &&& r matches Err(f) && failure_is(
                f,
                STATUS_BAD_REQUEST,
                ErrorCode::InvalidInput,
                catalog_error_message(e),
                request_id,
            )
            &&& cat1.store().products() == cat0.store().products()
            &&& cat1.store().inventories() == cat0.store().inventories()
            &&& dir1.listings() == dir0.listings()
        },
        None => if cat0.store().inventories().contains_key(variant_id) {
            &&& r matches Err(f) && failure_is(
                f,
                STATUS_INTERNAL_SERVER_ERROR,
                ErrorCode::InternalError,
                catalog_error_message(
                    CatalogError::Repository(CatalogRepositoryError::InventoryAlreadyExists),
                ),
                request_id,
            )
            &&& exists|id: ProductId|
                cat1.store().products() == cat0.store().products().insert(id, #[trigger] cat1.store().products()[id])
                    && product_made(cat1.store().products()[id], seller_id, body)
            &&& cat1.store().inventories() == cat0.store().inventories()
            &&& dir1.listings() == dir0.listings()
        } else {
            r matches Ok(d) && {
                let p = cat1.store().products()[d.product_id];
                let rec = dir1.listings()[d.product_id];
                &&& cat1.store().products() == cat0.store().products().insert(d.product_id, p)
                &&& product_made(p, seller_id, body)
                &&& rec.variant_id == variant_id
                &&& cat1.store().inventories() == cat0.store().inventories().insert(
                    variant_id,
                    InventoryView {
                        variant_id,
                        available_stock: match body.available_stock {
                            Some(n) => n,
                            None => 1,
                        },
                        reservations: Seq::empty(),
                    },
                )
                &&& dir1.listings() == dir0.listings().insert(d.product_id, rec)
                &&& listing_recorded(rec, body, store)
                &&& detail_shows(d, cat1.store(), dir1.listings(), p)
            }
        },
    }
}

/// A valid product request stocked under a fresh variant is answered with
/// the draft's page: its title, price and seller, one variant holding the
/// requested stock (one unit unless given), a 14-day refund window unless
/// given, and the delivery rules of its kind with their defaults.
pub proof fn lemma_valid_seller_product_page(
    cat1: CatalogService,
    cat0: CatalogService,
    dir1: MarketplaceDirectory,
    dir0: MarketplaceDirectory,
    seller_id: SellerId,
    store: Option<(StoreId, String)>,
    body: CreateSellerProductRequest,
    variant_id: ProductVariantId,
    request_id: u128,
    r: Result<ProductDetailResponse, ApiFailure>,
)
    requires
        seller_product_created(cat1, cat0, dir1, dir0, seller_id, store, body, variant_id, request_id, r),
        product_refusal(body.title@, body.description@, body.price_minor, body.currency@) is None,
        !cat0.store().inventories().contains_key(variant_id),
    ensures
        r matches Ok(d) && {
            &&& d.status == ApiProductStatus::Draft
            &&& d.seller_id == seller_id
            &&& d.title@ == trim_ws(body.title@)
            &&& d.price_minor == body.price_minor
            &&& d.currency@ == body.currency@
            &&& d.variants@.len() == 1
            &&& d.variants@[0].variant_id == variant_id
            &&& d.available_stock == match body.available_stock {
                Some(n) => n,
                None => 1,
            }
            &&& d.refund_rules.refund_window_days == match body.refund_window_days {
                Some(days) => days,
                None => 14,
            }
            &&& d.delivery_rules.fulfillment_type == body.fulfillment_type
            &&& match body.fulfillment_type {
                ApiFulfillmentType::Digital => {
                    &&& d.delivery_rules.estimated_days_min == 0
                    &&& d.delivery_rules.estimated_days_max == 0
                    &&& optional_text(d.delivery_rules.digital_method) == Some(
                        match body.digital {
                            Some(draft) => match draft.delivery_method {
                                Some(m) => m@,
                                None => "file_download"@,
                            },
                            None => "file_download"@,
                        },
                    )
                },
                ApiFulfillmentType::PhysicalStandard => {
                    &&& d.delivery_rules.estimated_days_min == match body.physical {
                        Some(draft) => match draft.estimated_days_min {
                            Some(days) => days,
                            None => 3,
                        },
                        None => 3,
                    }
                    &&& d.delivery_rules.estimated_days_max == match body.physical {
                        Some(draft) => match draft.estimated_days_max {
                            Some(days) => days,
                            None => 7,
                        },
                        None => 7,
                    }
                    &&& d.delivery_rules.digital_method is None
                },
            }
        },
{
    let d = r->Ok_0;
    let p = cat1.store().products()[d.product_id];
    let rec = dir1.listings()[d.product_id];
    assert(listing_of(dir1.listings(), p.id) == Some(rec));
    assert(stock_in(cat1.store(), variant_id) == match body.available_stock {
        Some(n) => n,
        None => 1,
    });
}

/// Creates a seller's product as a draft in the catalog, stocks a fresh
/// variant, records its listing, and answers with its product page.
pub fn create_product(
    catalog: &mut CatalogService,
    directory: &mut MarketplaceDirectory,
    seller_id: SellerId,
    store: Option<(StoreId, String)>,
    body: CreateSellerProductRequest,
    request_id: u128,
) -> (r: Result<ProductDetailResponse, ApiFailure>)
    requires
        old(catalog).wf(),
    ensures
        final(catalog).wf(),
        exists|variant_id: ProductVariantId|
            seller_product_created(
                *final(catalog),
                *old(catalog),
                *final(directory),
                *old(directory),
                seller_id,
                store,
                body,
                variant_id,
                request_id,
                r,
            ),
{
    let ghost body_view = body;
    let variant_id = ProductVariantId::new();
    let r = create_product_for_variant(catalog, directory, seller_id, store, body, variant_id, request_id);
    assert(seller_product_created(
        *catalog,
        *old(catalog),
        *directory,
        *old(directory),
        seller_id,
        store,
        body_view,
        variant_id,
        request_id,
        r,
    ));
    r
}

/// Creates a seller's product as `create_product` does, stocking it under
/// `variant_id`.
pub fn create_product_for_variant(
    catalog: &mut CatalogService,
    directory: &mut MarketplaceDirectory,
    seller_id: SellerId,
    store: Option<(StoreId, String)>,
    body: CreateSellerProductRequest,
    variant_id: ProductVariantId,
    request_id: u128,
) -> (r: Result<ProductDetailResponse, ApiFailure>)
    requires
        old(catalog).wf(),
    ensures
        final(catalog).wf(),
        seller_product_created(
            *final(catalog),
            *old(catalog),
            *final(directory),
            *old(directory),
            seller_id,
            store,
            body,
            variant_id,
            request_id,
            r,
        ),
{
    let CreateSellerProductRequest {
        title,
        description,
        fulfillment_type,
        price_minor,
        currency,
        available_stock,
        refund_window_days,
        digital,
        physical,
    } = body;
    let command = CreateProductCommand {
        seller_id,
        title,
        description,
        product_type: crate::catalog::product::FulfillmentType::from(fulfillment_type),
        price_minor,
        currency,
    };
    let product = match catalog.create_product(command) {
        Ok(product) => product,
        Err(e) => return Err(map_catalog_error(&e, request_id)),
    };
    let stock = match available_stock {
        Some(n) => n,
        None => 1,
    };
    match catalog.initialize_inventory(variant_id, stock) {
        Ok(()) => {},
        Err(e) => {
            assert(catalog.store().products()[product@.id] == product@);
            return Err(map_catalog_error(&e, request_id));
        },
    }
    let (estimated_days_min, estimated_days_max, digital_method, shipping_regions) = delivery_details(
        fulfillment_type,
        digital,
        physical,
    );
    let (store_id, store_name) = match store {
        Some((id, name)) => (Some(id), name),
        None => (None, copy_str("Store")),
    };
    let record = ProductListingRecord {
        variant_id,
        store_id,
        store_name,
        refund_window_days: match refund_window_days {
            Some(d) => d,
            None => 14,
        },
        digital_method,
        shipping_regions,
        estimated_days_min,
        estimated_days_max,
    };
    directory.remember_listing(product.id(), record);
    build_product_detail(catalog, directory, &product, request_id)
}

/// Product updates by sellers are not offered.
pub fn patch_product(request_id: u128) -> (r: ApiFailure)
    ensures
        failure_is(
            r,
            STATUS_NOT_IMPLEMENTED,
            ErrorCode::InternalError,
            "seller product updates are not implemented"@,
            request_id,
        ),
{
    error_response(
        STATUS_NOT_IMPLEMENTED,
        ErrorCode::InternalError,
        copy_str("seller product updates are not implemented"),
        request_id,
    )
}

} // verus!
