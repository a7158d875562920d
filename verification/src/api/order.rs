//! The lines of a new order, taken from a cart or from the request itself,
//! with the catalog filling in what the request leaves out.

use vstd::prelude::*;

use super::enums::{fulfillment_of, ApiFulfillmentType};
use super::failure::{failure_is, internal_error, invalid_input, not_found, ApiFailure, STATUS_BAD_REQUEST, STATUS_NOT_FOUND};
use crate::cart::cart::CartItem;
use crate::catalog::product::{FulfillmentType, ProductView};
use crate::catalog::service::CatalogService;
use crate::error_code::ErrorCode;
use crate::ids::{ProductId, ProductVariantId, SellerId};
use crate::money::{currency_code_error_message, is_currency_code, money_error_message, CurrencyCode, Money, MoneyError, CurrencyCodeError};
use crate::text::copy_str;

verus! {

/// One line of an order to place: the product, its seller, title and unit
/// price, the quantity and how it is delivered.
#[derive(Debug, PartialEq, Eq)]
pub struct OrderLineDraft {
    pub product_id: ProductId,
    pub variant_id: ProductVariantId,
    pub seller_id: SellerId,
    pub title: String,
    pub unit_price: Money,
    pub quantity: u64,
    pub fulfillment_type: FulfillmentType,
}

/// A line that a client asks to order; what it leaves out comes from the catalog.
#[derive(Debug, PartialEq, Eq)]
pub struct CreateOrderItemRequest {
    pub product_id: u128,
    pub variant_id: u128,
    pub quantity: u64,
    pub title: Option<String>,
    pub unit_price_minor: Option<i64>,
    pub currency: Option<String>,
    pub seller_id: Option<u128>,
    pub fulfillment_type: Option<ApiFulfillmentType>,
}

/// The line to order for cart line `item` of product `p`: the catalog's
/// seller, title, current price and kind, with the line's quantity.
pub fn order_line_from_cart(catalog: &CatalogService, item: &CartItem, request_id: u128) -> (r: Result<
    OrderLineDraft,
    ApiFailure,
>)
    requires
        catalog.wf(),
    ensures
        !catalog.store().products().contains_key(item@.product_id) ==> (r matches Err(f) && failure_is(
            f,
            STATUS_NOT_FOUND,
            ErrorCode::NotFound,
            "product was not found"@,
            request_id,
        )),
        catalog.store().products().contains_key(item@.product_id) ==> (r matches Ok(line) && {
            let p = catalog.store().products()[item@.product_id];
            &&& line.product_id == item@.product_id
            &&& line.variant_id == item@.variant_id
            &&& line.seller_id == p.seller_id
            &&& line.title@ == p.title
            &&& line.unit_price == p.price
            &&& line.quantity == item@.quantity
            &&& line.fulfillment_type == p.product_type
        }),
{
    let product = match catalog.get_product(item.product_id()) {
        Ok(Some(product)) => product,
        Ok(None) => return Err(not_found(request_id, "product was not found")),
        Err(e) => return Err(internal_error(request_id, e.message().as_str())),
    };
    Ok(
        OrderLineDraft {
            product_id: item.product_id(),
            variant_id: item.variant_id(),
            seller_id: product.seller_id(),
            title: copy_str(product.title()),
            unit_price: *product.price(),
            quantity: item.quantity(),
            fulfillment_type: product.product_type(),
        },
    )
}

/// Why a requested line cannot be ordered, if it cannot: a field that
/// neither the request nor a catalog product gives, or a price that the
/// request states badly. Checked in order: title, price, seller, kind.
pub open spec fn order_line_refusal(p: Option<ProductView>, item: CreateOrderItemRequest) -> Option<Seq<char>> {
    if item.title is None && p is None {
        Some("order item title is required"@)
    } else if p is None && item.currency is None {
        Some("order item currency is required"@)
    } else if p is None && !is_currency_code(item.currency->0@) {
        Some(currency_code_error_message(CurrencyCodeError::Invalid))
    } else if p is None && match item.unit_price_minor {
        Some(m) => m < 0,
        None => false,
    } {
        Some(money_error_message(MoneyError::NegativeAmount))
    } else if item.seller_id is None && p is None {
        Some("order item seller_id is required"@)
    } else if item.fulfillment_type is None && p is None {
        Some("order item fulfillment_type is required"@)
    } else {
        None
    }
}

/// Whether `line` is the line ordered for `item`, with `p` the catalog's
/// product if it has one: the request's title, seller and kind win over the
/// product's; the product's price wins over the request's.
pub open spec fn order_line_made(line: OrderLineDraft, p: Option<ProductView>, item: CreateOrderItemRequest) -> bool {
    &&& line.product_id == ProductId { value: item.product_id }
    &&& line.variant_id == ProductVariantId { value: item.variant_id }
    &&& line.title@ == match item.title {
        Some(t) => t@,
        None => p->0.title,
    }
    &&& match p {
        Some(product) => line.unit_price == product.price,
        None => line.unit_price@.currency@ == item.currency->0@ && line.unit_price@.minor == match item.unit_price_minor {
            Some(m) => m,
            None => 0,
        },
    }
    &&& line.seller_id == match item.seller_id {
        Some(s) => SellerId { value: s },
        None => p->0.seller_id,
    }
    &&& line.fulfillment_type == match item.fulfillment_type {
        Some(f) => fulfillment_of(f),
        None => p->0.product_type,
    }
    &&& line.quantity == item.quantity
}

/// The line to order for `item`.
pub fn order_line_from_request(catalog: &CatalogService, item: CreateOrderItemRequest, request_id: u128) -> (r:
    Result<OrderLineDraft, ApiFailure>)
    requires
        catalog.wf(),
    ensures
        ({
            let id = ProductId { value: item.product_id };
            let p = if catalog.store().products().contains_key(id) {
                Some(catalog.store().products()[id])
            } else {
                None
            };
            match order_line_refusal(p, item) {
                Some(message) => r matches Err(f) && failure_is(
                    f,
                    STATUS_BAD_REQUEST,
                    ErrorCode::InvalidInput,
                    message,
                    request_id,
                ),
                None => r matches Ok(line) && order_line_made(line, p, item),
            }
        }),
{
    let product_id = ProductId::from_u128(item.product_id);
    let product = match catalog.get_product(product_id) {
        Ok(found) => found,
        Err(_) => None,
    };
    let CreateOrderItemRequest {
        product_id: _,
        variant_id,
        quantity,
        title,
        unit_price_minor,
        currency,
        seller_id,
        fulfillment_type,
    } = item;
    let title = match title {
        Some(t) => t,
        None => match &product {
            Some(p) => copy_str(p.title()),
            None => return Err(invalid_input(request_id, "order item title is required")),
        },
    };
    let unit_price = match &product {
        Some(p) => *p.price(),
        None => {
            let currency = match currency {
                Some(c) => c,
                None => return Err(invalid_input(request_id, "order item currency is required")),
            };
            let code = match CurrencyCode::parse(currency.as_str()) {
                Ok(code) => code,
                Err(e) => return Err(invalid_input(request_id, e.message().as_str())),
            };
            let minor = match unit_price_minor {
                Some(m) => m,
                None => 0,
            };
            match Money::new(minor, code) {
                Ok(amount) => amount,
                Err(e) => return Err(invalid_input(request_id, e.message().as_str())),
            }
        },
    };
    let seller_id = match seller_id {
        Some(s) => SellerId::from_u128(s),
        None => match &product {
            Some(p) => p.seller_id(),
            None => return Err(invalid_input(request_id, "order item seller_id is required")),
        },
    };
    let fulfillment_type = match fulfillment_type {
        Some(f) => FulfillmentType::from(f),
        None => match &product {
            Some(p) => p.product_type(),
            None => return Err(invalid_input(request_id, "order item fulfillment_type is required")),
        },
    };
    Ok(
        OrderLineDraft {
            product_id,
            variant_id: ProductVariantId::from_u128(variant_id),
            seller_id,
            title,
            unit_price,
            quantity,
            fulfillment_type,
        },
    )
}

} // verus!
