//! The cart endpoints: carts as the API shows them, with each line's
//! current stock, and the cart operations behind them.

use vstd::prelude::*;

use super::directory::MarketplaceDirectory;
use super::enums::{api_fulfillment_of, api_source_of, source_of, ApiCartItemSource, ApiFulfillmentType};
use super::errors::{cart_error_answer, map_cart_error};
use super::failure::{failure_is, internal_error, not_found, ApiFailure, STATUS_NOT_FOUND};
use super::identity::{actor_user_id, header_uuid, HeaderText, DEFAULT_TEST_USER_ID};
use crate::cart::cart::{
    add_item_result, added_line, item_position, lines_after_add, lines_other_than, lines_view,
    AddCartItem, AddCartItemView, Cart, CartError, CartItem, CartItemSource, CartItemView, CartView,
};
use crate::cart::service::{cart_service_error_message, CartService, CartServiceError};
use crate::catalog::product::ProductView;
use crate::catalog::repository::InMemoryCatalogRepository;
use crate::catalog::service::CatalogService;
use crate::error_code::ErrorCode;
use crate::ids::{CartId, CartItemId, ProductId, ProductVariantId, UserId};

verus! {

#[derive(Debug, PartialEq, Eq)]
pub struct CartItemResponse {
    pub cart_item_id: CartItemId,
    pub product_id: ProductId,
    pub variant_id: ProductVariantId,
    pub title: String,
    pub unit_price_minor: i64,
    pub currency: String,
    pub quantity: u64,
    pub source: ApiCartItemSource,
    pub fulfillment_type: ApiFulfillmentType,
    pub available_stock: u64,
}

pub struct CartItemResponseView {
    pub cart_item_id: CartItemId,
    pub product_id: ProductId,
    pub variant_id: ProductVariantId,
    pub title: Seq<char>,
    pub unit_price_minor: int,
    pub currency: Seq<char>,
    pub quantity: u64,
    pub source: ApiCartItemSource,
    pub fulfillment_type: ApiFulfillmentType,
    pub available_stock: u64,
}

impl View for CartItemResponse {
    type V = CartItemResponseView;

    open spec fn view(&self) -> CartItemResponseView {
        CartItemResponseView {
            cart_item_id: self.cart_item_id,
            product_id: self.product_id,
            variant_id: self.variant_id,
            title: self.title@,
            unit_price_minor: self.unit_price_minor as int,
            currency: self.currency@,
            quantity: self.quantity,
            source: self.source,
            fulfillment_type: self.fulfillment_type,
            available_stock: self.available_stock,
        }
    }
}

#[derive(Debug, PartialEq, Eq)]
pub struct CartResponse {
    pub cart_id: CartId,
    pub items: Vec<CartItemResponse>,
}

/// What a client asks to put in a cart; the variant, quantity and source
/// are optional.
#[derive(Debug, PartialEq, Eq)]
pub struct AddCartItemRequest {
    pub product_id: u128,
    pub variant_id: Option<u128>,
    pub quantity: Option<u64>,
    pub source: Option<ApiCartItemSource>,
}

#[derive(Debug, PartialEq, Eq)]
pub struct UpdateCartItemRequest {
    pub quantity: u64,
}

/// The stock a variant has available; none without an inventory.
pub open spec fn stock_in(store: InMemoryCatalogRepository, variant: ProductVariantId) -> u64 {
    if store.inventories().contains_key(variant) {
        store.inventories()[variant].available_stock
    } else {
        0
    }
}

/// A cart line as the API shows it, with the stock of its variant.
pub open spec fn line_answer(line: CartItemView, stock: u64) -> CartItemResponseView {
    CartItemResponseView {
        cart_item_id: line.id,
        product_id: line.product_id,
        variant_id: line.variant_id,
        title: line.title,
        unit_price_minor: line.unit_price@.minor,
        currency: line.unit_price@.currency@,
        quantity: line.quantity,
        source: api_source_of(line.source),
        fulfillment_type: api_fulfillment_of(line.fulfillment_type),
        available_stock: stock,
    }
}

pub open spec fn lines_answer(store: InMemoryCatalogRepository, lines: Seq<CartItemView>) -> Seq<CartItemResponseView> {
    lines.map_values(|l: CartItemView| line_answer(l, stock_in(store, l.variant_id)))
}

pub open spec fn item_answers(items: Seq<CartItemResponse>) -> Seq<CartItemResponseView> {
    items.map_values(|i: CartItemResponse| i@)
}

/// Whether `resp` shows `cart` with the stock of the catalog `store`.
pub open spec fn cart_answered(resp: CartResponse, store: InMemoryCatalogRepository, cart: CartView) -> bool {
    &&& resp.cart_id == cart.id
    &&& item_answers(resp.items@) == lines_answer(store, cart.items)
}

/// Whether `f` answers the cart error `e`.
pub open spec fn cart_failure(f: ApiFailure, e: CartServiceError, request_id: u128) -> bool {
    failure_is(
        f,
        cart_error_answer(e).0,
        cart_error_answer(e).1,
        cart_service_error_message(e),
        request_id,
    )
}

/// The user a header names: the default user when it is absent.
pub open spec fn header_user(header: HeaderText) -> Option<UserId> {
    if header is Missing {
        Some(UserId { value: DEFAULT_TEST_USER_ID })
    } else {
        match header_uuid(header) {
            Some(v) => Some(UserId { value: v }),
            None => None,
        }
    }
}

fn cart_item_response(catalog: &CatalogService, item: &CartItem, request_id: u128) -> (r: Result<
    CartItemResponse,
    ApiFailure,
>)
    requires
        catalog.wf(),
    ensures
        r matches Ok(resp) && resp@ == line_answer(item@, stock_in(catalog.store(), item@.variant_id)),
{
    let available_stock = match catalog.get_inventory(item.variant_id()) {
        Ok(Some(inventory)) => inventory.available_stock(),
        Ok(None) => 0,
        Err(e) => return Err(internal_error(request_id, e.message().as_str())),
    };
    Ok(
        CartItemResponse {
            cart_item_id: item.id(),
            product_id: item.product_id(),
            variant_id: item.variant_id(),
            title: crate::text::copy_str(item.title()),
            unit_price_minor: item.unit_price().minor(),
            currency: item.unit_price().currency().as_string(),
            quantity: item.quantity(),
            source: ApiCartItemSource::from(item.source()),
            fulfillment_type: ApiFulfillmentType::from(item.fulfillment_type()),
            available_stock,
        },
    )
}

/// `cart` as the API shows it.
pub fn cart_response(catalog: &CatalogService, cart: &Cart, request_id: u128) -> (r: Result<
    CartResponse,
    ApiFailure,
>)
    requires
        catalog.wf(),
    ensures
        r matches Ok(resp) && cart_answered(resp, catalog.store(), cart@),
{
    let lines = cart.items();
    let ghost all = lines_answer(catalog.store(), cart@.items);
    let mut items: Vec<CartItemResponse> = Vec::new();
    let mut i: usize = 0;
    while i < lines.len()
        invariant
            i <= lines@.len(),
            lines_view(lines@) == cart@.items,
            all == lines_answer(catalog.store(), cart@.items),
            catalog.wf(),
            item_answers(items@) == all.take(i as int),
        decreases lines@.len() - i,
    {
        let response = cart_item_response(catalog, &lines[i], request_id)?;
        let ghost prior = items@;
        assert(lines_view(lines@)[i as int] == lines@[i as int]@);
        items.push(response);
        assert(item_answers(items@) =~= item_answers(prior).push(response@));
        assert(item_answers(items@) =~= all.take(i + 1));
        i = i + 1;
    }
    assert(all.take(i as int) =~= all);
    Ok(CartResponse { cart_id: cart.id(), items })
}

/// The cart `cart_id`; an unknown cart is not found.
pub fn load_cart(carts: &CartService, cart_id: CartId, request_id: u128) -> (r: Result<Cart, ApiFailure>)
    requires
        carts.wf(),
    ensures
        carts.store().carts().contains_key(cart_id) ==> (r matches Ok(c) && c@
            == carts.store().carts()[cart_id]),
        !carts.store().carts().contains_key(cart_id) ==> (r matches Err(f) && failure_is(
            f,
            STATUS_NOT_FOUND,
            ErrorCode::NotFound,
            "cart was not found"@,
            request_id,
        )),
{
    match carts.get_cart(cart_id) {
        Ok(Some(cart)) => Ok(cart),
        Ok(None) => Err(not_found(request_id, "cart was not found")),
        Err(e) => Err(map_cart_error(&e, request_id)),
    }
}

/// Creates an empty cart for the request's user.
pub fn create_cart(
    carts: &mut CartService,
    catalog: &CatalogService,
    user_header: &HeaderText,
    request_id: u128,
) -> (r: Result<CartResponse, ApiFailure>)
    requires
        old(carts).wf(),
        catalog.wf(),
    ensures
        final(carts).wf(),
        match header_user(*user_header) {
            None => r is Err && final(carts).store().carts() == old(carts).store().carts(),
            Some(owner) => r matches Ok(resp) && resp.items@.len() == 0 && final(carts).store().carts() == old(carts).store().carts().insert(
                resp.cart_id,
                CartView { id: resp.cart_id, owner_id: owner, items: Seq::empty() },
            ),
        },
{
    let owner_id = actor_user_id(user_header, request_id)?;
    let cart = match carts.create_cart(owner_id) {
        Ok(cart) => cart,
        Err(e) => return Err(map_cart_error(&e, request_id)),
    };
    let response = cart_response(catalog, &cart, request_id)?;
    assert(cart@ == CartView { id: response.cart_id, owner_id, items: Seq::empty() });
    assert(item_answers(response.items@).len() == 0);
    Ok(response)
}

/// The cart `cart_id` as the API shows it.
pub fn get_cart(carts: &CartService, catalog: &CatalogService, cart_id: CartId, request_id: u128) -> (r:
    Result<CartResponse, ApiFailure>)
    requires
        carts.wf(),
        catalog.wf(),
    ensures
        carts.store().carts().contains_key(cart_id) ==> (r matches Ok(resp) && cart_answered(
            resp,
            catalog.store(),
            carts.store().carts()[cart_id],
        )),
        !carts.store().carts().contains_key(cart_id) ==> (r matches Err(f) && failure_is(
            f,
            STATUS_NOT_FOUND,
            ErrorCode::NotFound,
            "cart was not found"@,
            request_id,
        )),
{
    let cart = load_cart(carts, cart_id, request_id)?;
    cart_response(catalog, &cart, request_id)
}

/// The variant a request adds: the one it names, else the product's listed
/// variant, else the variant with the product's own identifier.
pub open spec fn requested_variant(directory: MarketplaceDirectory, body: AddCartItemRequest) -> ProductVariantId {
    match body.variant_id {
        Some(v) => ProductVariantId { value: v },
        None => {
            let product_id = ProductId { value: body.product_id };
            if directory.listings().contains_key(product_id) {
                directory.listings()[product_id].variant_id
            } else {
                ProductVariantId { value: body.product_id }
            }
        },
    }
}

/// The line a request adds: the product's title, price and kind, one unit
/// from the user unless it says otherwise.
pub open spec fn requested_line(p: ProductView, body: AddCartItemRequest, variant: ProductVariantId) -> AddCartItemView {
    AddCartItemView {
        product_id: ProductId { value: body.product_id },
        variant_id: variant,
        title: p.title,
        unit_price: p.price,
        quantity: match body.quantity {
            Some(q) => q,
            None => 1,
        },
        source: match body.source {
            Some(s) => source_of(s),
            None => source_of(ApiCartItemSource::User),
        },
        fulfillment_type: p.product_type,
    }
}

/// Adds a catalog product to cart `cart_id` at its current title and price.
pub fn add_item(
    carts: &mut CartService,
    catalog: &CatalogService,
    directory: &MarketplaceDirectory,
    cart_id: CartId,
    body: AddCartItemRequest,
    request_id: u128,
) -> (r: Result<CartResponse, ApiFailure>)
    requires
        old(carts).wf(),
        catalog.wf(),
    ensures
        final(carts).wf(),
        r is Err ==> final(carts).store().carts() == old(carts).store().carts(),
        !catalog.store().products().contains_key(ProductId { value: body.product_id }) ==> (r matches Err(
            f,
        ) && failure_is(f, STATUS_NOT_FOUND, ErrorCode::NotFound, "product was not found"@, request_id)),
        catalog.store().products().contains_key(ProductId { value: body.product_id }) ==> {
            let item = requested_line(
                catalog.store().products()[ProductId { value: body.product_id }],
                body,
                requested_variant(*directory, body),
            );
            &&& !old(carts).store().carts().contains_key(cart_id) ==> (r matches Err(f) && cart_failure(
                f,
                CartServiceError::CartNotFound,
                request_id,
            ))
            &&& old(carts).store().carts().contains_key(cart_id) ==> {
                let before = old(carts).store().carts()[cart_id];
                match add_item_result(before.items, item) {
                    Err(e) => r matches Err(f) && cart_failure(f, CartServiceError::Cart(e), request_id),
                    Ok(()) => r matches Ok(resp) && cart_answered(
                        resp,
                        catalog.store(),
                        final(carts).store().carts()[cart_id],
                    ) && exists|line: CartItemView|
                        #[trigger] added_line(before.items, item, line) && final(carts).store().carts()
                            == old(carts).store().carts().insert(
                            cart_id,
                            CartView { items: lines_after_add(before.items, item, line), ..before },
                        ),
                }
            }
        },
{
    let product_id = ProductId::from_u128(body.product_id);
    let product = match catalog.get_product(product_id) {
        Ok(Some(product)) => product,
        Ok(None) => return Err(not_found(request_id, "product was not found")),
        Err(e) => return Err(internal_error(request_id, e.message().as_str())),
    };
    let variant_id = match body.variant_id {
        Some(v) => ProductVariantId::from_u128(v),
        None => match directory.variant_for(product_id) {
            Some(v) => v,
            None => ProductVariantId::from_u128(product_id.as_u128()),
        },
    };
    let source = match body.source {
        Some(s) => s,
        None => ApiCartItemSource::User,
    };
    let quantity = match body.quantity {
        Some(q) => q,
        None => 1,
    };
    let item = AddCartItem {
        product_id,
        variant_id,
        title: crate::text::copy_str(product.title()),
        unit_price: *product.price(),
        quantity,
        source: CartItemSource::from(source),
        fulfillment_type: product.product_type(),
    };
    match carts.add_item(cart_id, item) {
        Ok(_) => {},
        Err(e) => return Err(map_cart_error(&e, request_id)),
    }
    let cart = load_cart(carts, cart_id, request_id)?;
    cart_response(catalog, &cart, request_id)
}

/// What setting the quantity of a line does to the carts: the cart and the
/// line must exist and the quantity must not be zero.
pub open spec fn quantity_update(
    carts: Map<CartId, CartView>,
    cart_id: CartId,
    item_id: CartItemId,
    quantity: u64,
) -> Result<CartView, CartServiceError> {
    if !carts.contains_key(cart_id) {
        Err(CartServiceError::CartNotFound)
    } else {
        let before = carts[cart_id];
        let k = item_position(before.items, item_id);
        if quantity == 0 {
            Err(CartServiceError::Cart(CartError::InvalidQuantity))
        } else if k < 0 {
            Err(CartServiceError::Cart(CartError::ItemNotFound))
        } else {
            Ok(CartView { items: before.items.update(k, CartItemView { quantity, ..before.items[k] }), ..before })
        }
    }
}

/// Sets the quantity of line `item_id` of cart `cart_id`.
pub fn update_item(
    carts: &mut CartService,
    catalog: &CatalogService,
    cart_id: CartId,
    item_id: CartItemId,
    body: UpdateCartItemRequest,
    request_id: u128,
) -> (r: Result<CartResponse, ApiFailure>)
    requires
        old(carts).wf(),
        catalog.wf(),
    ensures
        final(carts).wf(),
        match quantity_update(old(carts).store().carts(), cart_id, item_id, body.quantity) {
            Err(e) => r matches Err(f) && cart_failure(f, e, request_id) && final(carts).store().carts()
                == old(carts).store().carts(),
            Ok(cart) => r matches Ok(resp) && cart_answered(resp, catalog.store(), cart) && final(carts).store().carts() == old(carts).store().carts().insert(cart_id, cart),
        },
{
    match carts.update_quantity(cart_id, item_id, body.quantity) {
        Ok(()) => {},
        Err(e) => return Err(map_cart_error(&e, request_id)),
    }
    let cart = load_cart(carts, cart_id, request_id)?;
    cart_response(catalog, &cart, request_id)
}

/// Removes line `item_id` from cart `cart_id`; a line that is not there is
/// not found.
pub fn remove_item(carts: &mut CartService, cart_id: CartId, item_id: CartItemId, request_id: u128) -> (r:
    Result<(), ApiFailure>)
    requires
        old(carts).wf(),
    ensures
        final(carts).wf(),
        !old(carts).store().carts().contains_key(cart_id) ==> (r matches Err(f) && cart_failure(
            f,
            CartServiceError::CartNotFound,
            request_id,
        )) && final(carts).store().carts() == old(carts).store().carts(),
        old(carts).store().carts().contains_key(cart_id) ==> {
            let before = old(carts).store().carts()[cart_id];
            let held = exists|j: int| 0 <= j < before.items.len() && before.items[j].id == item_id;
            &&& held ==> r is Ok
            &&& !held ==> (r matches Err(f) && failure_is(
                f,
                STATUS_NOT_FOUND,
                ErrorCode::NotFound,
                "cart item was not found"@,
                request_id,
            ))
            &&& final(carts).store().carts() == old(carts).store().carts().insert(
                cart_id,
                CartView { items: before.items.filter(lines_other_than(item_id)), ..before },
            )
        },
{
    let removed = match carts.remove_item(cart_id, item_id) {
        Ok(removed) => removed,
        Err(e) => return Err(map_cart_error(&e, request_id)),
    };
    if !removed {
        return Err(not_found(request_id, "cart item was not found"));
    }
    Ok(())
}

} // verus!
