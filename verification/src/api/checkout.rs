//! The checkout preview: each cart line at the catalog's current price, the
//! subtotal, and whether prices changed or stock ran short.

use vstd::prelude::*;

use super::cart::load_cart;
use super::enums::{api_fulfillment_of, api_source_of, ApiCartItemSource, ApiFulfillmentType};
use super::failure::{
    empty_cart_error, failure_is, internal_error, invalid_input, not_found, ApiFailure,
    STATUS_BAD_REQUEST, STATUS_NOT_FOUND,
};
use crate::cart::cart::{lines_view, Cart, CartItemView};
use crate::cart::service::CartService;
use crate::catalog::repository::InMemoryCatalogRepository;
use crate::catalog::service::CatalogService;
use crate::error_code::ErrorCode;
use crate::ids::{CartId, ProductId, ProductVariantId};
use crate::text::copy_str;

verus! {

/// How long a checkout preview holds: fifteen minutes.
pub const CHECKOUT_HOLD_MILLIS: i64 = 900_000;

#[derive(Debug, PartialEq, Eq)]
pub struct CheckoutLineItemResponse {
    pub product_id: ProductId,
    pub variant_id: ProductVariantId,
    pub title: String,
    pub quantity: u64,
    pub snapshot_unit_price_minor: i64,
    pub current_unit_price_minor: i64,
    pub currency: String,
    pub fulfillment_type: ApiFulfillmentType,
    pub available_stock: u64,
    pub source: ApiCartItemSource,
}

pub struct CheckoutLineView {
    pub product_id: ProductId,
    pub variant_id: ProductVariantId,
    pub title: Seq<char>,
    pub quantity: u64,
    pub snapshot_unit_price_minor: int,
    pub current_unit_price_minor: int,
    pub currency: Seq<char>,
    pub fulfillment_type: ApiFulfillmentType,
    pub available_stock: u64,
    pub source: ApiCartItemSource,
}

impl View for CheckoutLineItemResponse {
    type V = CheckoutLineView;

    open spec fn view(&self) -> CheckoutLineView {
        CheckoutLineView {
            product_id: self.product_id,
            variant_id: self.variant_id,
            title: self.title@,
            quantity: self.quantity,
            snapshot_unit_price_minor: self.snapshot_unit_price_minor as int,
            current_unit_price_minor: self.current_unit_price_minor as int,
            currency: self.currency@,
            fulfillment_type: self.fulfillment_type,
            available_stock: self.available_stock,
            source: self.source,
        }
    }
}

#[derive(Debug, PartialEq, Eq)]
pub struct CheckoutPreviewResponse {
    pub items: Vec<CheckoutLineItemResponse>,
    pub subtotal_minor: i64,
    pub shipping_fee_minor: i64,
    pub tax_minor: i64,
    pub total_minor: i64,
    pub currency: String,
    /// Milliseconds since the epoch at which the preview lapses.
    pub expires_at: i64,
    pub requires_price_reconfirm: bool,
    pub inventory_is_available: bool,
    pub payment_provider_status: String,
}

/// The preview of a prefix of the cart lines.
pub struct CheckoutTally {
    pub lines: Seq<CheckoutLineView>,
    pub subtotal: int,
    pub reconfirm: bool,
    pub available: bool,
    pub currency: Option<Seq<char>>,
}

/// Why a preview stops: its status, code and message.
pub struct CheckoutStop {
    pub status: u16,
    pub code: ErrorCode,
    pub message: Seq<char>,
}

pub open spec fn views_of(items: Seq<CheckoutLineItemResponse>) -> Seq<CheckoutLineView> {
    items.map_values(|i: CheckoutLineItemResponse| i@)
}

/// The preview of cart lines `items` over the catalog `store`, line by
/// line: a line's product must exist, and its quantity and the running
/// subtotal at the current price must stay within the range of `i64`. The
/// price needs reconfirming when a line's snapshot differs from the current
/// price; stock is short when a variant's known stock is below its quantity;
/// the currency is that of the last line.
pub open spec fn checkout_tally(store: InMemoryCatalogRepository, items: Seq<CartItemView>) -> Result<
    CheckoutTally,
    CheckoutStop,
>
    decreases items.len(),
{
    if items.len() == 0 {
        Ok(CheckoutTally { lines: Seq::empty(), subtotal: 0, reconfirm: false, available: true, currency: None })
    } else {
        match checkout_tally(store, items.drop_last()) {
            Err(stop) => Err(stop),
            Ok(t) => {
                let item = items.last();
                if !store.products().contains_key(item.product_id) {
                    Err(CheckoutStop { status: STATUS_NOT_FOUND, code: ErrorCode::NotFound, message: "product was not found"@ })
                } else {
                    let p = store.products()[item.product_id];
                    let known = store.inventories().contains_key(item.variant_id);
                    let stock = if known { store.inventories()[item.variant_id].available_stock } else { 0 };
                    let current = p.price@.minor;
                    let line_total = current * item.quantity;
                    if item.quantity > i64::MAX {
                        Err(CheckoutStop { status: STATUS_BAD_REQUEST, code: ErrorCode::InvalidInput, message: "cart item quantity is too large"@ })
                    } else if line_total > i64::MAX || line_total < i64::MIN || t.subtotal + line_total > i64::MAX
                        || t.subtotal + line_total < i64::MIN {
                        Err(CheckoutStop { status: STATUS_BAD_REQUEST, code: ErrorCode::InvalidInput, message: "checkout subtotal overflowed"@ })
                    } else {
                        Ok(
                            CheckoutTally {
                                lines: t.lines.push(
                                    CheckoutLineView {
                                        product_id: item.product_id,
                                        variant_id: item.variant_id,
                                        title: p.title,
                                        quantity: item.quantity,
                                        snapshot_unit_price_minor: item.unit_price@.minor,
                                        current_unit_price_minor: current,
                                        currency: p.price@.currency@,
                                        fulfillment_type: api_fulfillment_of(p.product_type),
                                        available_stock: stock,
                                        source: api_source_of(item.source),
                                    },
                                ),
                                subtotal: t.subtotal + line_total,
                                reconfirm: t.reconfirm || current != item.unit_price@.minor,
                                available: t.available && !(known && stock < item.quantity),
                                currency: Some(p.price@.currency@),
                            },
                        )
                    }
                }
            },
        }
    }
}

/// Once a prefix of the lines stops the preview, the whole cart stops it
/// the same way.
proof fn lemma_tally_stop_persists(store: InMemoryCatalogRepository, items: Seq<CartItemView>, i: int)
    requires
        0 <= i <= items.len(),
        checkout_tally(store, items.take(i)) is Err,
    ensures
        checkout_tally(store, items) == checkout_tally(store, items.take(i)),
    decreases items.len() - i,
{
    if i < items.len() {
        assert(items.take(i + 1).drop_last() =~= items.take(i));
        lemma_tally_stop_persists(store, items, i + 1);
    } else {
        assert(items.take(i) =~= items);
    }
}

/// What the lines `items` cost at the catalog's current prices.
pub open spec fn current_subtotal(store: InMemoryCatalogRepository, items: Seq<CartItemView>) -> int
    decreases items.len(),
{
    if items.len() == 0 {
        0
    } else {
        current_subtotal(store, items.drop_last()) + store.products()[items.last().product_id].price@.minor
            * items.last().quantity
    }
}

/// A preview lists the cart's lines in order at their current prices; its
/// subtotal is what they cost at those prices; a price must be reconfirmed
/// exactly when some line's snapshot differs from its current price; and
/// stock is available exactly when no line's known stock is below its
/// quantity.
pub proof fn lemma_checkout_preview_totals(store: InMemoryCatalogRepository, items: Seq<CartItemView>)
    requires
        checkout_tally(store, items) is Ok,
    ensures
        ({
            let t = checkout_tally(store, items)->Ok_0;
            &&& t.lines.len() == items.len()
            &&& t.subtotal == current_subtotal(store, items)
            &&& forall|i: int|
                0 <= i < items.len() ==> {
                    let line = #[trigger] t.lines[i];
                    let p = store.products()[items[i].product_id];
                    &&& store.products().contains_key(items[i].product_id)
                    &&& line.product_id == items[i].product_id
                    &&& line.variant_id == items[i].variant_id
                    &&& line.quantity == items[i].quantity
                    &&& line.snapshot_unit_price_minor == items[i].unit_price@.minor
                    &&& line.current_unit_price_minor == p.price@.minor
                }
            &&& t.reconfirm == exists|i: int|
                0 <= i < items.len() && #[trigger] items[i].unit_price@.minor
                    != store.products()[items[i].product_id].price@.minor
            &&& t.available == !exists|i: int|
                0 <= i < items.len() && store.inventories().contains_key(#[trigger] items[i].variant_id)
                    && store.inventories()[items[i].variant_id].available_stock < items[i].quantity
        }),
    decreases items.len(),
{
    if items.len() > 0 {
        let rest = items.drop_last();
        assert(checkout_tally(store, rest) is Ok);
        lemma_checkout_preview_totals(store, rest);
        let t0 = checkout_tally(store, rest)->Ok_0;
        let t = checkout_tally(store, items)->Ok_0;
        let n = rest.len() as int;
        assert forall|i: int| 0 <= i < items.len() implies {
            let line = #[trigger] t.lines[i];
            let p = store.products()[items[i].product_id];
            &&& store.products().contains_key(items[i].product_id)
            &&& line.product_id == items[i].product_id
            &&& line.variant_id == items[i].variant_id
            &&& line.quantity == items[i].quantity
            &&& line.snapshot_unit_price_minor == items[i].unit_price@.minor
            &&& line.current_unit_price_minor == p.price@.minor
        } by {
            if i < n {
                assert(t.lines[i] == t0.lines[i]);
                assert(items[i] == rest[i]);
            }
        }
        if t.reconfirm {
            if !t0.reconfirm {
                assert(items[n].unit_price@.minor != store.products()[items[n].product_id].price@.minor);
            } else {
                let i = choose|i: int| 0 <= i < rest.len() && #[trigger] rest[i].unit_price@.minor
                    != store.products()[rest[i].product_id].price@.minor;
                assert(items[i] == rest[i]);
            }
        } else {
            assert forall|i: int| 0 <= i < items.len() implies !(#[trigger] items[i].unit_price@.minor
                != store.products()[items[i].product_id].price@.minor) by {
                if i < n {
                    assert(items[i] == rest[i]);
                }
            }
        }
        if !t.available {
            if t0.available {
                assert(store.inventories().contains_key(items[n].variant_id));
            } else {
                let i = choose|i: int| 0 <= i < rest.len() && store.inventories().contains_key(
                    #[trigger] rest[i].variant_id,
                ) && store.inventories()[rest[i].variant_id].available_stock < rest[i].quantity;
                assert(items[i] == rest[i]);
            }
        } else {
            assert forall|i: int| 0 <= i < items.len() implies !(store.inventories().contains_key(
                #[trigger] items[i].variant_id,
            ) && store.inventories()[items[i].variant_id].available_stock < items[i].quantity) by {
                if i < n {
                    assert(items[i] == rest[i]);
                }
            }
        }
    }
}

/// Every product of `items` is in the catalog, every quantity fits in an
/// `i64`, and every line total and running subtotal at current prices stays
/// within the range of `i64`.
pub open spec fn checkout_fits(store: InMemoryCatalogRepository, items: Seq<CartItemView>) -> bool
    decreases items.len(),
{
    if items.len() == 0 {
        true
    } else {
        let item = items.last();
        let line = store.products()[item.product_id].price@.minor * item.quantity;
        &&& checkout_fits(store, items.drop_last())
        &&& store.products().contains_key(item.product_id)
        &&& item.quantity <= i64::MAX
        &&& i64::MIN <= line <= i64::MAX
        &&& i64::MIN <= current_subtotal(store, items) <= i64::MAX
    }
}

/// A preview is made for every cart whose products are all in the catalog
/// and whose amounts fit.
pub proof fn lemma_checkout_preview_made(store: InMemoryCatalogRepository, items: Seq<CartItemView>)
    requires
        checkout_fits(store, items),
    ensures
        checkout_tally(store, items) is Ok,
    decreases items.len(),
{
    if items.len() > 0 {
        lemma_checkout_preview_made(store, items.drop_last());
        lemma_checkout_preview_totals(store, items.drop_last());
    }
}

/// A preview is priced in the currency of the catalog price of its last
/// line; only a cart without lines has no currency of its own (and is shown
/// in "USD").
pub proof fn lemma_checkout_currency(store: InMemoryCatalogRepository, items: Seq<CartItemView>)
    requires
        checkout_tally(store, items) is Ok,
    ensures
        items.len() == 0 ==> checkout_tally(store, items)->Ok_0.currency is None,
        items.len() > 0 ==> checkout_tally(store, items)->Ok_0.currency == Some(
            store.products()[items.last().product_id].price@.currency@,
        ),
        items.len() > 0 ==> forall|i: int|
            0 <= i < items.len() ==> (#[trigger] checkout_tally(store, items)->Ok_0.lines[i]).currency
                == store.products()[items[i].product_id].price@.currency@,
    decreases items.len(),
{
    if items.len() > 0 {
        let rest = items.drop_last();
        assert(checkout_tally(store, rest) is Ok);
        lemma_checkout_currency(store, rest);
        lemma_checkout_preview_totals(store, rest);
        lemma_checkout_preview_totals(store, items);
        let t0 = checkout_tally(store, rest)->Ok_0;
        let t = checkout_tally(store, items)->Ok_0;
        assert forall|i: int| 0 <= i < items.len() implies (#[trigger] t.lines[i]).currency
            == store.products()[items[i].product_id].price@.currency@ by {
            if i < rest.len() {
                assert(t.lines[i] == t0.lines[i]);
                assert(items[i] == rest[i]);
            }
        }
    }
}

/// Whether `resp` is the preview of `cart` over `store` made at `now`.
pub open spec fn preview_shows(resp: CheckoutPreviewResponse, t: CheckoutTally, now: i64) -> bool {
    &&& views_of(resp.items@) == t.lines
    &&& resp.subtotal_minor == t.subtotal
    &&& resp.shipping_fee_minor == 0
    &&& resp.tax_minor == 0
    &&& resp.total_minor == t.subtotal
    &&& resp.currency@ == match t.currency {
        Some(c) => c,
        None => "USD"@,
    }
    &&& resp.expires_at == now + CHECKOUT_HOLD_MILLIS
    &&& resp.requires_price_reconfirm == t.reconfirm
    &&& resp.inventory_is_available == t.available
    &&& resp.payment_provider_status@ == "not_started"@
}

/// The preview of `cart` at `now`.
pub fn build_checkout_preview(catalog: &CatalogService, cart: &Cart, now: i64, request_id: u128) -> (r:
    Result<CheckoutPreviewResponse, ApiFailure>)
    requires
        catalog.wf(),
        now <= i64::MAX - CHECKOUT_HOLD_MILLIS,
    ensures
        match checkout_tally(catalog.store(), cart@.items) {
            Ok(t) => r matches Ok(resp) && preview_shows(resp, t, now),
            Err(stop) => r matches Err(f) && failure_is(f, stop.status, stop.code, stop.message, request_id),
        },
{
    let lines = cart.items();
    let ghost all = lines_view(lines@);
    let mut items: Vec<CheckoutLineItemResponse> = Vec::new();
    let mut subtotal_minor: i64 = 0;
    let mut requires_price_reconfirm = false;
    let mut inventory_is_available = true;
    let mut currency: Option<String> = None;
    let mut i: usize = 0;
    while i < lines.len()
        invariant
            i <= lines@.len(),
            all == lines_view(lines@),
            all == cart@.items,
            catalog.wf(),
            checkout_tally(catalog.store(), all.take(i as int)) matches Ok(t) && {
                &&& views_of(items@) == t.lines
                &&& subtotal_minor == t.subtotal
                &&& requires_price_reconfirm == t.reconfirm
                &&& inventory_is_available == t.available
                &&& match currency {
                    Some(c) => t.currency == Some(c@),
                    None => t.currency is None,
                }
            },
        decreases lines@.len() - i,
    {
        let item = &lines[i];
        proof {
            assert(all.take(i + 1).drop_last() =~= all.take(i as int));
            assert(all.take(i + 1).last() == item@);
        }
        let product = match catalog.get_product(item.product_id()) {
            Ok(Some(product)) => product,
            Ok(None) => {
                proof {
                    lemma_tally_stop_persists(catalog.store(), all, i + 1);
                }
                return Err(not_found(request_id, "product was not found"));
            },
            Err(e) => return Err(internal_error(request_id, e.message().as_str())),
        };
        let available_stock: Option<u64> = match catalog.get_inventory(item.variant_id()) {
            Ok(Some(inventory)) => Some(inventory.available_stock()),
            Ok(None) => None,
            Err(e) => return Err(internal_error(request_id, e.message().as_str())),
        };
        let current_unit_price_minor = product.price().minor();
        if current_unit_price_minor != item.unit_price().minor() {
            requires_price_reconfirm = true;
        }
        match available_stock {
            Some(stock) => {
                if stock < item.quantity() {
                    inventory_is_available = false;
                }
            },
            None => {},
        }
        if item.quantity() > i64::MAX as u64 {
            proof {
                lemma_tally_stop_persists(catalog.store(), all, i + 1);
            }
            return Err(invalid_input(request_id, "cart item quantity is too large"));
        }
        let quantity = item.quantity() as i64;
        let line_total = match current_unit_price_minor.checked_mul(quantity) {
            Some(total) => total,
            None => {
                proof {
                    lemma_tally_stop_persists(catalog.store(), all, i + 1);
                }
                return Err(invalid_input(request_id, "checkout subtotal overflowed"));
            },
        };
        subtotal_minor = match subtotal_minor.checked_add(line_total) {
            Some(total) => total,
            None => {
                proof {
                    lemma_tally_stop_persists(catalog.store(), all, i + 1);
                }
                return Err(invalid_input(request_id, "checkout subtotal overflowed"));
            },
        };
        currency = Some(product.price().currency().as_string());
        let ghost prior = items@;
        let line = CheckoutLineItemResponse {
            product_id: item.product_id(),
            variant_id: item.variant_id(),
            title: copy_str(product.title()),
            quantity: item.quantity(),
            snapshot_unit_price_minor: item.unit_price().minor(),
            current_unit_price_minor,
            currency: product.price().currency().as_string(),
            fulfillment_type: ApiFulfillmentType::from(product.product_type()),
            available_stock: match available_stock {
                Some(stock) => stock,
                None => 0,
            },
            source: ApiCartItemSource::from(item.source()),
        };
        items.push(line);
        assert(views_of(items@) =~= views_of(prior).push(items@.last()@));
        i = i + 1;
    }
    assert(all.take(i as int) =~= all);
    let shipping_fee_minor: i64 = 0;
    let tax_minor: i64 = 0;
    Ok(
        CheckoutPreviewResponse {
            items,
            subtotal_minor,
            shipping_fee_minor,
            tax_minor,
            total_minor: subtotal_minor + shipping_fee_minor + tax_minor,
            currency: match currency {
                Some(c) => c,
                None => copy_str("USD"),
            },
            expires_at: now + CHECKOUT_HOLD_MILLIS,
            requires_price_reconfirm,
            inventory_is_available,
            payment_provider_status: copy_str("not_started"),
        },
    )
}

/// The preview of cart `cart_id` at `now`; an unknown or empty cart is refused.
pub fn preview_checkout(
    carts: &CartService,
    catalog: &CatalogService,
    cart_id: CartId,
    now: i64,
    request_id: u128,
) -> (r: Result<CheckoutPreviewResponse, ApiFailure>)
    requires
        carts.wf(),
        catalog.wf(),
        now <= i64::MAX - CHECKOUT_HOLD_MILLIS,
    ensures
        !carts.store().carts().contains_key(cart_id) ==> (r matches Err(f) && failure_is(
            f,
            STATUS_NOT_FOUND,
            ErrorCode::NotFound,
            "cart was not found"@,
            request_id,
        )),
        carts.store().carts().contains_key(cart_id) ==> {
            let items = carts.store().carts()[cart_id].items;
            if items.len() == 0 {
                r matches Err(f) && failure_is(
                    f,
                    STATUS_BAD_REQUEST,
                    ErrorCode::InvalidInput,
                    "cart has no items"@,
                    request_id,
                )
            } else {
                match checkout_tally(catalog.store(), items) {
                    Ok(t) => r matches Ok(resp) && preview_shows(resp, t, now),
                    Err(stop) => r matches Err(f) && failure_is(
                        f,
                        stop.status,
                        stop.code,
                        stop.message,
                        request_id,
                    ),
                }
            }
        },
{
    let cart = load_cart(carts, cart_id, request_id)?;
    if cart.items().len() == 0 {
        return Err(empty_cart_error(request_id));
    }
    build_checkout_preview(catalog, &cart, now, request_id)
}

} // verus!
