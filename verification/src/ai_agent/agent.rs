//! What an authorized AI client may do: search the catalog, add to a cart,
//! and buy on the user's behalf within the user's purchase policy. Every
//! operation leaves one entry in the audit trail, whatever its outcome.

use vstd::prelude::*;

use super::action::{
    optional_text, result_of_error, AiAction, AiActionRecord, AiActionResult, AiActionType, AiActionView,
};
use super::authorization::{scope_check_at, AiAuthorizationService};
use super::errors::{audit_code_of, AiError};
use super::facts::{
    facts_views, found_listings, listing_facts, listing_position, search_term,
    stably_sorted_by_product, CatalogPurchaseFacts, CatalogPurchaseFactsView, InMemoryCatalogFacts,
};
use super::policy::{
    decision_result, lemma_allowed_respects_every_limit, PolicyDecision, PurchaseEvaluation,
    PurchaseEvaluationView,
};
use super::repository::{lemma_recorded_spend_counts, spent_between, InMemoryAiRepository, SpendRecord};
use super::sanitize::audit_text;
use super::scope::{AiScope, Authorization, AuthorizationView};
use crate::cart::cart::{
    add_item_result, added_line, lines_after_add, AddCartItem, AddCartItemView, CartItem,
    CartItemSource, CartView,
};
use crate::cart::service::{CartService, CartServiceError};
use crate::catalog::product::FulfillmentType;
use crate::clock::{now_millis, start_of_utc_day, start_of_utc_month, utc_day_start_spec, utc_month_start};
use crate::ids::{
    id_text, uuid_text, AiAuthorizationId, CartId, OrderId, ProductId, ProductVariantId, SellerId,
    UserId,
};
use crate::money::{Money, MoneyView};
use crate::text::{copy_str, decimal_text, i64_text, trim_ws, u64_text};

verus! {

#[derive(Debug)]
pub struct SearchProductsInput {
    pub authorization_id: AiAuthorizationId,
    pub query: Option<String>,
    pub category_id: Option<String>,
    pub request_id: u128,
}

/// One listing as an AI client sees it.
#[derive(Debug, PartialEq, Eq)]
pub struct AiProductSearchResult {
    pub product_id: ProductId,
    pub variant_id: ProductVariantId,
    pub title: String,
    pub category_id: String,
    pub price_minor: i64,
    pub available_stock: u64,
}

pub struct AiProductSearchResultView {
    pub product_id: ProductId,
    pub variant_id: ProductVariantId,
    pub title: Seq<char>,
    pub category_id: Seq<char>,
    pub price_minor: int,
    pub available_stock: u64,
}

impl View for AiProductSearchResult {
    type V = AiProductSearchResultView;

    open spec fn view(&self) -> AiProductSearchResultView {
        AiProductSearchResultView {
            product_id: self.product_id,
            variant_id: self.variant_id,
            title: self.title@,
            category_id: self.category_id@,
            price_minor: self.price_minor as int,
            available_stock: self.available_stock,
        }
    }
}

pub open spec fn search_result_of(f: CatalogPurchaseFactsView) -> AiProductSearchResultView {
    AiProductSearchResultView {
        product_id: f.product_id,
        variant_id: f.variant_id,
        title: f.title,
        category_id: f.category_id,
        price_minor: f.unit_price@.minor,
        available_stock: f.available_stock,
    }
}

pub open spec fn search_results_views(s: Seq<AiProductSearchResult>) -> Seq<AiProductSearchResultView> {
    s.map_values(|r: AiProductSearchResult| r@)
}

#[derive(Debug, PartialEq, Eq)]
pub struct AddToCartInput {
    pub authorization_id: AiAuthorizationId,
    pub cart_id: CartId,
    pub product_id: ProductId,
    pub variant_id: ProductVariantId,
    pub quantity: u64,
    pub request_id: u128,
}

#[derive(Debug, PartialEq, Eq)]
pub struct AutoPurchaseInput {
    pub authorization_id: AiAuthorizationId,
    pub product_id: ProductId,
    pub variant_id: ProductVariantId,
    pub quantity: u64,
    pub quoted_unit_price_minor: i64,
    pub quoted_shipping_minor: i64,
    pub idempotency_key: String,
    pub request_id: u128,
    /// The instant of the purchase, in milliseconds since the epoch.
    pub now: i64,
}

/// The order an allowed auto-purchase asks the order service to place: one
/// line at the catalog price, with the catalog's shipping fee and tax.
#[derive(Debug, PartialEq, Eq)]
pub struct AutoPurchaseOrder {
    pub buyer_id: UserId,
    pub product_id: ProductId,
    pub variant_id: ProductVariantId,
    pub seller_id: SellerId,
    pub title: String,
    pub unit_price: Money,
    pub quantity: u64,
    pub fulfillment_type: FulfillmentType,
    pub shipping_fee: Money,
    pub tax: Money,
    pub idempotency_key: String,
    pub total: Money,
}

/// An auto-purchase that passed every check, and the order to place for it.
#[derive(Debug)]
pub struct AutoPurchasePlan {
    pub authorization: Authorization,
    pub order: AutoPurchaseOrder,
}

/// The order that the order service placed.
#[derive(Clone, Copy, Debug, PartialEq, Eq, Structural)]
pub struct PlacedOrder {
    pub order_id: OrderId,
    pub total_minor: i64,
}

/// The facts of the listing of `product_id` and `variant_id`, if it is
/// registered and its product is in the catalog.
pub open spec fn facts_of(facts: InMemoryCatalogFacts, product_id: ProductId, variant_id: ProductVariantId) -> Option<
    CatalogPurchaseFactsView,
> {
    let k = listing_position(facts.listings(), product_id, variant_id);
    if k < 0 {
        None
    } else {
        listing_facts(facts.store(), facts.listings()[k])
    }
}

/// What the order of `quantity` units costs: the catalog unit price times the
/// quantity, plus shipping and tax, all in the currency of the price; none
/// when a currency differs or an amount leaves the range of `i64`.
pub open spec fn order_total(f: CatalogPurchaseFactsView, quantity: u64) -> Option<int> {
    let line = f.unit_price@.minor * quantity;
    let with_shipping = line + f.shipping_fee@.minor;
    let total = with_shipping + f.tax@.minor;
    if line > i64::MAX || line < i64::MIN {
        None
    } else if f.shipping_fee@.currency != f.unit_price@.currency {
        None
    } else if with_shipping > i64::MAX || with_shipping < i64::MIN {
        None
    } else if f.tax@.currency != f.unit_price@.currency {
        None
    } else if total > i64::MAX || total < i64::MIN {
        None
    } else {
        Some(total)
    }
}

/// The audit summary of a search.
pub open spec fn search_summary(query: Option<Seq<char>>, category: Option<Seq<char>>) -> Seq<char> {
    "search_products query="@ + (if query is Some { query->0 } else { Seq::empty() })
        + " category="@ + (if category is Some { category->0 } else { Seq::empty() })
}

/// The audit summary of an add to cart.
pub open spec fn add_to_cart_summary(input: AddToCartInput) -> Seq<char> {
    "add_to_cart cart="@ + uuid_text(input.cart_id.value) + " product="@ + uuid_text(
        input.product_id.value,
    ) + " variant="@ + uuid_text(input.variant_id.value) + " quantity="@ + decimal_text(
        input.quantity as int,
    )
}

/// The audit summary of an auto-purchase.
pub open spec fn auto_purchase_summary(input: AutoPurchaseInput) -> Seq<char> {
    "auto_purchase product="@ + uuid_text(input.product_id.value) + " variant="@ + uuid_text(
        input.variant_id.value,
    ) + " quantity="@ + decimal_text(input.quantity as int) + " quoted_unit_price_minor="@
        + decimal_text(input.quoted_unit_price_minor as int) + " quoted_shipping_minor="@
        + decimal_text(input.quoted_shipping_minor as int)
}

/// The grant stored under `id`, if any.
pub open spec fn grant_named(grants: Map<AiAuthorizationId, AuthorizationView>, id: AiAuthorizationId) -> Option<
    AuthorizationView,
> {
    if grants.contains_key(id) {
        Some(grants[id])
    } else {
        None
    }
}

/// Whether `a` is the audit entry of an operation of kind `kind` with summary
/// `summary` and request `request_id`, made under grant `named` (none when
/// the grant was not found), that ended in `outcome`: the order it placed, if
/// any, or its error.
pub open spec fn operation_recorded(
    a: AiActionView,
    named: Option<AuthorizationView>,
    kind: AiActionType,
    summary: Seq<char>,
    request_id: u128,
    outcome: Result<Option<OrderId>, AiError>,
) -> bool {
    &&& a.authorization_id == match named {
        Some(g) => Some(g.id),
        None => None,
    }
    &&& a.subject_user_id == match named {
        Some(g) => Some(g.subject_user_id),
        None => None,
    }
    &&& a.action_type == kind
    &&& a.input_summary == audit_text(summary)
    &&& a.request_id == request_id
    &&& match outcome {
        Ok(order_id) => {
            &&& a.result == AiActionResult::Succeeded
            &&& a.order_id == order_id
            &&& a.error_code is None
        },
        Err(e) => {
            &&& a.result == result_of_error(e)
            &&& a.order_id is None
            &&& a.error_code == Some(audit_code_of(e))
        },
    }
}

pub open spec fn outcome_of<T>(r: Result<T, AiError>) -> Result<Option<OrderId>, AiError> {
    match r {
        Ok(_) => Ok(None),
        Err(e) => Err(e),
    }
}

pub struct AiAgentService {
    authorizations: AiAuthorizationService,
    cart: CartService,
    facts: InMemoryCatalogFacts,
}

impl AiAgentService {
    pub closed spec fn grant_service(&self) -> AiAuthorizationService {
        self.authorizations
    }

    pub closed spec fn cart_store(&self) -> CartService {
        self.cart
    }

    pub closed spec fn catalog_facts(&self) -> InMemoryCatalogFacts {
        self.facts
    }

    pub open spec fn grants(&self) -> InMemoryAiRepository {
        self.grant_service().store()
    }

    pub open spec fn wf(&self) -> bool {
        &&& self.grant_service().wf()
        &&& self.cart_store().wf()
        &&& self.catalog_facts().wf()
    }

    /// The audit trail grew by one entry, and nothing else of the grant store changed.
    pub open spec fn audited_once(&self, before: &Self) -> bool {
        &&& self.grants().same_except_actions(&before.grants())
        &&& self.grants().actions().len() == before.grants().actions().len() + 1
        &&& self.grants().actions().drop_last() == before.grants().actions()
    }

    /// The operation changed nothing but the audit trail, which grew by one entry.
    pub open spec fn only_audited(&self, before: &Self) -> bool {
        &&& self.audited_once(before)
        &&& self.cart_store().store().carts() == before.cart_store().store().carts()
        &&& self.catalog_facts() == before.catalog_facts()
    }

    /// What an add to cart decides before it writes: the quantity, the grant's
    /// `CartWrite` scope at `now`, the listing's catalog facts (published and
    /// in stock), and the cart's owner, in that order.
    pub open spec fn add_to_cart_check(&self, input: AddToCartInput, now: i64) -> Result<
        (AuthorizationView, CatalogPurchaseFactsView, CartView),
        AiError,
    > {
        if input.quantity == 0 {
            Err(AiError::InvalidQuantity)
        } else {
            match scope_check_at(self.grants(), input.authorization_id, AiScope::CartWrite, now) {
                Err(e) => Err(e),
                Ok(auth) => match facts_of(self.catalog_facts(), input.product_id, input.variant_id) {
                    None => Err(AiError::ProductNotFound),
                    Some(f) => if !f.is_published {
                        Err(AiError::ProductNotPurchasable)
                    } else if f.available_stock < input.quantity {
                        Err(AiError::ProductOutOfStock)
                    } else if !self.cart_store().store().carts().contains_key(input.cart_id) {
                        Err(AiError::CartNotFound)
                    } else if self.cart_store().store().carts()[input.cart_id].owner_id
                        != auth.subject_user_id {
                        Err(AiError::CartOwnerMismatch)
                    } else {
                        Ok((auth, f, self.cart_store().store().carts()[input.cart_id]))
                    },
                },
            }
        }
    }

    /// What an auto-purchase decides before any order exists: the quantity and
    /// idempotency key, the grant's own `AutoPurchase` scope at `clock_now`, the
    /// user's auto-purchase switch and policy, the listing's catalog facts, the
    /// order total, and the policy's decision over the catalog's price and
    /// shipping and the spend of the UTC day and month of `input.now`.
    pub open spec fn auto_purchase_check(&self, input: AutoPurchaseInput, clock_now: i64) -> Result<
        (AuthorizationView, CatalogPurchaseFactsView, int),
        AiError,
    > {
        let store = self.grants();
        if input.quantity == 0 {
            Err(AiError::InvalidQuantity)
        } else if trim_ws(input.idempotency_key@).len() == 0 {
            Err(AiError::BlankIdempotencyKey)
        } else {
            match scope_check_at(store, input.authorization_id, AiScope::AutoPurchase, clock_now) {
                Err(e) => Err(e),
                Ok(auth) => if !store.auto_purchase_on(auth.subject_user_id) {
                    Err(AiError::AutoPurchaseDisabled)
                } else if !store.policies().contains_key(auth.subject_user_id) {
                    Err(AiError::PolicyNotFound)
                } else {
                    match facts_of(self.catalog_facts(), input.product_id, input.variant_id) {
                        None => Err(AiError::ProductNotFound),
                        Some(f) => if !f.is_published {
                            Err(AiError::ProductNotPurchasable)
                        } else if f.available_stock < input.quantity {
                            Err(AiError::ProductOutOfStock)
                        } else {
                            match order_total(f, input.quantity) {
                                None => Err(AiError::InvalidPolicyAmount),
                                Some(total) => {
                                    let evaluation = purchase_evaluation(
                                        store,
                                        auth.subject_user_id,
                                        f,
                                        total as i64,
                                        input,
                                    );
                                    match decision_result(
                                        store.policies()[auth.subject_user_id].decide(evaluation),
                                    ) {
                                        Err(e) => Err(e),
                                        Ok(()) => Ok((auth, f, total)),
                                    }
                                },
                            }
                        },
                    }
                },
            }
        }
    }
}

/// The evaluation of a purchase: the catalog's facts, the computed total, the
/// client's quotes, and what the user spent since the start of the UTC day and
/// of the UTC month of `input.now`, up to `input.now`.
pub open spec fn purchase_evaluation(
    store: InMemoryAiRepository,
    user: UserId,
    f: CatalogPurchaseFactsView,
    total: i64,
    input: AutoPurchaseInput,
) -> PurchaseEvaluationView {
    PurchaseEvaluationView {
        category_id: f.category_id,
        seller_score: f.seller_score,
        order_total_minor: total,
        shipping_minor: f.shipping_fee@.minor as i64,
        daily_spent_minor: spent_between(
            store.spend(),
            user,
            utc_day_start_spec(input.now) as i64,
            input.now,
        ),
        monthly_spent_minor: spent_between(store.spend(), user, utc_month_start(input.now), input.now),
        quoted_unit_price_minor: input.quoted_unit_price_minor,
        catalog_unit_price_minor: f.unit_price@.minor as i64,
        quoted_shipping_minor: input.quoted_shipping_minor,
        catalog_shipping_minor: f.shipping_fee@.minor as i64,
    }
}

/// What a search answers for the listings `found`: the same listings in
/// product-id order, those of one product in the order found, each as a
/// client sees it.
pub open spec fn search_answers(results: Seq<AiProductSearchResult>, found: Seq<CatalogPurchaseFactsView>) -> bool {
    exists|sorted: Seq<CatalogPurchaseFactsView>|
        #[trigger] stably_sorted_by_product(sorted, found) && search_results_views(results)
            == sorted.map_values(|f: CatalogPurchaseFactsView| search_result_of(f))
}

/// The line an AI client asks for: `quantity` units of the listing at the
/// catalog's title, price and fulfillment.
pub open spec fn ai_cart_item(f: CatalogPurchaseFactsView, quantity: u64) -> AddCartItemView {
    AddCartItemView {
        product_id: f.product_id,
        variant_id: f.variant_id,
        title: f.title,
        unit_price: f.unit_price,
        quantity,
        source: CartItemSource::Ai,
        fulfillment_type: f.fulfillment_type,
    }
}

/// Whether `o` is the order to place for an auto-purchase of `input` under
/// grant `auth`: one line of the listing `f` at its catalog price, with its
/// shipping fee and tax, for `total` in the currency of the price.
pub open spec fn order_planned(
    o: AutoPurchaseOrder,
    auth: AuthorizationView,
    f: CatalogPurchaseFactsView,
    input: AutoPurchaseInput,
    total: int,
) -> bool {
    &&& o.buyer_id == auth.subject_user_id
    &&& o.product_id == f.product_id
    &&& o.variant_id == f.variant_id
    &&& o.seller_id == f.seller_id
    &&& o.title@ == f.title
    &&& o.unit_price == f.unit_price
    &&& o.quantity == input.quantity
    &&& o.fulfillment_type == f.fulfillment_type
    &&& o.shipping_fee == f.shipping_fee
    &&& o.tax == f.tax
    &&& o.idempotency_key@ == input.idempotency_key@
    &&& o.total@ == (MoneyView { minor: total, currency: f.unit_price@.currency })
}

pub open spec fn grant_view(g: Option<Authorization>) -> Option<AuthorizationView> {
    match g {
        Some(a) => Some(a@),
        None => None,
    }
}

impl AiAgentService {
    /// The listings a search of `input` finds in the catalog facts.
    pub open spec fn search_found(&self, input: SearchProductsInput) -> Seq<CatalogPurchaseFactsView> {
        found_listings(
            self.catalog_facts().store(),
            self.catalog_facts().listings(),
            search_term(optional_text(input.query)),
            optional_text(input.category_id),
        )
    }

    /// A search of `input` at `now` took the service from `before` to `self`
    /// and answered `r`: the grant needs `CatalogRead`.
    pub open spec fn searched(
        &self,
        before: &Self,
        input: SearchProductsInput,
        now: i64,
        r: Result<Vec<AiProductSearchResult>, AiError>,
    ) -> bool {
        &&& self.only_audited(before)
        &&& operation_recorded(
            self.grants().actions().last(),
            grant_named(before.grants().authorizations(), input.authorization_id),
            AiActionType::SearchProducts,
            search_summary(optional_text(input.query), optional_text(input.category_id)),
            input.request_id,
            outcome_of(r),
        )
        &&& match scope_check_at(before.grants(), input.authorization_id, AiScope::CatalogRead, now) {
            Err(e) => r == Err::<Vec<AiProductSearchResult>, AiError>(e),
            Ok(_) => r matches Ok(results) && search_answers(results@, before.search_found(input)),
        }
    }

    /// An add to cart of `input` at `now` took the service from `before` to
    /// `self` and answered `r`: after the checks of `add_to_cart_check`, the
    /// cart takes the line as `Cart::add_item` does.
    pub open spec fn added_to_cart(
        &self,
        before: &Self,
        input: AddToCartInput,
        now: i64,
        r: Result<CartItem, AiError>,
    ) -> bool {
        &&& self.audited_once(before)
        &&& self.catalog_facts() == before.catalog_facts()
        &&& operation_recorded(
            self.grants().actions().last(),
            grant_named(before.grants().authorizations(), input.authorization_id),
            AiActionType::AddToCart,
            add_to_cart_summary(input),
            input.request_id,
            outcome_of(r),
        )
        &&& r is Err ==> self.cart_store().store().carts() == before.cart_store().store().carts()
        &&& match before.add_to_cart_check(input, now) {
            Err(e) => r == Err::<CartItem, AiError>(e),
            Ok((auth, f, cart)) => {
                let item = ai_cart_item(f, input.quantity);
                match add_item_result(cart.items, item) {
                    Err(e) => r == Err::<CartItem, AiError>(AiError::Cart(CartServiceError::Cart(e))),
                    Ok(()) => r matches Ok(line) && added_line(cart.items, item, line@)
                        && self.cart_store().store().carts() == before.cart_store().store().carts().insert(
                        input.cart_id,
                        CartView { items: lines_after_add(cart.items, item, line@), ..cart },
                    ),
                }
            },
        }
    }

    /// Preparing the auto-purchase of `input` with the grant checked at
    /// `clock_now` took the service from `before` to `self` and answered `r`:
    /// a refusal is audited; a plan changes nothing.
    pub open spec fn auto_purchase_prepared(
        &self,
        before: &Self,
        input: AutoPurchaseInput,
        clock_now: i64,
        r: Result<AutoPurchasePlan, AiError>,
    ) -> bool {
        match before.auto_purchase_check(input, clock_now) {
            Err(e) => {
                &&& r == Err::<AutoPurchasePlan, AiError>(e)
                &&& self.only_audited(before)
                &&& operation_recorded(
                    self.grants().actions().last(),
                    grant_named(before.grants().authorizations(), input.authorization_id),
                    AiActionType::AutoPurchase,
                    auto_purchase_summary(input),
                    input.request_id,
                    Err(e),
                )
            },
            Ok((auth, f, total)) => {
                &&& r matches Ok(plan) && plan.authorization@ == auth && order_planned(
                    plan.order,
                    auth,
                    f,
                    input,
                    total,
                )
                &&& *self == *before
            },
        }
    }

    /// Completing the auto-purchase of `input` under `plan`, after the order
    /// service answered `placed`, took the service from `before` to `self`:
    /// a placed order adds its own total to the user's spend at `input.now`
    /// and is audited
    /// with its id; a failure is audited with its error.
    pub open spec fn auto_purchase_completed(
        &self,
        before: &Self,
        input: AutoPurchaseInput,
        plan: AutoPurchasePlan,
        placed: Result<PlacedOrder, AiError>,
    ) -> bool {
        &&& self.cart_store() == before.cart_store()
        &&& self.catalog_facts() == before.catalog_facts()
        &&& self.grants().authorizations() == before.grants().authorizations()
        &&& self.grants().policies() == before.grants().policies()
        &&& self.grants().auto_purchase_switches() == before.grants().auto_purchase_switches()
        &&& self.grants().actions().len() == before.grants().actions().len() + 1
        &&& self.grants().actions().drop_last() == before.grants().actions()
        &&& match placed {
            Ok(order) => {
                &&& self.grants().spend() == before.grants().spend().push(
                    SpendRecord {
                        user_id: plan.authorization@.subject_user_id,
                        amount_minor: order.total_minor,
                        at: input.now,
                    },
                )
                &&& operation_recorded(
                    self.grants().actions().last(),
                    Some(plan.authorization@),
                    AiActionType::AutoPurchase,
                    auto_purchase_summary(input),
                    input.request_id,
                    Ok(Some(order.order_id)),
                )
            },
            Err(e) => {
                &&& self.grants().spend() == before.grants().spend()
                &&& operation_recorded(
                    self.grants().actions().last(),
                    grant_named(before.grants().authorizations(), input.authorization_id),
                    AiActionType::AutoPurchase,
                    auto_purchase_summary(input),
                    input.request_id,
                    Err(e),
                )
            },
        }
    }

    pub fn new(repository: InMemoryAiRepository, cart: CartService, facts: InMemoryCatalogFacts) -> (r:
        Self)
        ensures
            r.grants() == repository,
            r.cart_store() == cart,
            r.catalog_facts() == facts,
    {
        AiAgentService { authorizations: AiAuthorizationService::new(repository), cart, facts }
    }

    pub fn cart_service(&self) -> (r: &CartService)
        ensures
            *r == self.cart_store(),
    {
        &self.cart
    }

    pub fn cart_service_mut(&mut self) -> (r: &mut CartService)
        ensures
            *r == old(self).cart_store(),
            final(self).cart_store() == *final(r),
            final(self).grant_service() == old(self).grant_service(),
            final(self).catalog_facts() == old(self).catalog_facts(),
    {
        &mut self.cart
    }

    pub fn authorizations(&self) -> (r: &AiAuthorizationService)
        ensures
            *r == self.grant_service(),
    {
        &self.authorizations
    }

    pub fn authorizations_mut(&mut self) -> (r: &mut AiAuthorizationService)
        ensures
            *r == old(self).grant_service(),
            final(self).grant_service() == *final(r),
            final(self).cart_store() == old(self).cart_store(),
            final(self).catalog_facts() == old(self).catalog_facts(),
    {
        &mut self.authorizations
    }

    pub fn facts(&self) -> (r: &InMemoryCatalogFacts)
        ensures
            *r == self.catalog_facts(),
    {
        &self.facts
    }

    pub fn facts_mut(&mut self) -> (r: &mut InMemoryCatalogFacts)
        ensures
            *r == old(self).catalog_facts(),
            final(self).catalog_facts() == *final(r),
            final(self).grant_service() == old(self).grant_service(),
            final(self).cart_store() == old(self).cart_store(),
    {
        &mut self.facts
    }

    /// The search results of `listings`, in their order.
    fn search_results(listings: &Vec<CatalogPurchaseFacts>) -> (r: Vec<AiProductSearchResult>)
        ensures
            search_results_views(r@) == facts_views(listings@).map_values(
                |f: CatalogPurchaseFactsView| search_result_of(f),
            ),
    {
        let ghost all = facts_views(listings@).map_values(
            |f: CatalogPurchaseFactsView| search_result_of(f),
        );
        let mut out: Vec<AiProductSearchResult> = Vec::new();
        let mut i: usize = 0;
        while i < listings.len()
            invariant
                i <= listings@.len(),
                all == facts_views(listings@).map_values(
                    |f: CatalogPurchaseFactsView| search_result_of(f),
                ),
                search_results_views(out@) == all.take(i as int),
            decreases listings@.len() - i,
        {
            let facts = &listings[i];
            let result = AiProductSearchResult {
                product_id: facts.product_id,
                variant_id: facts.variant_id,
                title: facts.title.clone(),
                category_id: facts.category_id.clone(),
                price_minor: facts.unit_price.minor(),
                available_stock: facts.available_stock,
            };
            let ghost prior = out@;
            assert(result@ == search_result_of(listings@[i as int]@));
            assert(all[i as int] == search_result_of(listings@[i as int]@));
            out.push(result);
            assert(search_results_views(out@) =~= search_results_views(prior).push(result@));
            assert(search_results_views(out@) =~= all.take(i + 1));
            i = i + 1;
        }
        assert(all.take(i as int) =~= all);
        out
    }

    fn search_products_inner(&self, input: &SearchProductsInput, now: i64) -> (r: Result<
        (Authorization, Vec<AiProductSearchResult>),
        AiError,
    >)
        requires
            self.wf(),
        ensures
            match scope_check_at(self.grants(), input.authorization_id, AiScope::CatalogRead, now) {
                Err(e) => r == Err::<(Authorization, Vec<AiProductSearchResult>), AiError>(e),
                Ok(auth) => r matches Ok((a, results)) && a@ == auth && a@.id
                    == input.authorization_id && search_answers(results@, self.search_found(*input)),
            },
    {
        let authorization = self.authorizations.require_scope_at(
            input.authorization_id,
            AiScope::CatalogRead,
            now,
        )?;
        let query: Option<&str> = match &input.query {
            Some(q) => Some(q.as_str()),
            None => None,
        };
        let category: Option<&str> = match &input.category_id {
            Some(c) => Some(c.as_str()),
            None => None,
        };
        let listings = match self.facts.search_listings(query, category) {
            Ok(found) => found,
            Err(e) => return Err(AiError::CatalogFacts(e)),
        };
        let results = Self::search_results(&listings);
        assert(stably_sorted_by_product(facts_views(listings@), self.search_found(*input)));
        Ok((authorization, results))
    }

    /// Searches the published, in-stock listings for a client whose grant
    /// holds `CatalogRead` at `now`, and audits the search.
    pub fn search_products_at(&mut self, input: SearchProductsInput, now: i64) -> (r: Result<
        Vec<AiProductSearchResult>,
        AiError,
    >)
        requires
            old(self).wf(),
        ensures
            final(self).wf(),
            final(self).searched(old(self), input, now, r),
    {
        let mut summary = String::new();
        summary.push_str("search_products query=");
        match &input.query {
            Some(q) => summary.push_str(q.as_str()),
            None => {},
        }
        summary.push_str(" category=");
        match &input.category_id {
            Some(c) => summary.push_str(c.as_str()),
            None => {},
        }
        assert(summary@ == search_summary(optional_text(input.query), optional_text(input.category_id)));
        match self.search_products_inner(&input, now) {
            Ok((authorization, results)) => {
                let action = Self::action_success(
                    &authorization,
                    AiActionType::SearchProducts,
                    summary,
                    input.request_id,
                    None,
                );
                self.persist_action(action)?;
                Ok(results)
            },
            Err(error) => {
                let authorization = self.find_grant(input.authorization_id);
                let action = Self::action_from_error(
                    &authorization,
                    AiActionType::SearchProducts,
                    summary,
                    input.request_id,
                    &error,
                );
                self.persist_action(action)?;
                Err(error)
            },
        }
    }

    /// Searches as `search_products_at` does, with the grant checked at the
    /// time of the call.
    pub fn search_products(&mut self, input: SearchProductsInput) -> (r: Result<
        Vec<AiProductSearchResult>,
        AiError,
    >)
        requires
            old(self).wf(),
        ensures
            final(self).wf(),
            exists|now: i64| final(self).searched(old(self), input, now, r),
    {
        let now = now_millis();
        self.search_products_at(input, now)
    }

    fn add_to_cart_inner(&mut self, input: &AddToCartInput, now: i64) -> (r: Result<
        (Authorization, CartItem),
        AiError,
    >)
        requires
            old(self).wf(),
        ensures
            final(self).wf(),
            final(self).grant_service() == old(self).grant_service(),
            final(self).catalog_facts() == old(self).catalog_facts(),
            r is Err ==> final(self).cart_store().store().carts() == old(
                self,
            ).cart_store().store().carts(),
            match old(self).add_to_cart_check(*input, now) {
                Err(e) => r == Err::<(Authorization, CartItem), AiError>(e),
                Ok((auth, f, cart)) => {
                    let item = ai_cart_item(f, input.quantity);
                    match add_item_result(cart.items, item) {
                        Err(e) => r == Err::<(Authorization, CartItem), AiError>(
                            AiError::Cart(CartServiceError::Cart(e)),
                        ),
                        Ok(()) => r matches Ok((a, line)) && a@ == auth && a@.id
                            == input.authorization_id && added_line(cart.items, item, line@)
                            && final(self).cart_store().store().carts() == old(
                            self,
                        ).cart_store().store().carts().insert(
                            input.cart_id,
                            CartView { items: lines_after_add(cart.items, item, line@), ..cart },
                        ),
                    }
                },
            },
    {
        if input.quantity == 0 {
            return Err(AiError::InvalidQuantity);
        }
        let authorization = self.authorizations.require_scope_at(
            input.authorization_id,
            AiScope::CartWrite,
            now,
        )?;
        let facts = match self.facts.load_purchase_facts(input.product_id, input.variant_id) {
            Ok(Some(found)) => found,
            Ok(None) => return Err(AiError::ProductNotFound),
            Err(e) => return Err(AiError::CatalogFacts(e)),
        };
        // Unpublished or suspended listings never enter a cart through an AI client.
        if !facts.is_published {
            return Err(AiError::ProductNotPurchasable);
        }
        if facts.available_stock < input.quantity {
            return Err(AiError::ProductOutOfStock);
        }
        let cart = match self.cart.get_cart(input.cart_id) {
            Ok(Some(found)) => found,
            Ok(None) => return Err(AiError::CartNotFound),
            Err(e) => return Err(AiError::Cart(e)),
        };
        if cart.owner_id() != authorization.subject_user_id() {
            return Err(AiError::CartOwnerMismatch);
        }
        let item = AddCartItem {
            product_id: facts.product_id,
            variant_id: facts.variant_id,
            title: facts.title,
            unit_price: facts.unit_price,
            quantity: input.quantity,
            source: CartItemSource::Ai,
            fulfillment_type: facts.fulfillment_type,
        };
        match self.cart.add_item(input.cart_id, item) {
            Ok(line) => Ok((authorization, line)),
            Err(CartServiceError::CartNotFound) => Err(AiError::CartNotFound),
            Err(other) => Err(AiError::Cart(other)),
        }
    }

    /// Adds a listing to the user's cart for a client whose grant holds
    /// `CartWrite` at `now`, at the catalog's price and title, and audits it.
    pub fn add_to_cart_at(&mut self, input: AddToCartInput, now: i64) -> (r: Result<CartItem, AiError>)
        requires
            old(self).wf(),
        ensures
            final(self).wf(),
            final(self).added_to_cart(old(self), input, now, r),
    {
        let mut summary = String::new();
        summary.push_str("add_to_cart cart=");
        summary.push_str(id_text(input.cart_id.as_u128()).as_str());
        summary.push_str(" product=");
        summary.push_str(id_text(input.product_id.as_u128()).as_str());
        summary.push_str(" variant=");
        summary.push_str(id_text(input.variant_id.as_u128()).as_str());
        summary.push_str(" quantity=");
        summary.push_str(u64_text(input.quantity).as_str());
        assert(summary@ == add_to_cart_summary(input));
        match self.add_to_cart_inner(&input, now) {
            Ok((authorization, item)) => {
                let action = Self::action_success(
                    &authorization,
                    AiActionType::AddToCart,
                    summary,
                    input.request_id,
                    None,
                );
                self.persist_action(action)?;
                Ok(item)
            },
            Err(error) => {
                let authorization = self.find_grant(input.authorization_id);
                let action = Self::action_from_error(
                    &authorization,
                    AiActionType::AddToCart,
                    summary,
                    input.request_id,
                    &error,
                );
                self.persist_action(action)?;
                Err(error)
            },
        }
    }

    /// Adds to the cart as `add_to_cart_at` does, with the grant checked at
    /// the time of the call.
    pub fn add_to_cart(&mut self, input: AddToCartInput) -> (r: Result<CartItem, AiError>)
        requires
            old(self).wf(),
        ensures
            final(self).wf(),
            exists|now: i64| final(self).added_to_cart(old(self), input, now, r),
    {
        let now = now_millis();
        self.add_to_cart_at(input, now)
    }

    fn plan_auto_purchase(&self, input: &AutoPurchaseInput, clock_now: i64) -> (r: Result<
        AutoPurchasePlan,
        AiError,
    >)
        requires
            self.wf(),
        ensures
            match self.auto_purchase_check(*input, clock_now) {
                Err(e) => r == Err::<AutoPurchasePlan, AiError>(e),
                Ok((auth, f, total)) => r matches Ok(plan) && plan.authorization@ == auth
                    && plan.authorization@.id == input.authorization_id && order_planned(
                    plan.order,
                    auth,
                    f,
                    *input,
                    total,
                ),
            },
    {
        if input.quantity == 0 {
            return Err(AiError::InvalidQuantity);
        }
        if input.idempotency_key.as_str().trim().is_empty() {
            return Err(AiError::BlankIdempotencyKey);
        }
        // AutoPurchase is a grant of its own: no other scope passes this check.
        let authorization = self.authorizations.require_scope_at(
            input.authorization_id,
            AiScope::AutoPurchase,
            clock_now,
        )?;
        let user = authorization.subject_user_id();
        // Auto-pay stays opt-in even for a client that holds the scope.
        if !self.authorizations.is_auto_purchase_enabled(user)? {
            return Err(AiError::AutoPurchaseDisabled);
        }
        let policy = match self.authorizations.repository().find_policy(user) {
            Ok(Some(found)) => found,
            Ok(None) => return Err(AiError::PolicyNotFound),
            Err(e) => return Err(AiError::Repository(e)),
        };
        // The catalog, not the client's quote, is the source of the purchase facts.
        let facts = match self.facts.load_purchase_facts(input.product_id, input.variant_id) {
            Ok(Some(found)) => found,
            Ok(None) => return Err(AiError::ProductNotFound),
            Err(e) => return Err(AiError::CatalogFacts(e)),
        };
        if !facts.is_published {
            return Err(AiError::ProductNotPurchasable);
        }
        if facts.available_stock < input.quantity {
            return Err(AiError::ProductOutOfStock);
        }
        let line_total = match facts.unit_price.checked_mul(input.quantity) {
            Ok(amount) => amount,
            Err(_) => return Err(AiError::InvalidPolicyAmount),
        };
        let with_shipping = match line_total.checked_add(facts.shipping_fee) {
            Ok(amount) => amount,
            Err(_) => return Err(AiError::InvalidPolicyAmount),
        };
        let order_total = match with_shipping.checked_add(facts.tax) {
            Ok(amount) => amount,
            Err(_) => return Err(AiError::InvalidPolicyAmount),
        };
        let daily_spent_minor = match self.authorizations.repository().spend_between(
            user,
            start_of_utc_day(input.now),
            input.now,
        ) {
            Ok(spent) => spent,
            Err(e) => return Err(AiError::Repository(e)),
        };
        let monthly_spent_minor = match self.authorizations.repository().spend_between(
            user,
            start_of_utc_month(input.now),
            input.now,
        ) {
            Ok(spent) => spent,
            Err(e) => return Err(AiError::Repository(e)),
        };
        let evaluation = PurchaseEvaluation {
            category_id: facts.category_id.clone(),
            seller_score: facts.seller_score,
            order_total_minor: order_total.minor(),
            shipping_minor: facts.shipping_fee.minor(),
            daily_spent_minor,
            monthly_spent_minor,
            quoted_unit_price_minor: input.quoted_unit_price_minor,
            catalog_unit_price_minor: facts.unit_price.minor(),
            quoted_shipping_minor: input.quoted_shipping_minor,
            catalog_shipping_minor: facts.shipping_fee.minor(),
        };
        // Only the policy chooses between allowing, asking and blocking.
        policy.evaluate(&evaluation).into_result()?;
        let order = AutoPurchaseOrder {
            buyer_id: user,
            product_id: facts.product_id,
            variant_id: facts.variant_id,
            seller_id: facts.seller_id,
            title: facts.title,
            unit_price: facts.unit_price,
            quantity: input.quantity,
            fulfillment_type: facts.fulfillment_type,
            shipping_fee: facts.shipping_fee,
            tax: facts.tax,
            idempotency_key: input.idempotency_key.clone(),
            total: order_total,
        };
        Ok(AutoPurchasePlan { authorization, order })
    }

    /// Runs every check of an auto-purchase, with the grant checked at
    /// `clock_now`, and gives the order to place; a refusal is audited.
    pub fn prepare_auto_purchase_at(&mut self, input: &AutoPurchaseInput, clock_now: i64) -> (r:
        Result<AutoPurchasePlan, AiError>)
        requires
            old(self).wf(),
        ensures
            final(self).wf(),
            final(self).auto_purchase_prepared(old(self), *input, clock_now, r),
    {
        match self.plan_auto_purchase(input, clock_now) {
            Ok(plan) => Ok(plan),
            Err(error) => {
                let summary = Self::auto_purchase_summary_text(input);
                let authorization = self.find_grant(input.authorization_id);
                let action = Self::action_from_error(
                    &authorization,
                    AiActionType::AutoPurchase,
                    summary,
                    input.request_id,
                    &error,
                );
                self.persist_action(action)?;
                Err(error)
            },
        }
    }

    /// Prepares as `prepare_auto_purchase_at` does, with the grant checked at
    /// the time of the call.
    pub fn prepare_auto_purchase(&mut self, input: &AutoPurchaseInput) -> (r: Result<
        AutoPurchasePlan,
        AiError,
    >)
        requires
            old(self).wf(),
        ensures
            final(self).wf(),
            exists|clock_now: i64| final(self).auto_purchase_prepared(old(self), *input, clock_now, r),
    {
        let clock_now = now_millis();
        self.prepare_auto_purchase_at(input, clock_now)
    }

    /// Settles an auto-purchase once the order service has answered `placed`
    /// for the order of `plan`: the total of the placed order counts towards
    /// the user's spend at `input.now`; either way the outcome is audited.
    pub fn complete_auto_purchase(
        &mut self,
        input: &AutoPurchaseInput,
        plan: &AutoPurchasePlan,
        placed: Result<PlacedOrder, AiError>,
    ) -> (r: Result<PlacedOrder, AiError>)
        requires
            old(self).wf(),
        ensures
            final(self).wf(),
            r == placed,
            final(self).auto_purchase_completed(old(self), *input, *plan, placed),
    {
        let summary = Self::auto_purchase_summary_text(input);
        match placed {
            Ok(order) => {
                let user = plan.authorization.subject_user_id();
                let recorded = self.authorizations.repository_mut().record_spend(
                    user,
                    order.total_minor,
                    input.now,
                );
                match recorded {
                    Ok(()) => {},
                    Err(e) => return Err(AiError::Repository(e)),
                }
                let action = Self::action_success(
                    &plan.authorization,
                    AiActionType::AutoPurchase,
                    summary,
                    input.request_id,
                    Some(order.order_id),
                );
                self.persist_action(action)?;
                Ok(order)
            },
            Err(error) => {
                let authorization = self.find_grant(input.authorization_id);
                let action = Self::action_from_error(
                    &authorization,
                    AiActionType::AutoPurchase,
                    summary,
                    input.request_id,
                    &error,
                );
                self.persist_action(action)?;
                Err(error)
            },
        }
    }

    fn auto_purchase_summary_text(input: &AutoPurchaseInput) -> (r: String)
        ensures
            r@ == auto_purchase_summary(*input),
    {
        let mut summary = String::new();
        summary.push_str("auto_purchase product=");
        summary.push_str(id_text(input.product_id.as_u128()).as_str());
        summary.push_str(" variant=");
        summary.push_str(id_text(input.variant_id.as_u128()).as_str());
        summary.push_str(" quantity=");
        summary.push_str(u64_text(input.quantity).as_str());
        summary.push_str(" quoted_unit_price_minor=");
        summary.push_str(i64_text(input.quoted_unit_price_minor).as_str());
        summary.push_str(" quoted_shipping_minor=");
        summary.push_str(i64_text(input.quoted_shipping_minor).as_str());
        summary
    }

    fn persist_action(&mut self, action: AiAction) -> (r: Result<(), AiError>)
        requires
            old(self).wf(),
        ensures
            final(self).wf(),
            r is Ok,
            final(self).grants().actions() == old(self).grants().actions().push(action@),
            final(self).audited_once(old(self)),
            final(self).cart_store() == old(self).cart_store(),
            final(self).catalog_facts() == old(self).catalog_facts(),
    {
        let saved = self.authorizations.repository_mut().save_action(action);
        assert(self.grants().actions().drop_last() =~= old(self).grants().actions());
        match saved {
            Ok(()) => Ok(()),
            Err(e) => Err(AiError::Repository(e)),
        }
    }

    /// The grant stored under `authorization_id`; none when it is missing or
    /// cannot be read.
    fn find_grant(&self, authorization_id: AiAuthorizationId) -> (r: Option<Authorization>)
        requires
            self.wf(),
        ensures
            grant_view(r) == grant_named(self.grants().authorizations(), authorization_id),
    {
        match self.authorizations.repository().find_authorization(authorization_id) {
            Ok(found) => found,
            Err(_) => None,
        }
    }

    fn action_from_error(
        authorization: &Option<Authorization>,
        action_type: AiActionType,
        input_summary: String,
        request_id: u128,
        error: &AiError,
    ) -> (r: AiAction)
        ensures
            operation_recorded(
                r@,
                grant_view(*authorization),
                action_type,
                input_summary@,
                request_id,
                Err(*error),
            ),
    {
        let (authorization_id, subject_user_id) = match authorization {
            Some(a) => (Some(a.id()), Some(a.subject_user_id())),
            None => (None, None),
        };
        AiAction::new(
            AiActionRecord {
                authorization_id,
                subject_user_id,
                action_type,
                input_summary,
                result: AiActionResult::from_error(error),
                request_id,
                order_id: None,
                error_code: Some(copy_str(error.audit_code())),
            },
        )
    }

    fn action_success(
        authorization: &Authorization,
        action_type: AiActionType,
        input_summary: String,
        request_id: u128,
        order_id: Option<OrderId>,
    ) -> (r: AiAction)
        ensures
            operation_recorded(
                r@,
                Some(authorization@),
                action_type,
                input_summary@,
                request_id,
                Ok(order_id),
            ),
    {
        AiAction::new(
            AiActionRecord {
                authorization_id: Some(authorization.id()),
                subject_user_id: Some(authorization.subject_user_id()),
                action_type,
                input_summary,
                result: AiActionResult::Succeeded,
                request_id,
                order_id,
                error_code: None,
            },
        )
    }
}

/// An auto-purchase is planned only under a grant that holds the
/// `AutoPurchase` scope itself, unrevoked and unexpired, for a user who
/// switched auto-purchase on and whose policy allows the purchase, of a
/// published listing with enough stock.
pub proof fn lemma_planned_purchase_is_authorized(
    agent: AiAgentService,
    input: AutoPurchaseInput,
    clock_now: i64,
)
    requires
        agent.auto_purchase_check(input, clock_now) is Ok,
    ensures
        ({
            let (auth, f, total) = agent.auto_purchase_check(input, clock_now)->Ok_0;
            let store = agent.grants();
            &&& store.authorizations().contains_key(input.authorization_id)
            &&& auth == store.authorizations()[input.authorization_id]
            &&& auth.has_scope(AiScope::AutoPurchase)
            &&& auth.revoked_at is None
            &&& !auth.is_expired(clock_now)
            &&& store.auto_purchase_on(auth.subject_user_id)
            &&& store.policies().contains_key(auth.subject_user_id)
            &&& store.policies()[auth.subject_user_id].decide(
                purchase_evaluation(store, auth.subject_user_id, f, total as i64, input),
            ) == PolicyDecision::Allowed
            &&& f.is_published
            &&& f.available_stock >= input.quantity
            &&& input.quantity > 0
        }),
{
}

/// Once a planned purchase is recorded at its planned total, the user's
/// spend over the UTC day of the purchase stays within the daily cap, and
/// over its month, when that month began no later than the purchase, within
/// the monthly cap; the order itself is within the order cap.
pub proof fn lemma_planned_purchase_stays_within_caps(
    agent: AiAgentService,
    input: AutoPurchaseInput,
    clock_now: i64,
)
    requires
        agent.auto_purchase_check(input, clock_now) is Ok,
    ensures
        ({
            let (auth, f, total) = agent.auto_purchase_check(input, clock_now)->Ok_0;
            let store = agent.grants();
            let user = auth.subject_user_id;
            let policy = store.policies()[user];
            let after = store.spend().push(
                SpendRecord { user_id: user, amount_minor: total as i64, at: input.now },
            );
            &&& total <= policy.max_order_minor
            &&& spent_between(after, user, utc_day_start_spec(input.now) as i64, input.now)
                <= policy.max_daily_minor
            &&& utc_month_start(input.now) <= input.now ==> spent_between(
                after,
                user,
                utc_month_start(input.now),
                input.now,
            ) <= policy.max_monthly_minor
        }),
{
    let (auth, f, total) = agent.auto_purchase_check(input, clock_now)->Ok_0;
    let store = agent.grants();
    let user = auth.subject_user_id;
    let policy = store.policies()[user];
    let e = purchase_evaluation(store, user, f, total as i64, input);
    assert(policy.decide(e) == PolicyDecision::Allowed);
    lemma_allowed_respects_every_limit(policy, e);
    let record = SpendRecord { user_id: user, amount_minor: total as i64, at: input.now };
    let day = utc_day_start_spec(input.now) as i64;
    assert(utc_day_start_spec(input.now) <= input.now);
    lemma_recorded_spend_counts(store.spend(), record, user, day, input.now);
    lemma_recorded_spend_counts(store.spend(), record, user, utc_month_start(input.now), input.now);
}

/// One auto-purchase, prepared and, when planned, completed, leaves exactly
/// one entry in the audit trail: an auto-purchase entry for its request.
pub proof fn lemma_one_purchase_one_audit_entry(
    start: AiAgentService,
    prepared_state: AiAgentService,
    end: AiAgentService,
    input: AutoPurchaseInput,
    clock_now: i64,
    prepared: Result<AutoPurchasePlan, AiError>,
    placed: Result<PlacedOrder, AiError>,
)
    requires
        prepared_state.auto_purchase_prepared(&start, input, clock_now, prepared),
        prepared matches Ok(plan) ==> end.auto_purchase_completed(&prepared_state, input, plan, placed),
        prepared is Err ==> end == prepared_state,
    ensures
        end.grants().actions().len() == start.grants().actions().len() + 1,
        end.grants().actions().drop_last() == start.grants().actions(),
        end.grants().actions().last().action_type == AiActionType::AutoPurchase,
        end.grants().actions().last().request_id == input.request_id,
        end.grants().actions().last().input_summary == audit_text(auto_purchase_summary(input)),
{
}

/// The total of an order is the catalog unit price times the quantity,
/// plus the shipping fee and the tax: it is known exactly when the three
/// amounts share a currency and every partial sum fits in an `i64`.
pub proof fn lemma_order_total_is_price_times_quantity(f: CatalogPurchaseFactsView, quantity: u64)
    ensures
        ({
            let line = f.unit_price@.minor * quantity;
            let total = line + f.shipping_fee@.minor + f.tax@.minor;
            let fits = i64::MIN <= line <= i64::MAX && i64::MIN <= line + f.shipping_fee@.minor
                <= i64::MAX && i64::MIN <= total <= i64::MAX;
            let one_currency = f.shipping_fee@.currency == f.unit_price@.currency
                && f.tax@.currency == f.unit_price@.currency;
            &&& fits && one_currency ==> order_total(f, quantity) == Some(total)
            &&& !(fits && one_currency) ==> order_total(f, quantity) is None
        }),
{
}

/// An auto-purchase is planned, and checked against the caps, at the full
/// order total: the catalog unit price times the quantity asked for, plus
/// the catalog's shipping fee and tax; the planned order carries that total.
pub proof fn lemma_planned_total(agent: AiAgentService, input: AutoPurchaseInput, clock_now: i64, plan: AutoPurchasePlan)
    requires
        agent.auto_purchase_check(input, clock_now) is Ok,
        order_planned(
            plan.order,
            agent.auto_purchase_check(input, clock_now)->Ok_0.0,
            agent.auto_purchase_check(input, clock_now)->Ok_0.1,
            input,
            agent.auto_purchase_check(input, clock_now)->Ok_0.2,
        ),
    ensures
        ({
            let (auth, f, total) = agent.auto_purchase_check(input, clock_now)->Ok_0;
            &&& total == f.unit_price@.minor * input.quantity + f.shipping_fee@.minor + f.tax@.minor
            &&& plan.order.total@.minor == f.unit_price@.minor * input.quantity
                + f.shipping_fee@.minor + f.tax@.minor
            &&& plan.order.quantity == input.quantity
            &&& total <= agent.grants().policies()[auth.subject_user_id].max_order_minor
        }),
{
    let (auth, f, total) = agent.auto_purchase_check(input, clock_now)->Ok_0;
    lemma_order_total_is_price_times_quantity(f, input.quantity);
    lemma_planned_purchase_stays_within_caps(agent, input, clock_now);
}

/// Whatever other scopes a grant holds, an auto-purchase under a live grant
/// without the `AutoPurchase` scope is refused for that missing scope.
pub proof fn lemma_auto_purchase_needs_its_own_scope(
    agent: AiAgentService,
    input: AutoPurchaseInput,
    clock_now: i64,
)
    requires
        input.quantity > 0,
        trim_ws(input.idempotency_key@).len() > 0,
        agent.grants().authorizations().contains_key(input.authorization_id),
        agent.grants().authorizations()[input.authorization_id].revoked_at is None,
        !agent.grants().authorizations()[input.authorization_id].is_expired(clock_now),
        !agent.grants().authorizations()[input.authorization_id].has_scope(AiScope::AutoPurchase),
    ensures
        agent.auto_purchase_check(input, clock_now) == Err::<
            (AuthorizationView, CatalogPurchaseFactsView, int),
            AiError,
        >(AiError::MissingScope { required: AiScope::AutoPurchase }),
{
}

/// A user who has not switched auto-purchase on is never charged through
/// it, whatever the client's grant holds.
pub proof fn lemma_auto_purchase_is_opt_in(agent: AiAgentService, input: AutoPurchaseInput, clock_now: i64)
    requires
        agent.auto_purchase_check(input, clock_now) is Ok,
    ensures
        agent.grants().auto_purchase_on(
            agent.grants().authorizations()[input.authorization_id].subject_user_id,
        ),
{
}

/// An AI client adds to a cart only a published listing with enough stock,
/// into a cart of the grant's own user, under a live `CartWrite` grant.
pub proof fn lemma_ai_cart_lines_are_purchasable(agent: AiAgentService, input: AddToCartInput, now: i64)
    requires
        agent.add_to_cart_check(input, now) is Ok,
    ensures
        ({
            let (auth, f, cart) = agent.add_to_cart_check(input, now)->Ok_0;
            &&& f.is_published
            &&& f.available_stock >= input.quantity
            &&& input.quantity > 0
            &&& cart.owner_id == auth.subject_user_id
            &&& auth == agent.grants().authorizations()[input.authorization_id]
            &&& auth.check_scope(AiScope::CartWrite, now) is Ok
        }),
{
}

} // verus!
