//! A fully wired in-memory marketplace for AI clients, for tests and local use.

use vstd::prelude::*;

use super::agent::{facts_of, AiAgentService};
use super::errors::AiError;
use super::facts::{CatalogListingExtras, CatalogPurchaseFactsView, InMemoryCatalogFacts};
use super::policy::PurchasePolicy;
use super::repository::{InMemoryAiRepository, SpendRecord};
use super::action::AiActionView;
use super::scope::AuthorizationView;
use crate::cart::cart::CartView;
use crate::cart::repository::InMemoryCartRepository;
use crate::cart::service::CartService;
use crate::catalog::inventory::InventoryView;
use crate::catalog::product::{FulfillmentType, ProductStatus, ProductView};
use crate::catalog::repository::InMemoryCatalogRepository;
use crate::catalog::service::{CatalogService, CreateProductCommand};
use crate::ids::{AiAuthorizationId, CartId, ProductId, ProductVariantId, SellerId, UserId};
use crate::money::{CurrencyCode, Money, MoneyView};
use crate::text::{copy_str, lemma_trim_keeps_last, trim_ws};

verus! {

/// A listing that `publish_listing` put on sale.
#[derive(Debug, PartialEq, Eq)]
pub struct PublishedListing {
    pub product_id: ProductId,
    pub variant_id: ProductVariantId,
    pub title: String,
    pub price_minor: i64,
}

/// Whether `f` are the catalog facts of a listing published with these
/// arguments: a physical product at `price_minor` US cents, with its title
/// trimmed, `stock` units, and the given category, seller score and
/// shipping fee, tax free.
pub open spec fn published_facts(
    f: CatalogPurchaseFactsView,
    title: Seq<char>,
    price_minor: i64,
    shipping_minor: i64,
    stock: u64,
    seller_score: i32,
    category_id: Seq<char>,
) -> bool {
    &&& f.title == trim_ws(title)
    &&& f.category_id == category_id
    &&& f.seller_score == seller_score
    &&& f.unit_price@.minor == price_minor
    &&& f.unit_price@.currency@ == "USD"@
    &&& f.shipping_fee@ == (MoneyView { minor: shipping_minor as int, currency: f.unit_price@.currency })
    &&& f.tax@ == (MoneyView { minor: 0, currency: f.unit_price@.currency })
    &&& f.available_stock == stock
    &&& f.fulfillment_type == FulfillmentType::PhysicalStandard
    &&& f.is_published
}

/// An agent over empty stores.
pub struct InMemoryAiStack {
    pub agent: AiAgentService,
}

impl InMemoryAiStack {
    pub open spec fn wf(&self) -> bool {
        self.agent.wf()
    }

    pub fn new() -> (r: Self)
        ensures
            r.wf(),
            r.agent.grants().authorizations() == Map::<AiAuthorizationId, AuthorizationView>::empty(),
            r.agent.grants().policies() == Map::<UserId, PurchasePolicy>::empty(),
            r.agent.grants().auto_purchase_switches() == Map::<UserId, bool>::empty(),
            r.agent.grants().actions() == Seq::<AiActionView>::empty(),
            r.agent.grants().spend() == Seq::<SpendRecord>::empty(),
            r.agent.cart_store().store().carts() == Map::<CartId, CartView>::empty(),
            r.agent.catalog_facts().store().products() == Map::<ProductId, ProductView>::empty(),
            r.agent.catalog_facts().store().inventories() == Map::<
                ProductVariantId,
                InventoryView,
            >::empty(),
            r.agent.catalog_facts().listings().len() == 0,
    {
        let repository = InMemoryAiRepository::new();
        let facts = InMemoryCatalogFacts::new(CatalogService::new(InMemoryCatalogRepository::new()));
        let cart = CartService::new(InMemoryCartRepository::new());
        InMemoryAiStack { agent: AiAgentService::new(repository, cart, facts) }
    }

    /// Publishes a listing in the category "electronics", as
    /// `publish_listing_in_category` does.
    pub fn publish_listing(
        &mut self,
        title: &str,
        price_minor: i64,
        shipping_minor: i64,
        stock: u64,
        seller_score: i32,
    ) -> (r: Result<PublishedListing, AiError>)
        requires
            old(self).wf(),
        ensures
            final(self).wf(),
            exists|variant_id: ProductVariantId|
                final(self).listing_published(
                    old(self),
                    title@,
                    price_minor,
                    shipping_minor,
                    stock,
                    seller_score,
                    "electronics"@,
                    variant_id,
                    r,
                ),
    {
        self.publish_listing_in_category(
            title,
            price_minor,
            shipping_minor,
            stock,
            seller_score,
            "electronics",
        )
    }

    /// Publishing a listing with these arguments took the stack from
    /// `before` to `self` and answered `r`. A blank title or a negative price
    /// is refused before anything is stored; otherwise the product is created,
    /// reviewed, published and stocked under a fresh variant, whose listing
    /// then carries the category, score, shipping fee and a zero tax. A taken
    /// variant id or a negative shipping fee is refused after the product is
    /// stored.
    pub open spec fn listing_published(
        &self,
        before: &Self,
        title: Seq<char>,
        price_minor: i64,
        shipping_minor: i64,
        stock: u64,
        seller_score: i32,
        category_id: Seq<char>,
        variant_id: ProductVariantId,
        r: Result<PublishedListing, AiError>,
    ) -> bool {
        let products0 = before.agent.catalog_facts().store().products();
        let products1 = self.agent.catalog_facts().store().products();
        let stock0 = before.agent.catalog_facts().store().inventories();
        let stock1 = self.agent.catalog_facts().store().inventories();
        &&& self.agent.grants() == before.agent.grants()
        &&& self.agent.cart_store() == before.agent.cart_store()
        &&& if price_minor < 0 || trim_ws(title).len() == 0 {
            &&& r == Err::<PublishedListing, AiError>(AiError::ProductNotPurchasable)
            &&& products1 == products0
            &&& stock1 == stock0
            &&& self.agent.catalog_facts().listings() == before.agent.catalog_facts().listings()
        } else if stock0.contains_key(variant_id) || shipping_minor < 0 {
            &&& r == Err::<PublishedListing, AiError>(
                if stock0.contains_key(variant_id) {
                    AiError::ProductOutOfStock
                } else {
                    AiError::InvalidPolicyAmount
                },
            )
            &&& exists|id: ProductId|
                products1 == products0.insert(id, #[trigger] products1[id]) && products1[id].status
                    == ProductStatus::Published && products1[id].title == trim_ws(title)
                    && products1[id].price@.minor == price_minor
            &&& stock1 == if stock0.contains_key(variant_id) {
                stock0
            } else {
                stock0.insert(
                    variant_id,
                    InventoryView { variant_id, available_stock: stock, reservations: Seq::empty() },
                )
            }
            &&& self.agent.catalog_facts().listings() == before.agent.catalog_facts().listings()
        } else {
            r matches Ok(listing) && {
                &&& listing.title@ == title
                &&& listing.price_minor == price_minor
                &&& listing.variant_id == variant_id
                &&& facts_of(self.agent.catalog_facts(), listing.product_id, variant_id) matches Some(f)
                    && f.product_id == listing.product_id && f.variant_id == variant_id
                    && published_facts(
                    f,
                    title,
                    price_minor,
                    shipping_minor,
                    stock,
                    seller_score,
                    category_id,
                )
            }
        }
    }

    /// Creates, reviews, publishes and stocks a product of a fresh seller,
    /// under a fresh variant, and registers its listing in `category_id`.
    pub fn publish_listing_in_category(
        &mut self,
        title: &str,
        price_minor: i64,
        shipping_minor: i64,
        stock: u64,
        seller_score: i32,
        category_id: &str,
    ) -> (r: Result<PublishedListing, AiError>)
        requires
            old(self).wf(),
        ensures
            final(self).wf(),
            exists|variant_id: ProductVariantId|
                final(self).listing_published(
                    old(self),
                    title@,
                    price_minor,
                    shipping_minor,
                    stock,
                    seller_score,
                    category_id@,
                    variant_id,
                    r,
                ),
    {
        let variant_id = ProductVariantId::new();
        self.publish_listing_for_variant(
            title,
            price_minor,
            shipping_minor,
            stock,
            seller_score,
            category_id,
            variant_id,
        )
    }

    /// Publishes a listing as `publish_listing_in_category` does, stocking
    /// its product under `variant_id`.
    pub fn publish_listing_for_variant(
        &mut self,
        title: &str,
        price_minor: i64,
        shipping_minor: i64,
        stock: u64,
        seller_score: i32,
        category_id: &str,
        variant_id: ProductVariantId,
    ) -> (r: Result<PublishedListing, AiError>)
        requires
            old(self).wf(),
        ensures
            final(self).wf(),
            final(self).listing_published(
                old(self),
                title@,
                price_minor,
                shipping_minor,
                stock,
                seller_score,
                category_id@,
                variant_id,
                r,
            ),
    {
        let mut description = copy_str(title);
        description.push_str(" description");
        let currency_text = copy_str("USD");
        proof {
            reveal_strlit(" description");
            reveal_strlit("USD");
            let d = description@;
            assert(d.last() == 'n');
            lemma_trim_keeps_last(d);
        }
        let command = CreateProductCommand {
            seller_id: SellerId::new(),
            title: copy_str(title),
            description,
            product_type: FulfillmentType::PhysicalStandard,
            price_minor,
            currency: currency_text,
        };
        let mut product = match self.agent.facts_mut().catalog_mut().create_product(command) {
            Ok(created) => created,
            Err(_) => return Err(AiError::ProductNotPurchasable),
        };
        match product.submit_for_review() {
            Ok(()) => {},
            Err(_) => return Err(AiError::ProductNotPurchasable),
        }
        match product.publish() {
            Ok(()) => {},
            Err(_) => return Err(AiError::ProductNotPurchasable),
        }
        match self.agent.facts_mut().catalog_mut().repository_mut().save_product(product.clone()) {
            Ok(()) => {},
            Err(e) => return Err(AiError::Catalog(e)),
        }
        let ghost products0 = old(self).agent.catalog_facts().store().products();
        assert(self.agent.catalog_facts().store().products() =~= products0.insert(product@.id, product@));
        match self.agent.facts_mut().catalog_mut().initialize_inventory(variant_id, stock) {
            Ok(()) => {},
            Err(_) => {
                assert(self.agent.catalog_facts().store().products()[product@.id] == product@);
                return Err(AiError::ProductOutOfStock);
            },
        }
        assert(self.agent.catalog_facts().store().products()[product@.id] == product@);
        let currency = match CurrencyCode::parse("USD") {
            Ok(code) => code,
            Err(_) => return Err(AiError::InvalidPolicyAmount),
        };
        proof {
            CurrencyCode::lemma_view_injective(currency, product@.price@.currency);
        }
        let shipping_fee = match Money::new(shipping_minor, currency) {
            Ok(amount) => amount,
            Err(_) => return Err(AiError::InvalidPolicyAmount),
        };
        let tax = match Money::new(0, currency) {
            Ok(amount) => amount,
            Err(_) => return Err(AiError::InvalidPolicyAmount),
        };
        let extras = CatalogListingExtras {
            product_id: product.id(),
            variant_id,
            category_id: copy_str(category_id),
            seller_score,
            shipping_fee,
            tax,
        };
        match self.agent.facts_mut().register_extras(extras) {
            Ok(()) => {},
            Err(e) => return Err(AiError::CatalogFacts(e)),
        }
        Ok(PublishedListing { product_id: product.id(), variant_id, title: copy_str(title), price_minor })
    }
}

impl Default for InMemoryAiStack {
    fn default() -> (r: Self)
        ensures
            r.wf(),
            r.agent.grants().authorizations() == Map::<AiAuthorizationId, AuthorizationView>::empty(),
            r.agent.grants().actions() == Seq::<AiActionView>::empty(),
            r.agent.cart_store().store().carts() == Map::<CartId, CartView>::empty(),
            r.agent.catalog_facts().listings().len() == 0,
    {
        InMemoryAiStack::new()
    }
}

} // verus!
