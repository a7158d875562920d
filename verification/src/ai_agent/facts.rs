//! Catalog facts that purchase decisions are made from: price, stock and
//! listing details come from the catalog, never from a search quote.

use vstd::prelude::*;

use crate::catalog::product::{FulfillmentType, ProductStatus, ProductView};
use crate::catalog::repository::InMemoryCatalogRepository;
use crate::catalog::service::CatalogService;
use crate::ids::{ProductId, ProductVariantId, SellerId};
use crate::money::Money;
use crate::text::{ascii_lower_seq, contains_seq, contains_str, lowercase_ascii, trim_ws};

use crate::text::copy_str;
verus! {

#[derive(Clone, Copy, Debug, PartialEq, Eq, Structural)]
pub enum CatalogFactsError {
    OperationFailed,
}

/// Everything a purchase decision needs to know about one variant.
#[derive(Debug, PartialEq, Eq)]
pub struct CatalogPurchaseFacts {
    pub product_id: ProductId,
    pub variant_id: ProductVariantId,
    pub seller_id: SellerId,
    pub title: String,
    pub category_id: String,
    pub seller_score: i32,
    pub unit_price: Money,
    pub shipping_fee: Money,
    pub tax: Money,
    pub available_stock: u64,
    pub fulfillment_type: FulfillmentType,
    pub is_published: bool,
}

pub struct CatalogPurchaseFactsView {
    pub product_id: ProductId,
    pub variant_id: ProductVariantId,
    pub seller_id: SellerId,
    pub title: Seq<char>,
    pub category_id: Seq<char>,
    pub seller_score: i32,
    pub unit_price: Money,
    pub shipping_fee: Money,
    pub tax: Money,
    pub available_stock: u64,
    pub fulfillment_type: FulfillmentType,
    pub is_published: bool,
}

impl View for CatalogPurchaseFacts {
    type V = CatalogPurchaseFactsView;

    open spec fn view(&self) -> CatalogPurchaseFactsView {
        CatalogPurchaseFactsView {
            product_id: self.product_id,
            variant_id: self.variant_id,
            seller_id: self.seller_id,
            title: self.title@,
            category_id: self.category_id@,
            seller_score: self.seller_score,
            unit_price: self.unit_price,
            shipping_fee: self.shipping_fee,
            tax: self.tax,
            available_stock: self.available_stock,
            fulfillment_type: self.fulfillment_type,
            is_published: self.is_published,
        }
    }
}

impl Clone for CatalogPurchaseFacts {
    fn clone(&self) -> (r: Self)
        ensures
            r == *self,
    {
        CatalogPurchaseFacts {
            product_id: self.product_id,
            variant_id: self.variant_id,
            seller_id: self.seller_id,
            title: self.title.clone(),
            category_id: self.category_id.clone(),
            seller_score: self.seller_score,
            unit_price: self.unit_price,
            shipping_fee: self.shipping_fee,
            tax: self.tax,
            available_stock: self.available_stock,
            fulfillment_type: self.fulfillment_type,
            is_published: self.is_published,
        }
    }
}

/// What the marketplace knows of a listing beyond the catalog product.
#[derive(Debug, PartialEq, Eq)]
pub struct CatalogListingExtras {
    pub product_id: ProductId,
    pub variant_id: ProductVariantId,
    pub category_id: String,
    pub seller_score: i32,
    pub shipping_fee: Money,
    pub tax: Money,
}

pub struct CatalogListingExtrasView {
    pub product_id: ProductId,
    pub variant_id: ProductVariantId,
    pub category_id: Seq<char>,
    pub seller_score: i32,
    pub shipping_fee: Money,
    pub tax: Money,
}

impl View for CatalogListingExtras {
    type V = CatalogListingExtrasView;

    open spec fn view(&self) -> CatalogListingExtrasView {
        CatalogListingExtrasView {
            product_id: self.product_id,
            variant_id: self.variant_id,
            category_id: self.category_id@,
            seller_score: self.seller_score,
            shipping_fee: self.shipping_fee,
            tax: self.tax,
        }
    }
}

pub open spec fn extras_views(s: Seq<CatalogListingExtras>) -> Seq<CatalogListingExtrasView> {
    s.map_values(|e: CatalogListingExtras| e@)
}

pub open spec fn facts_views(s: Seq<CatalogPurchaseFacts>) -> Seq<CatalogPurchaseFactsView> {
    s.map_values(|f: CatalogPurchaseFacts| f@)
}

/// The facts of the listing `e`: the product's seller, title, price, kind
/// and publication from the catalog, its variant's available stock (none
/// without an inventory), and the extras' category, score, shipping and tax.
/// A listing whose product is not in the catalog has no facts.
pub open spec fn listing_facts(store: InMemoryCatalogRepository, e: CatalogListingExtrasView) -> Option<
    CatalogPurchaseFactsView,
> {
    if !store.products().contains_key(e.product_id) {
        None
    } else {
        let p: ProductView = store.products()[e.product_id];
        Some(
            CatalogPurchaseFactsView {
                product_id: e.product_id,
                variant_id: e.variant_id,
                seller_id: p.seller_id,
                title: p.title,
                category_id: e.category_id,
                seller_score: e.seller_score,
                unit_price: p.price,
                shipping_fee: e.shipping_fee,
                tax: e.tax,
                available_stock: if store.inventories().contains_key(e.variant_id) {
                    store.inventories()[e.variant_id].available_stock
                } else {
                    0
                },
                fulfillment_type: p.product_type,
                is_published: p.status == ProductStatus::Published,
            },
        )
    }
}

/// The position of the listing of `product_id` and `variant_id`; -1 if none.
pub open spec fn listing_position(
    s: Seq<CatalogListingExtrasView>,
    product_id: ProductId,
    variant_id: ProductVariantId,
) -> int
    decreases s.len(),
{
    if s.len() == 0 {
        -1
    } else if s.last().product_id == product_id && s.last().variant_id == variant_id {
        s.len() - 1
    } else {
        listing_position(s.drop_last(), product_id, variant_id)
    }
}

/// A listing position is -1 or a position of the sequence.
pub proof fn lemma_listing_position_bounds(
    s: Seq<CatalogListingExtrasView>,
    product_id: ProductId,
    variant_id: ProductVariantId,
)
    ensures
        -1 <= listing_position(s, product_id, variant_id) < s.len(),
    decreases s.len(),
{
    if s.len() > 0 {
        lemma_listing_position_bounds(s.drop_last(), product_id, variant_id);
    }
}

/// Replacing the listing found for a product and variant by another for the
/// same pair leaves it where it was.
pub proof fn lemma_listing_position_update(
    s: Seq<CatalogListingExtrasView>,
    e: CatalogListingExtrasView,
)
    requires
        listing_position(s, e.product_id, e.variant_id) >= 0,
    ensures
        listing_position(
            s.update(listing_position(s, e.product_id, e.variant_id), e),
            e.product_id,
            e.variant_id,
        ) == listing_position(s, e.product_id, e.variant_id),
    decreases s.len(),
{
    let k = listing_position(s, e.product_id, e.variant_id);
    lemma_listing_position_bounds(s, e.product_id, e.variant_id);
    let u = s.update(k, e);
    if k == s.len() - 1 {
        assert(u.last() == e);
    } else {
        assert(u.drop_last() =~= s.drop_last().update(k, e));
        lemma_listing_position_update(s.drop_last(), e);
    }
}

/// A search term: the query trimmed and in lower case; a blank query is no term.
pub open spec fn search_term(query: Option<Seq<char>>) -> Option<Seq<char>> {
    match query {
        Some(q) => if trim_ws(q).len() > 0 {
            Some(ascii_lower_seq(trim_ws(q)))
        } else {
            None
        },
        None => None,
    }
}

/// A listing is found when it is published and in stock, in the asked
/// category if any, and, if there is a term, its title or category holds the
/// term in any ASCII letter case.
pub open spec fn listing_found(
    f: CatalogPurchaseFactsView,
    term: Option<Seq<char>>,
    category: Option<Seq<char>>,
) -> bool {
    &&& f.is_published
    &&& f.available_stock > 0
    &&& (category is None || f.category_id == category->0)
    &&& (term is None || contains_seq(ascii_lower_seq(f.title), term->0) || contains_seq(
        ascii_lower_seq(f.category_id),
        term->0,
    ))
}

/// A search by a query finds every published, in-stock listing (of the
/// asked category, if one is asked) whose title or category holds the
/// trimmed query, in any ASCII letter case; a blank query finds every such
/// listing, and no listing is found otherwise.
pub proof fn lemma_search_matches_title_or_category(
    f: CatalogPurchaseFactsView,
    query: Option<Seq<char>>,
    category: Option<Seq<char>>,
)
    ensures
        ({
            let for_sale = f.is_published && f.available_stock > 0 && (category is None
                || f.category_id == category->0);
            let matched = match query {
                None => true,
                Some(q) => trim_ws(q).len() == 0 || contains_seq(
                    ascii_lower_seq(f.title),
                    ascii_lower_seq(trim_ws(q)),
                ) || contains_seq(ascii_lower_seq(f.category_id), ascii_lower_seq(trim_ws(q))),
            };
            listing_found(f, search_term(query), category) == (for_sale && matched)
        }),
{
}

/// Every listing that a search finds among `s` is among its results.
pub proof fn lemma_found_listing_is_returned(
    store: InMemoryCatalogRepository,
    s: Seq<CatalogListingExtrasView>,
    term: Option<Seq<char>>,
    category: Option<Seq<char>>,
    k: int,
)
    requires
        0 <= k < s.len(),
        listing_facts(store, s[k]) is Some,
        listing_found(listing_facts(store, s[k])->0, term, category),
    ensures
        found_listings(store, s, term, category).contains(listing_facts(store, s[k])->0),
    decreases s.len(),
{
    let f = listing_facts(store, s[k])->0;
    let before = found_listings(store, s.drop_last(), term, category);
    if k == s.len() - 1 {
        assert(found_listings(store, s, term, category) == before.push(f));
        assert(before.push(f)[before.len() as int] == f);
    } else {
        assert(s.drop_last()[k] == s[k]);
        lemma_found_listing_is_returned(store, s.drop_last(), term, category, k);
        let j = choose|j: int| 0 <= j < before.len() && before[j] == f;
        let all = found_listings(store, s, term, category);
        match listing_facts(store, s.last()) {
            Some(g) => {
                if listing_found(g, term, category) {
                    assert(all == before.push(g));
                    assert(all[j] == before[j]);
                }
            },
            None => {},
        }
        assert(all.contains(f));
    }
}

/// The facts of the listings in `s` that a search finds, in the order of `s`.
pub open spec fn found_listings(
    store: InMemoryCatalogRepository,
    s: Seq<CatalogListingExtrasView>,
    term: Option<Seq<char>>,
    category: Option<Seq<char>>,
) -> Seq<CatalogPurchaseFactsView>
    decreases s.len(),
{
    if s.len() == 0 {
        Seq::empty()
    } else {
        let before = found_listings(store, s.drop_last(), term, category);
        match listing_facts(store, s.last()) {
            Some(f) => if listing_found(f, term, category) {
                before.push(f)
            } else {
                before
            },
            None => before,
        }
    }
}

/// A search finds only published listings with stock, each of the asked
/// category when one is asked.
pub proof fn lemma_found_listings_are_for_sale(
    store: InMemoryCatalogRepository,
    s: Seq<CatalogListingExtrasView>,
    term: Option<Seq<char>>,
    category: Option<Seq<char>>,
)
    ensures
        forall|i: int|
            0 <= i < found_listings(store, s, term, category).len() ==> {
                let f = #[trigger] found_listings(store, s, term, category)[i];
                &&& f.is_published
                &&& f.available_stock > 0
                &&& category matches Some(c) ==> f.category_id == c
            },
    decreases s.len(),
{
    if s.len() > 0 {
        lemma_found_listings_are_for_sale(store, s.drop_last(), term, category);
    }
}

/// Whether a listing belongs to the product with id value `k`.
pub open spec fn of_product(k: u128) -> spec_fn(CatalogPurchaseFactsView) -> bool {
    |f: CatalogPurchaseFactsView| f.product_id.value == k
}

pub open spec fn sorted_by_product(s: Seq<CatalogPurchaseFactsView>) -> bool {
    forall|i: int, j: int| 0 <= i < j < s.len() ==> s[i].product_id.value <= s[j].product_id.value
}

/// `sorted` is `s` ordered by product id, keeping the order of the listings
/// of each product.
pub open spec fn stably_sorted_by_product(
    sorted: Seq<CatalogPurchaseFactsView>,
    s: Seq<CatalogPurchaseFactsView>,
) -> bool {
    &&& sorted.len() == s.len()
    &&& sorted_by_product(sorted)
    &&& forall|k: u128| #[trigger] sorted.filter(of_product(k)) == s.filter(of_product(k))
}

/// `slice::sort_by_key` on the product id: a stable sort, so listings end up
/// in product-id order and the listings of one product keep their order.
#[verifier::external_body]
fn sort_by_product(list: &mut Vec<CatalogPurchaseFacts>)
    ensures
        stably_sorted_by_product(facts_views(final(list)@), facts_views(old(list)@)),
{
    list.sort_by_key(|facts| facts.product_id.value);
}

/// Catalog facts kept beside the catalog: the listing extras by product and
/// variant, in the order they were first registered.
pub struct InMemoryCatalogFacts {
    catalog: CatalogService,
    extras: Vec<CatalogListingExtras>,
}

impl InMemoryCatalogFacts {
    pub closed spec fn catalog_service(&self) -> CatalogService {
        self.catalog
    }

    pub open spec fn store(&self) -> InMemoryCatalogRepository {
        self.catalog_service().store()
    }

    pub closed spec fn listings(&self) -> Seq<CatalogListingExtrasView> {
        extras_views(self.extras@)
    }

    pub open spec fn wf(&self) -> bool {
        self.catalog_service().wf()
    }

    pub fn new(catalog: CatalogService) -> (r: Self)
        ensures
            r.catalog_service() == catalog,
            r.listings() == Seq::<CatalogListingExtrasView>::empty(),
    {
        let r = InMemoryCatalogFacts { catalog, extras: Vec::new() };
        assert(r.listings() =~= Seq::<CatalogListingExtrasView>::empty());
        r
    }

    pub fn catalog(&self) -> (r: &CatalogService)
        ensures
            *r == self.catalog_service(),
    {
        &self.catalog
    }

    pub fn catalog_mut(&mut self) -> (r: &mut CatalogService)
        ensures
            *r == old(self).catalog_service(),
            final(self).catalog_service() == *final(r),
            final(self).listings() == old(self).listings(),
    {
        &mut self.catalog
    }

    /// Stores the extras of a listing, replacing those of the same product and variant.
    pub fn register_extras(&mut self, extras: CatalogListingExtras) -> (r: Result<(), CatalogFactsError>)
        ensures
            r is Ok,
            final(self).catalog_service() == old(self).catalog_service(),
            ({
                let k = listing_position(old(self).listings(), extras@.product_id, extras@.variant_id);
                &&& final(self).listings() == if k >= 0 {
                    old(self).listings().update(k, extras@)
                } else {
                    old(self).listings().push(extras@)
                }
                &&& listing_position(final(self).listings(), extras@.product_id, extras@.variant_id) >= 0
                &&& final(self).listings()[listing_position(
                    final(self).listings(),
                    extras@.product_id,
                    extras@.variant_id,
                )] == extras@
            }),
    {
        let ghost before = self.listings();
        let mut i = self.extras.len();
        assert(before.take(i as int) =~= before);
        while i > 0
            invariant
                self.extras@ == old(self).extras@,
                self.catalog == old(self).catalog,
                before == self.listings(),
                i <= self.extras@.len(),
                listing_position(before, extras@.product_id, extras@.variant_id) == listing_position(
                    before.take(i as int),
                    extras@.product_id,
                    extras@.variant_id,
                ),
            decreases i,
        {
            let j = i - 1;
            proof {
                assert(before.take(i as int).drop_last() =~= before.take(j as int));
                assert(before.take(i as int).last() == self.extras@[j as int]@);
            }
            if self.extras[j].product_id == extras.product_id && self.extras[j].variant_id
                == extras.variant_id {
                let ghost ev = extras@;
                self.extras.set(j, extras);
                assert(self.listings() =~= before.update(j as int, ev));
                proof {
                    lemma_listing_position_update(before, ev);
                }
                return Ok(());
            }
            i = j;
        }
        let ghost ev = extras@;
        self.extras.push(extras);
        assert(self.listings() =~= before.push(ev));
        assert(self.listings().last() == ev);
        Ok(())
    }

    fn facts_from_keys(&self, product_id: ProductId, variant_id: ProductVariantId, extras: &CatalogListingExtras) -> (r: Result<
        Option<CatalogPurchaseFacts>,
        CatalogFactsError,
    >)
        requires
            self.wf(),
            extras@.product_id == product_id,
            extras@.variant_id == variant_id,
        ensures
            r matches Ok(found) && (match found {
                Some(f) => listing_facts(self.store(), extras@) == Some(f@),
                None => listing_facts(self.store(), extras@) is None,
            }),
    {
        let product = match self.catalog.get_product(product_id) {
            Ok(Some(p)) => p,
            Ok(None) => return Ok(None),
            Err(_) => return Err(CatalogFactsError::OperationFailed),
        };
        let available_stock = match self.catalog.get_inventory(variant_id) {
            Ok(Some(inventory)) => inventory.available_stock(),
            Ok(None) => 0,
            Err(_) => return Err(CatalogFactsError::OperationFailed),
        };
        Ok(
            Some(
                CatalogPurchaseFacts {
                    product_id,
                    variant_id,
                    seller_id: product.seller_id(),
                    title: product.title().to_owned(),
                    category_id: extras.category_id.clone(),
                    seller_score: extras.seller_score,
                    unit_price: *product.price(),
                    shipping_fee: extras.shipping_fee,
                    tax: extras.tax,
                    available_stock,
                    fulfillment_type: product.product_type(),
                    is_published: product.can_be_added_to_cart(),
                },
            ),
        )
    }

    /// The facts of the listing of `product_id` and `variant_id`; none when
    /// the listing or its product is unknown.
    pub fn load_purchase_facts(&self, product_id: ProductId, variant_id: ProductVariantId) -> (r:
        Result<Option<CatalogPurchaseFacts>, CatalogFactsError>)
        requires
            self.wf(),
        ensures
            ({
                let k = listing_position(self.listings(), product_id, variant_id);
                r matches Ok(found) && (match found {
                    Some(f) => k >= 0 && listing_facts(self.store(), self.listings()[k]) == Some(
                        f@,
                    ),
                    None => k < 0 || listing_facts(self.store(), self.listings()[k]) is None,
                })
            }),
    {
        let ghost all = self.listings();
        let mut i = self.extras.len();
        assert(all.take(i as int) =~= all);
        while i > 0
            invariant
                self.wf(),
                all == self.listings(),
                i <= self.extras@.len(),
                listing_position(all, product_id, variant_id) == listing_position(
                    all.take(i as int),
                    product_id,
                    variant_id,
                ),
            decreases i,
        {
            let j = i - 1;
            proof {
                assert(all.take(i as int).drop_last() =~= all.take(j as int));
                assert(all.take(i as int).last() == self.extras@[j as int]@);
            }
            if self.extras[j].product_id == product_id && self.extras[j].variant_id == variant_id {
                return self.facts_from_keys(product_id, variant_id, &self.extras[j]);
            }
            i = j;
        }
        Ok(None)
    }

    /// The published, in-stock listings that match the search, in product-id
    /// order; the listings of one product keep the order they were registered in.
    pub fn search_listings(&self, query: Option<&str>, category_id: Option<&str>) -> (r: Result<
        Vec<CatalogPurchaseFacts>,
        CatalogFactsError,
    >)
        requires
            self.wf(),
        ensures
            r matches Ok(found) && stably_sorted_by_product(
                facts_views(found@),
                found_listings(
                    self.store(),
                    self.listings(),
                    search_term(
                        match query {
                            Some(q) => Some(q@),
                            None => None,
                        },
                    ),
                    match category_id {
                        Some(c) => Some(c@),
                        None => None,
                    },
                ),
            ),
    {
        let ghost term = search_term(
            match query {
                Some(q) => Some(q@),
                None => None,
            },
        );
        let ghost category = match category_id {
            Some(c) => Some(c@),
            None => None,
        };
        let term_text: Option<String> = match query {
            Some(q) => {
                let trimmed = q.trim();
                if trimmed.is_empty() {
                    None
                } else {
                    Some(lowercase_ascii(trimmed))
                }
            },
            None => None,
        };
        assert(match term_text {
            Some(t) => term == Some(t@),
            None => term is None,
        });
        let ghost all = self.listings();
        let mut found: Vec<CatalogPurchaseFacts> = Vec::new();
        let mut i: usize = 0;
        while i < self.extras.len()
            invariant
                self.wf(),
                all == self.listings(),
                i <= self.extras@.len(),
                match term_text {
                    Some(t) => term == Some(t@),
                    None => term is None,
                },
                category == match category_id {
                    Some(c) => Some(c@),
                    None => None::<Seq<char>>,
                },
                facts_views(found@) == found_listings(self.store(), all.take(i as int), term, category),
            decreases self.extras@.len() - i,
        {
            proof {
                assert(all.take(i + 1).drop_last() =~= all.take(i as int));
                assert(all.take(i + 1).last() == self.extras@[i as int]@);
            }
            let entry = &self.extras[i];
            let facts = self.facts_from_keys(entry.product_id, entry.variant_id, entry)?;
            match facts {
                Some(f) => {
                    let in_category = match category_id {
                        Some(c) => crate::text::str_equal(f.category_id.as_str(), c),
                        None => true,
                    };
                    let has_term = match &term_text {
                        Some(t) => contains_str(lowercase_ascii(f.title.as_str()).as_str(), t.as_str())
                            || contains_str(
                            lowercase_ascii(f.category_id.as_str()).as_str(),
                            t.as_str(),
                        ),
                        None => true,
                    };
                    if f.is_published && f.available_stock > 0 && in_category && has_term {
                        let ghost prior = found@;
                        let ghost fv = f@;
                        found.push(f);
                        assert(facts_views(found@) =~= facts_views(prior).push(fv));
                    }
                },
                None => {},
            }
            i = i + 1;
        }
        assert(all.take(i as int) =~= all);
        sort_by_product(&mut found);
        Ok(found)
    }
}

/// The text that describes each error.
pub open spec fn catalog_facts_error_message(e: CatalogFactsError) -> Seq<char> {
    match e {
        CatalogFactsError::OperationFailed => "catalog facts storage operation failed"@,
    }
}

impl CatalogFactsError {
    pub fn message(&self) -> (r: String)
        ensures
            r@ == catalog_facts_error_message(*self),
    {
        match self {
            CatalogFactsError::OperationFailed => copy_str("catalog facts storage operation failed"),
        }
    }
}

} // verus!
