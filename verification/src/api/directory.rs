//! What the API remembers of each product it listed: its variant, store,
//! refund window and delivery rules.

use std::collections::HashMap;

use vstd::prelude::*;

use crate::ids::{ProductId, ProductVariantId, StoreId};
use crate::text::{copy_optional, copy_strings};

verus! {

broadcast use vstd::std_specs::hash::group_hash_axioms;

#[derive(Debug, PartialEq, Eq)]
pub struct ProductListingRecord {
    pub variant_id: ProductVariantId,
    pub store_id: Option<StoreId>,
    pub store_name: String,
    pub refund_window_days: u32,
    pub digital_method: Option<String>,
    pub shipping_regions: Vec<String>,
    pub estimated_days_min: u32,
    pub estimated_days_max: u32,
}

pub struct ProductListingRecordView {
    pub variant_id: ProductVariantId,
    pub store_id: Option<StoreId>,
    pub store_name: Seq<char>,
    pub refund_window_days: u32,
    pub digital_method: Option<String>,
    pub shipping_regions: Seq<String>,
    pub estimated_days_min: u32,
    pub estimated_days_max: u32,
}

impl View for ProductListingRecord {
    type V = ProductListingRecordView;

    open spec fn view(&self) -> ProductListingRecordView {
        ProductListingRecordView {
            variant_id: self.variant_id,
            store_id: self.store_id,
            store_name: self.store_name@,
            refund_window_days: self.refund_window_days,
            digital_method: self.digital_method,
            shipping_regions: self.shipping_regions@,
            estimated_days_min: self.estimated_days_min,
            estimated_days_max: self.estimated_days_max,
        }
    }
}

impl Clone for ProductListingRecord {
    fn clone(&self) -> (r: Self)
        ensures
            r@ == self@,
    {
        ProductListingRecord {
            variant_id: self.variant_id,
            store_id: self.store_id,
            store_name: self.store_name.clone(),
            refund_window_days: self.refund_window_days,
            digital_method: copy_optional(&self.digital_method),
            shipping_regions: copy_strings(&self.shipping_regions),
            estimated_days_min: self.estimated_days_min,
            estimated_days_max: self.estimated_days_max,
        }
    }
}

/// The listing records of the API, by product.
pub struct MarketplaceDirectory {
    listings: HashMap<u128, ProductListingRecord>,
}

impl MarketplaceDirectory {
    pub closed spec fn listings(&self) -> Map<ProductId, ProductListingRecordView> {
        Map::new(
            |id: ProductId| self.listings@.contains_key(id.value),
            |id: ProductId| self.listings@[id.value]@,
        )
    }

    pub fn new() -> (r: Self)
        ensures
            r.listings() == Map::<ProductId, ProductListingRecordView>::empty(),
    {
        let r = MarketplaceDirectory { listings: HashMap::new() };
        assert(r.listings() =~= Map::<ProductId, ProductListingRecordView>::empty());
        r
    }

    /// Remembers the listing record of `product_id`, replacing an earlier one.
    pub fn remember_listing(&mut self, product_id: ProductId, record: ProductListingRecord)
        ensures
            final(self).listings() == old(self).listings().insert(product_id, record@),
    {
        let ghost rv = record@;
        self.listings.insert(product_id.value, record);
        assert(self.listings() =~= old(self).listings().insert(product_id, rv));
    }

    /// The listing record of `product_id`, if any.
    pub fn listing(&self, product_id: ProductId) -> (r: Option<ProductListingRecord>)
        ensures
            match r {
                Some(record) => self.listings().contains_key(product_id) && record@
                    == self.listings()[product_id],
                None => !self.listings().contains_key(product_id),
            },
    {
        match self.listings.get(&product_id.value) {
            Some(record) => Some(record.clone()),
            None => None,
        }
    }

    /// The variant listed for `product_id`, if any.
    pub fn variant_for(&self, product_id: ProductId) -> (r: Option<ProductVariantId>)
        ensures
            match r {
                Some(v) => self.listings().contains_key(product_id) && v
                    == self.listings()[product_id].variant_id,
                None => !self.listings().contains_key(product_id),
            },
    {
        match self.listings.get(&product_id.value) {
            Some(record) => Some(record.variant_id),
            None => None,
        }
    }
}

impl Default for MarketplaceDirectory {
    fn default() -> (r: Self)
        ensures
            r.listings() == Map::<ProductId, ProductListingRecordView>::empty(),
    {
        MarketplaceDirectory::new()
    }
}

} // verus!
