//! The in-memory store of products and inventories.

use std::collections::HashMap;

use vstd::prelude::*;

use super::inventory::{
    release_state, reserve_result, reserve_state, Inventory, InventoryError, InventoryView,
};
use super::product::{Product, ProductView};
use crate::ids::{ProductId, ProductVariantId, StockReservationId};

use crate::text::copy_str;
verus! {

broadcast use vstd::std_specs::hash::group_hash_axioms;

#[derive(Clone, Copy, Debug, PartialEq, Eq, Structural)]
pub enum CatalogRepositoryError {
    ProductNotFound,
    InventoryNotFound,
    InventoryAlreadyExists,
    Inventory(InventoryError),
}

/// Products by id and inventories by variant id.
pub struct InMemoryCatalogRepository {
    products: HashMap<u128, Product>,
    inventories: HashMap<u128, Inventory>,
}

impl InMemoryCatalogRepository {
    /// The stored products, by id.
    pub closed spec fn products(&self) -> Map<ProductId, ProductView> {
        Map::new(
            |id: ProductId| self.products@.contains_key(id.value),
            |id: ProductId| self.products@[id.value]@,
        )
    }

    /// The stored inventories, by variant id.
    pub closed spec fn inventories(&self) -> Map<ProductVariantId, InventoryView> {
        Map::new(
            |id: ProductVariantId| self.inventories@.contains_key(id.value),
            |id: ProductVariantId| self.inventories@[id.value]@,
        )
    }

    /// Each product is stored under its own id, each inventory under its
    /// variant id, and every inventory is well formed.
    pub closed spec fn wf(&self) -> bool {
        &&& forall|k: u128| #[trigger]
            self.products@.contains_key(k) ==> self.products@[k]@.id.value == k
        &&& forall|k: u128| #[trigger]
            self.inventories@.contains_key(k) ==> self.inventories@[k]@.variant_id.value == k
                && self.inventories@[k].wf()
    }

    /// An empty store.
    pub fn new() -> (r: Self)
        ensures
            r.wf(),
            r.products() == Map::<ProductId, ProductView>::empty(),
            r.inventories() == Map::<ProductVariantId, InventoryView>::empty(),
    {
        let r = InMemoryCatalogRepository { products: HashMap::new(), inventories: HashMap::new() };
        assert(r.products() =~= Map::<ProductId, ProductView>::empty());
        assert(r.inventories() =~= Map::<ProductVariantId, InventoryView>::empty());
        r
    }

    /// Stores `product` under its id, replacing what was stored there.
    pub fn save_product(&mut self, product: Product) -> (r: Result<(), CatalogRepositoryError>)
        requires
            old(self).wf(),
        ensures
            final(self).wf(),
            r is Ok,
            final(self).products() == old(self).products().insert(product@.id, product@),
            final(self).inventories() == old(self).inventories(),
    {
        let ghost id = product@.id;
        let ghost pv = product@;
        let key = product.id().as_u128();
        self.products.insert(key, product);
        assert(self.products() =~= old(self).products().insert(id, pv));
        assert(self.inventories() =~= old(self).inventories());
        Ok(())
    }

    /// The product stored under `product_id`, if any.
    pub fn find_product(&self, product_id: ProductId) -> (r: Result<
        Option<Product>,
        CatalogRepositoryError,
    >)
        requires
            self.wf(),
        ensures
            r is Ok,
            r matches Ok(found) && (match found {
                Some(p) => self.products().contains_key(product_id) && p@ == self.products()[product_id],
                None => !self.products().contains_key(product_id),
            }),
    {
        match self.products.get(&product_id.value) {
            Some(p) => Ok(Some(p.clone())),
            None => Ok(None),
        }
    }

    /// Stores a new inventory; a variant that already has one is refused.
    pub fn save_inventory(&mut self, inventory: Inventory) -> (r: Result<(), CatalogRepositoryError>)
        requires
            old(self).wf(),
            inventory.wf(),
        ensures
            final(self).wf(),
            final(self).products() == old(self).products(),
            old(self).inventories().contains_key(inventory@.variant_id) ==> r == Err::<
                (),
                CatalogRepositoryError,
            >(CatalogRepositoryError::InventoryAlreadyExists) && final(self).inventories()
                == old(self).inventories(),
            !old(self).inventories().contains_key(inventory@.variant_id) ==> r is Ok
                && final(self).inventories() == old(self).inventories().insert(
                inventory@.variant_id,
                inventory@,
            ),
    {
        let key = inventory.variant_id().as_u128();
        if self.inventories.contains_key(&key) {
            assert(old(self).inventories().contains_key(inventory@.variant_id));
            return Err(CatalogRepositoryError::InventoryAlreadyExists);
        }
        let ghost id = inventory@.variant_id;
        let ghost iv = inventory@;
        self.inventories.insert(key, inventory);
        assert(self.inventories() =~= old(self).inventories().insert(id, iv));
        assert(self.products() =~= old(self).products());
        Ok(())
    }

    /// The inventory of `variant_id`, if any.
    pub fn find_inventory(&self, variant_id: ProductVariantId) -> (r: Result<
        Option<Inventory>,
        CatalogRepositoryError,
    >)
        requires
            self.wf(),
        ensures
            r is Ok,
            r matches Ok(found) && (match found {
                Some(inv) => self.inventories().contains_key(variant_id) && inv@
                    == self.inventories()[variant_id] && inv.wf(),
                None => !self.inventories().contains_key(variant_id),
            }),
    {
        match self.inventories.get(&variant_id.value) {
            Some(inv) => Ok(Some(inv.clone())),
            None => Ok(None),
        }
    }

    /// Reserves stock of `variant_id`, as `Inventory::reserve` does.
    pub fn reserve_stock(
        &mut self,
        variant_id: ProductVariantId,
        quantity: u64,
        reservation_id: StockReservationId,
    ) -> (r: Result<(), CatalogRepositoryError>)
        requires
            old(self).wf(),
        ensures
            final(self).wf(),
            final(self).products() == old(self).products(),
            !old(self).inventories().contains_key(variant_id) ==> r == Err::<
                (),
                CatalogRepositoryError,
            >(CatalogRepositoryError::InventoryNotFound) && final(self).inventories()
                == old(self).inventories(),
            old(self).inventories().contains_key(variant_id) ==> {
                let before = old(self).inventories()[variant_id];
                &&& final(self).inventories() == old(self).inventories().insert(
                    variant_id,
                    reserve_state(before, quantity, reservation_id),
                )
                &&& r == match reserve_result(before, quantity, reservation_id) {
                    Ok(_) => Ok::<(), CatalogRepositoryError>(()),
                    Err(e) => Err(CatalogRepositoryError::Inventory(e)),
                }
            },
    {
        let mut inventory = match self.inventories.get(&variant_id.value) {
            Some(inv) => inv.clone(),
            None => return Err(CatalogRepositoryError::InventoryNotFound),
        };
        let outcome = inventory.reserve(quantity, reservation_id);
        let ghost after = inventory@;
        self.inventories.insert(variant_id.value, inventory);
        assert(self.inventories() =~= old(self).inventories().insert(variant_id, after));
        assert(self.products() =~= old(self).products());
        match outcome {
            Ok(_) => Ok(()),
            Err(e) => Err(CatalogRepositoryError::Inventory(e)),
        }
    }

    /// Releases a reservation of `variant_id`, as `Inventory::release` does.
    pub fn release_stock(&mut self, variant_id: ProductVariantId, reservation_id: StockReservationId) -> (r: Result<
        (),
        CatalogRepositoryError,
    >)
        requires
            old(self).wf(),
        ensures
            final(self).wf(),
            final(self).products() == old(self).products(),
            !old(self).inventories().contains_key(variant_id) ==> r == Err::<
                (),
                CatalogRepositoryError,
            >(CatalogRepositoryError::InventoryNotFound) && final(self).inventories()
                == old(self).inventories(),
            old(self).inventories().contains_key(variant_id) ==> r is Ok
                && final(self).inventories() == old(self).inventories().insert(
                variant_id,
                release_state(old(self).inventories()[variant_id], reservation_id),
            ),
    {
        let mut inventory = match self.inventories.get(&variant_id.value) {
            Some(inv) => inv.clone(),
            None => return Err(CatalogRepositoryError::InventoryNotFound),
        };
        let _ = inventory.release(reservation_id);
        let ghost after = inventory@;
        self.inventories.insert(variant_id.value, inventory);
        assert(self.inventories() =~= old(self).inventories().insert(variant_id, after));
        assert(self.products() =~= old(self).products());
        Ok(())
    }
}

impl Default for InMemoryCatalogRepository {
    fn default() -> (r: Self)
        ensures
            r.wf(),
            r.products() == Map::<ProductId, ProductView>::empty(),
            r.inventories() == Map::<ProductVariantId, InventoryView>::empty(),
    {
        InMemoryCatalogRepository::new()
    }
}

/// The text that describes each error.
pub open spec fn catalog_repository_error_message(e: CatalogRepositoryError) -> Seq<char> {
    match e {
        CatalogRepositoryError::ProductNotFound => "product was not found"@,
        CatalogRepositoryError::InventoryNotFound => "inventory was not found"@,
        CatalogRepositoryError::InventoryAlreadyExists => "inventory already exists"@,
        CatalogRepositoryError::Inventory(e) => "inventory operation failed: "@ + crate::catalog::inventory::inventory_error_message(e),
    }
}

impl CatalogRepositoryError {
    pub fn message(&self) -> (r: String)
        ensures
            r@ == catalog_repository_error_message(*self),
    {
        match self {
            CatalogRepositoryError::ProductNotFound => copy_str("product was not found"),
            CatalogRepositoryError::InventoryNotFound => copy_str("inventory was not found"),
            CatalogRepositoryError::InventoryAlreadyExists => copy_str("inventory already exists"),
            CatalogRepositoryError::Inventory(e) => {
                let mut text = copy_str("inventory operation failed: ");
                text.push_str(e.message().as_str());
                text
            },
        }
    }
}

} // verus!
