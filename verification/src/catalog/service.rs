//! Catalog operations over the product and inventory store.

use vstd::prelude::*;

use super::inventory::{reserve_result, reserve_state, release_state, Inventory, InventoryView};
use super::product::{Product, ProductError, ProductStatus, ProductType};
use super::repository::{CatalogRepositoryError, InMemoryCatalogRepository};
use crate::ids::{ProductId, ProductVariantId, SellerId, StockReservationId};
use crate::money::{is_currency_code, CurrencyCode, CurrencyCodeError, Money, MoneyError};
use crate::text::trim_ws;

use crate::text::copy_str;
verus! {

/// What a seller submits to create a product.
#[derive(Debug)]
pub struct CreateProductCommand {
    pub seller_id: SellerId,
    pub title: String,
    pub description: String,
    pub product_type: ProductType,
    pub price_minor: i64,
    pub currency: String,
}

#[derive(Clone, Copy, Debug, PartialEq, Eq, Structural)]
pub enum CatalogError {
    InvalidProduct(ProductError),
    InvalidPrice(MoneyError),
    InvalidCurrencyCode(CurrencyCodeError),
    Repository(CatalogRepositoryError),
}

pub struct CatalogService {
    repository: InMemoryCatalogRepository,
}

impl CatalogService {
    pub closed spec fn store(&self) -> InMemoryCatalogRepository {
        self.repository
    }

    pub open spec fn wf(&self) -> bool {
        self.store().wf()
    }

    pub fn new(repository: InMemoryCatalogRepository) -> (r: Self)
        ensures
            r.store() == repository,
    {
        CatalogService { repository }
    }

    pub fn repository(&self) -> (r: &InMemoryCatalogRepository)
        ensures
            *r == self.store(),
    {
        &self.repository
    }

    pub fn repository_mut(&mut self) -> (r: &mut InMemoryCatalogRepository)
        ensures
            *r == old(self).store(),
            final(self).store() == *final(r),
    {
        &mut self.repository
    }

    /// Validates and stores a new draft product; the checks run in order:
    /// currency code, price, then title and description.
    pub fn create_product(&mut self, command: CreateProductCommand) -> (r: Result<Product, CatalogError>)
        requires
            old(self).wf(),
        ensures
            final(self).wf(),
            final(self).store().inventories() == old(self).store().inventories(),
            !is_currency_code(command.currency@) ==> r == Err::<Product, CatalogError>(
                CatalogError::InvalidCurrencyCode(CurrencyCodeError::Invalid),
            ),
            is_currency_code(command.currency@) && command.price_minor < 0 ==> r == Err::<
                Product,
                CatalogError,
            >(CatalogError::InvalidPrice(MoneyError::NegativeAmount)),
            is_currency_code(command.currency@) && command.price_minor >= 0 && trim_ws(
                command.title@,
            ).len() == 0 ==> r == Err::<Product, CatalogError>(
                CatalogError::InvalidProduct(ProductError::BlankTitle),
            ),
            is_currency_code(command.currency@) && command.price_minor >= 0 && trim_ws(
                command.title@,
            ).len() > 0 && trim_ws(command.description@).len() == 0 ==> r == Err::<
                Product,
                CatalogError,
            >(CatalogError::InvalidProduct(ProductError::BlankDescription)),
            is_currency_code(command.currency@) && command.price_minor >= 0 && trim_ws(
                command.title@,
            ).len() > 0 && trim_ws(command.description@).len() > 0 ==> r is Ok,
            r is Err ==> final(self).store().products() == old(self).store().products(),
            r matches Ok(p) ==> {
                &&& p@.seller_id == command.seller_id
                &&& p@.title == trim_ws(command.title@)
                &&& p@.description == trim_ws(command.description@)
                &&& p@.product_type == command.product_type
                &&& p@.price@.minor == command.price_minor
                &&& p@.price@.currency@ == command.currency@
                &&& p@.status == ProductStatus::Draft
                &&& final(self).store().products() == old(self).store().products().insert(
                    p@.id,
                    p@,
                )
            },
    {
        let currency = match CurrencyCode::parse(command.currency.as_str()) {
            Ok(c) => c,
            Err(e) => return Err(CatalogError::InvalidCurrencyCode(e)),
        };
        let price = match Money::new(command.price_minor, currency) {
            Ok(p) => p,
            Err(e) => return Err(CatalogError::InvalidPrice(e)),
        };
        let product = match Product::new(
            command.seller_id,
            command.title,
            command.description,
            command.product_type,
            price,
        ) {
            Ok(p) => p,
            Err(e) => return Err(CatalogError::InvalidProduct(e)),
        };
        let stored = product.clone();
        match self.repository.save_product(stored) {
            Ok(()) => {},
            Err(e) => return Err(CatalogError::Repository(e)),
        }
        Ok(product)
    }

    /// The product stored under `product_id`, if any.
    pub fn get_product(&self, product_id: ProductId) -> (r: Result<Option<Product>, CatalogError>)
        requires
            self.wf(),
        ensures
            r matches Ok(found) && (match found {
                Some(p) => self.store().products().contains_key(product_id) && p@
                    == self.store().products()[product_id],
                None => !self.store().products().contains_key(product_id),
            }),
    {
        match self.repository.find_product(product_id) {
            Ok(found) => Ok(found),
            Err(e) => Err(CatalogError::Repository(e)),
        }
    }

    /// Creates the inventory of a variant with `available_stock` units.
    pub fn initialize_inventory(&mut self, variant_id: ProductVariantId, available_stock: u64) -> (r:
        Result<(), CatalogError>)
        requires
            old(self).wf(),
        ensures
            final(self).wf(),
            final(self).store().products() == old(self).store().products(),
            old(self).store().inventories().contains_key(variant_id) ==> r == Err::<
                (),
                CatalogError,
            >(CatalogError::Repository(CatalogRepositoryError::InventoryAlreadyExists))
                && final(self).store().inventories() == old(self).store().inventories(),
            !old(self).store().inventories().contains_key(variant_id) ==> r is Ok && final(self).store().inventories() == old(self).store().inventories().insert(
                variant_id,
                InventoryView {
                    variant_id,
                    available_stock,
                    reservations: Seq::empty(),
                },
            ),
    {
        match self.repository.save_inventory(Inventory::new(variant_id, available_stock)) {
            Ok(()) => Ok(()),
            Err(e) => Err(CatalogError::Repository(e)),
        }
    }

    /// The inventory of `variant_id`, if any.
    pub fn get_inventory(&self, variant_id: ProductVariantId) -> (r: Result<
        Option<Inventory>,
        CatalogError,
    >)
        requires
            self.wf(),
        ensures
            r matches Ok(found) && (match found {
                Some(inv) => self.store().inventories().contains_key(variant_id) && inv@
                    == self.store().inventories()[variant_id] && inv.wf(),
                None => !self.store().inventories().contains_key(variant_id),
            }),
    {
        match self.repository.find_inventory(variant_id) {
            Ok(found) => Ok(found),
            Err(e) => Err(CatalogError::Repository(e)),
        }
    }

    /// Reserves stock of `variant_id` under `reservation_id`.
    pub fn reserve_stock(
        &mut self,
        variant_id: ProductVariantId,
        quantity: u64,
        reservation_id: StockReservationId,
    ) -> (r: Result<(), CatalogError>)
        requires
            old(self).wf(),
        ensures
            final(self).wf(),
            final(self).store().products() == old(self).store().products(),
            !old(self).store().inventories().contains_key(variant_id) ==> r == Err::<
                (),
                CatalogError,
            >(CatalogError::Repository(CatalogRepositoryError::InventoryNotFound))
                && final(self).store().inventories() == old(self).store().inventories(),
            old(self).store().inventories().contains_key(variant_id) ==> {
                let before = old(self).store().inventories()[variant_id];
                &&& final(self).store().inventories() == old(self).store().inventories().insert(
                    variant_id,
                    reserve_state(before, quantity, reservation_id),
                )
                &&& r == match reserve_result(before, quantity, reservation_id) {
                    Ok(_) => Ok::<(), CatalogError>(()),
                    Err(e) => Err(
                        CatalogError::Repository(CatalogRepositoryError::Inventory(e)),
                    ),
                }
            },
    {
        match self.repository.reserve_stock(variant_id, quantity, reservation_id) {
            Ok(()) => Ok(()),
            Err(e) => Err(CatalogError::Repository(e)),
        }
    }

    /// Releases reservation `reservation_id` of `variant_id`.
    pub fn release_stock(&mut self, variant_id: ProductVariantId, reservation_id: StockReservationId) -> (r:
        Result<(), CatalogError>)
        requires
            old(self).wf(),
        ensures
            final(self).wf(),
            final(self).store().products() == old(self).store().products(),
            !old(self).store().inventories().contains_key(variant_id) ==> r == Err::<
                (),
                CatalogError,
            >(CatalogError::Repository(CatalogRepositoryError::InventoryNotFound))
                && final(self).store().inventories() == old(self).store().inventories(),
            old(self).store().inventories().contains_key(variant_id) ==> r is Ok && final(self).store().inventories() == old(self).store().inventories().insert(
                variant_id,
                release_state(old(self).store().inventories()[variant_id], reservation_id),
            ),
    {
        match self.repository.release_stock(variant_id, reservation_id) {
            Ok(()) => Ok(()),
            Err(e) => Err(CatalogError::Repository(e)),
        }
    }
}

/// The text that describes each error.
pub open spec fn catalog_error_message(e: CatalogError) -> Seq<char> {
    match e {
        CatalogError::InvalidProduct(e) => "product is invalid: "@ + crate::catalog::product::product_error_message(e),
        CatalogError::InvalidPrice(e) => "price is invalid: "@ + crate::money::money_error_message(e),
        CatalogError::InvalidCurrencyCode(e) => "currency code is invalid: "@ + crate::money::currency_code_error_message(e),
        CatalogError::Repository(e) => "catalog repository failed: "@ + crate::catalog::repository::catalog_repository_error_message(e),
    }
}

impl CatalogError {
    pub fn message(&self) -> (r: String)
        ensures
            r@ == catalog_error_message(*self),
    {
        match self {
            CatalogError::InvalidProduct(e) => {
                let mut text = copy_str("product is invalid: ");
                text.push_str(e.message().as_str());
                text
            },
            CatalogError::InvalidPrice(e) => {
                let mut text = copy_str("price is invalid: ");
                text.push_str(e.message().as_str());
                text
            },
            CatalogError::InvalidCurrencyCode(e) => {
                let mut text = copy_str("currency code is invalid: ");
                text.push_str(e.message().as_str());
                text
            },
            CatalogError::Repository(e) => {
                let mut text = copy_str("catalog repository failed: ");
                text.push_str(e.message().as_str());
                text
            },
        }
    }
}

} // verus!
