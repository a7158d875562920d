//! Cart operations over the cart store.

use vstd::prelude::*;

use super::cart::{
    add_item_result, added_line, cart_lines_wf, item_position, lines_after_add, lines_other_than,
    AddCartItem, Cart, CartError, CartItem, CartItemView, CartView,
};
use super::repository::{CartRepositoryError, InMemoryCartRepository};
use crate::catalog::product::{Product, ProductStatus};
use crate::ids::{CartId, CartItemId, UserId};

use crate::text::copy_str;
verus! {

#[derive(Clone, Copy, Debug, PartialEq, Eq, Structural)]
pub enum CartServiceError {
    CartNotFound,
    ProductNotPurchasable,
    Cart(CartError),
    Repository(CartRepositoryError),
}

pub struct CartService {
    repository: InMemoryCartRepository,
}

impl CartService {
    pub closed spec fn store(&self) -> InMemoryCartRepository {
        self.repository
    }

    pub open spec fn wf(&self) -> bool {
        self.store().wf()
    }

    pub fn new(repository: InMemoryCartRepository) -> (r: Self)
        ensures
            r.store() == repository,
    {
        CartService { repository }
    }

    /// Creates and stores an empty cart for `owner_id`.
    pub fn create_cart(&mut self, owner_id: UserId) -> (r: Result<Cart, CartServiceError>)
        requires
            old(self).wf(),
        ensures
            final(self).wf(),
            r matches Ok(c) && c@.owner_id == owner_id && c@.items == Seq::<CartItemView>::empty()
                && final(self).store().carts() == old(self).store().carts().insert(c@.id, c@),
    {
        let cart = Cart::new(owner_id);
        let stored = cart.clone();
        match self.repository.save(stored) {
            Ok(()) => {},
            Err(e) => return Err(CartServiceError::Repository(e)),
        }
        Ok(cart)
    }

    /// The cart stored under `cart_id`, if any.
    pub fn get_cart(&self, cart_id: CartId) -> (r: Result<Option<Cart>, CartServiceError>)
        requires
            self.wf(),
        ensures
            r matches Ok(found) && (match found {
                Some(c) => self.store().carts().contains_key(cart_id) && c@ == self.store().carts()[cart_id],
                None => !self.store().carts().contains_key(cart_id),
            }),
    {
        match self.repository.find(cart_id) {
            Ok(found) => Ok(found),
            Err(e) => Err(CartServiceError::Repository(e)),
        }
    }

    /// Adds `item` to cart `cart_id` as `Cart::add_item` does, and stores the cart.
    pub fn add_item(&mut self, cart_id: CartId, item: AddCartItem) -> (r: Result<CartItem, CartServiceError>)
        requires
            old(self).wf(),
        ensures
            final(self).wf(),
            !old(self).store().carts().contains_key(cart_id) ==> r == Err::<CartItem, CartServiceError>(
                CartServiceError::CartNotFound,
            ),
            old(self).store().carts().contains_key(cart_id) ==> {
                let before = old(self).store().carts()[cart_id];
                &&& add_item_result(before.items, item@) matches Err(e) ==> r == Err::<
                    CartItem,
                    CartServiceError,
                >(CartServiceError::Cart(e))
                &&& add_item_result(before.items, item@) is Ok ==> (r matches Ok(line)
                    && added_line(before.items, item@, line@) && final(self).store().carts()
                    == old(self).store().carts().insert(
                    cart_id,
                    CartView { items: lines_after_add(before.items, item@, line@), ..before },
                ))
            },
            r is Err ==> final(self).store().carts() == old(self).store().carts(),
    {
        let mut cart = self.load_cart(cart_id)?;
        let ghost before = cart@;
        let line = match cart.add_item(item) {
            Ok(line) => line,
            Err(e) => return Err(CartServiceError::Cart(e)),
        };
        proof {
            assert(cart@ == CartView { items: lines_after_add(before.items, item@, line@), ..before });
        }
        match self.repository.save(cart) {
            Ok(()) => {},
            Err(e) => return Err(CartServiceError::Repository(e)),
        }
        Ok(line)
    }

    /// Adds `item` only when `product` may be sold: it must be published.
    pub fn add_purchasable_item(&mut self, cart_id: CartId, item: AddCartItem, product: &Product) -> (r:
        Result<CartItem, CartServiceError>)
        requires
            old(self).wf(),
        ensures
            final(self).wf(),
            product@.status != ProductStatus::Published ==> r == Err::<CartItem, CartServiceError>(
                CartServiceError::ProductNotPurchasable,
            ) && final(self).store() == old(self).store(),
            product@.status == ProductStatus::Published && !old(self).store().carts().contains_key(
                cart_id,
            ) ==> r == Err::<CartItem, CartServiceError>(CartServiceError::CartNotFound),
            product@.status == ProductStatus::Published && old(self).store().carts().contains_key(
                cart_id,
            ) ==> {
                let before = old(self).store().carts()[cart_id];
                &&& add_item_result(before.items, item@) matches Err(e) ==> r == Err::<
                    CartItem,
                    CartServiceError,
                >(CartServiceError::Cart(e))
                &&& add_item_result(before.items, item@) is Ok ==> (r matches Ok(line)
                    && added_line(before.items, item@, line@) && final(self).store().carts()
                    == old(self).store().carts().insert(
                    cart_id,
                    CartView { items: lines_after_add(before.items, item@, line@), ..before },
                ))
            },
            r is Err ==> final(self).store().carts() == old(self).store().carts(),
    {
        if !product.can_be_added_to_cart() {
            return Err(CartServiceError::ProductNotPurchasable);
        }
        self.add_item(cart_id, item)
    }

    /// Sets the quantity of line `item_id` of cart `cart_id`.
    pub fn update_quantity(&mut self, cart_id: CartId, item_id: CartItemId, quantity: u64) -> (r:
        Result<(), CartServiceError>)
        requires
            old(self).wf(),
        ensures
            final(self).wf(),
            !old(self).store().carts().contains_key(cart_id) ==> r == Err::<(), CartServiceError>(
                CartServiceError::CartNotFound,
            ),
            old(self).store().carts().contains_key(cart_id) ==> {
                let before = old(self).store().carts()[cart_id];
                let k = item_position(before.items, item_id);
                if quantity == 0 {
                    r == Err::<(), CartServiceError>(CartServiceError::Cart(CartError::InvalidQuantity))
                } else if k < 0 {
                    r == Err::<(), CartServiceError>(CartServiceError::Cart(CartError::ItemNotFound))
                } else {
                    &&& r is Ok
                    &&& final(self).store().carts() == old(self).store().carts().insert(
                        cart_id,
                        CartView {
                            items: before.items.update(
                                k,
                                CartItemView { quantity, ..before.items[k] },
                            ),
                            ..before
                        },
                    )
                }
            },
            r is Err ==> final(self).store().carts() == old(self).store().carts(),
    {
        let mut cart = self.load_cart(cart_id)?;
        let ghost before = cart@;
        match cart.update_quantity(item_id, quantity) {
            Ok(()) => {},
            Err(e) => return Err(CartServiceError::Cart(e)),
        }
        proof {
            assert(cart@ == CartView { items: cart@.items, ..before });
        }
        match self.repository.save(cart) {
            Ok(()) => {},
            Err(e) => return Err(CartServiceError::Repository(e)),
        }
        Ok(())
    }

    /// Removes line `item_id` from cart `cart_id`; says whether it was there.
    pub fn remove_item(&mut self, cart_id: CartId, item_id: CartItemId) -> (r: Result<
        bool,
        CartServiceError,
    >)
        requires
            old(self).wf(),
        ensures
            final(self).wf(),
            !old(self).store().carts().contains_key(cart_id) ==> r == Err::<bool, CartServiceError>(
                CartServiceError::CartNotFound,
            ) && final(self).store().carts() == old(self).store().carts(),
            old(self).store().carts().contains_key(cart_id) ==> {
                let before = old(self).store().carts()[cart_id];
                &&& r == Ok::<bool, CartServiceError>(
                    exists|j: int| 0 <= j < before.items.len() && before.items[j].id == item_id,
                )
                &&& final(self).store().carts() == old(self).store().carts().insert(
                    cart_id,
                    CartView { items: before.items.filter(lines_other_than(item_id)), ..before },
                )
            },
    {
        let mut cart = self.load_cart(cart_id)?;
        let ghost before = cart@;
        let removed = cart.remove_item(item_id);
        proof {
            assert(cart@ == CartView { items: cart@.items, ..before });
        }
        match self.repository.save(cart) {
            Ok(()) => {},
            Err(e) => return Err(CartServiceError::Repository(e)),
        }
        Ok(removed)
    }

    fn load_cart(&self, cart_id: CartId) -> (r: Result<Cart, CartServiceError>)
        requires
            self.wf(),
        ensures
            self.store().carts().contains_key(cart_id) ==> (r matches Ok(c) && c@
                == self.store().carts()[cart_id] && c@.id == cart_id && cart_lines_wf(c@.items)),
            !self.store().carts().contains_key(cart_id) ==> r == Err::<Cart, CartServiceError>(
                CartServiceError::CartNotFound,
            ),
    {
        match self.repository.find(cart_id) {
            Ok(Some(cart)) => {
                proof {
                    self.repository.lemma_stored_id(cart_id);
                }
                Ok(cart)
            },
            Ok(None) => Err(CartServiceError::CartNotFound),
            Err(e) => Err(CartServiceError::Repository(e)),
        }
    }
}

/// The text that describes each error.
pub open spec fn cart_service_error_message(e: CartServiceError) -> Seq<char> {
    match e {
        CartServiceError::CartNotFound => "cart was not found"@,
        CartServiceError::ProductNotPurchasable => "product cannot be added to the cart"@,
        CartServiceError::Cart(e) => "cart operation failed: "@ + crate::cart::cart::cart_error_message(e),
        CartServiceError::Repository(e) => "cart repository failed: "@ + crate::cart::repository::cart_repository_error_message(e),
    }
}

impl CartServiceError {
    pub fn message(&self) -> (r: String)
        ensures
            r@ == cart_service_error_message(*self),
    {
        match self {
            CartServiceError::CartNotFound => copy_str("cart was not found"),
            CartServiceError::ProductNotPurchasable => copy_str("product cannot be added to the cart"),
            CartServiceError::Cart(e) => {
                let mut text = copy_str("cart operation failed: ");
                text.push_str(e.message().as_str());
                text
            },
            CartServiceError::Repository(e) => {
                let mut text = copy_str("cart repository failed: ");
                text.push_str(e.message().as_str());
                text
            },
        }
    }
}

} // verus!
