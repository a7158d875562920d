//! The in-memory store of carts.

use std::collections::HashMap;

use vstd::prelude::*;

use super::cart::{cart_lines_wf, Cart, CartView};
use crate::ids::CartId;

use crate::text::copy_str;
verus! {

broadcast use vstd::std_specs::hash::group_hash_axioms;

#[derive(Clone, Copy, Debug, PartialEq, Eq, Structural)]
pub enum CartRepositoryError {
    OperationFailed,
}

/// Carts by id.
pub struct InMemoryCartRepository {
    carts: HashMap<u128, Cart>,
}

impl InMemoryCartRepository {
    /// The stored carts, by id.
    pub closed spec fn carts(&self) -> Map<CartId, CartView> {
        Map::new(
            |id: CartId| self.carts@.contains_key(id.value),
            |id: CartId| self.carts@[id.value]@,
        )
    }

    /// Each cart is stored under its own id, and keeps the line rules.
    pub closed spec fn wf(&self) -> bool {
        forall|k: u128| #[trigger]
            self.carts@.contains_key(k) ==> self.carts@[k]@.id.value == k && cart_lines_wf(
                self.carts@[k]@.items,
            )
    }

    /// A stored cart is stored under its own id, and keeps the line rules:
    /// every line has a positive quantity, and no variant has two lines.
    pub proof fn lemma_stored_id(&self, cart_id: CartId)
        requires
            self.wf(),
            self.carts().contains_key(cart_id),
        ensures
            self.carts()[cart_id].id == cart_id,
            cart_lines_wf(self.carts()[cart_id].items),
    {
    }

    pub fn new() -> (r: Self)
        ensures
            r.wf(),
            r.carts() == Map::<CartId, CartView>::empty(),
    {
        let r = InMemoryCartRepository { carts: HashMap::new() };
        assert(r.carts() =~= Map::<CartId, CartView>::empty());
        r
    }

    /// Stores `cart` under its id, replacing what was stored there.
    pub fn save(&mut self, cart: Cart) -> (r: Result<(), CartRepositoryError>)
        requires
            old(self).wf(),
            cart_lines_wf(cart@.items),
        ensures
            final(self).wf(),
            r is Ok,
            final(self).carts() == old(self).carts().insert(cart@.id, cart@),
    {
        let ghost cv = cart@;
        let key = cart.id().as_u128();
        self.carts.insert(key, cart);
        assert(self.carts() =~= old(self).carts().insert(cv.id, cv));
        Ok(())
    }

    /// The cart stored under `cart_id`, if any.
    pub fn find(&self, cart_id: CartId) -> (r: Result<Option<Cart>, CartRepositoryError>)
        requires
            self.wf(),
        ensures
            r is Ok,
            r matches Ok(found) && (match found {
                Some(c) => self.carts().contains_key(cart_id) && c@ == self.carts()[cart_id]
                    && cart_lines_wf(c@.items),
                None => !self.carts().contains_key(cart_id),
            }),
    {
        match self.carts.get(&cart_id.value) {
            Some(c) => Ok(Some(c.clone())),
            None => Ok(None),
        }
    }
}

impl Default for InMemoryCartRepository {
    fn default() -> (r: Self)
        ensures
            r.wf(),
            r.carts() == Map::<CartId, CartView>::empty(),
    {
        InMemoryCartRepository::new()
    }
}

/// The text that describes each error.
pub open spec fn cart_repository_error_message(e: CartRepositoryError) -> Seq<char> {
    match e {
        CartRepositoryError::OperationFailed => "cart storage operation failed"@,
    }
}

impl CartRepositoryError {
    pub fn message(&self) -> (r: String)
        ensures
            r@ == cart_repository_error_message(*self),
    {
        match self {
            CartRepositoryError::OperationFailed => copy_str("cart storage operation failed"),
        }
    }
}

} // verus!
