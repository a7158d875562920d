//! Stock of one product variant and the reservations held against it.

use vstd::prelude::*;

use crate::ids::{ProductVariantId, StockReservationId};

use crate::text::copy_str;
verus! {

/// The sum of the quantities held by a list of reservations.
pub open spec fn reservations_total(s: Seq<(StockReservationId, u64)>) -> int
    decreases s.len(),
{
    if s.len() == 0 {
        0
    } else {
        reservations_total(s.drop_last()) + s.last().1
    }
}

/// The position of the reservation `id` in `s`, if it holds one.
pub open spec fn reservation_index(s: Seq<(StockReservationId, u64)>, id: StockReservationId) -> int
    decreases s.len(),
{
    if s.len() == 0 {
        -1
    } else if s.last().0 == id {
        s.len() - 1
    } else {
        reservation_index(s.drop_last(), id)
    }
}

/// No reservation id occurs twice.
pub open spec fn reservation_ids_distinct(s: Seq<(StockReservationId, u64)>) -> bool {
    forall|i: int, j: int| 0 <= i < j < s.len() ==> s[i].0 != s[j].0
}

#[derive(Debug, PartialEq, Eq)]
pub struct Inventory {
    variant_id: ProductVariantId,
    available_stock: u64,
    reservations: Vec<(StockReservationId, u64)>,
}

pub struct InventoryView {
    pub variant_id: ProductVariantId,
    pub available_stock: u64,
    /// Reservations in the order they were made; each id at most once.
    pub reservations: Seq<(StockReservationId, u64)>,
}

impl InventoryView {
    /// The quantity held by reservation `id`, if any.
    pub open spec fn reserved_for(self, id: StockReservationId) -> Option<u64> {
        let k = reservation_index(self.reservations, id);
        if k >= 0 {
            Some(self.reservations[k].1)
        } else {
            None
        }
    }

    pub open spec fn reserved_total(self) -> int {
        reservations_total(self.reservations)
    }

    /// Stock in hand: what is available plus what is reserved.
    pub open spec fn stock_in_hand(self) -> int {
        self.available_stock + self.reserved_total()
    }
}

/// What `Inventory::reserve` answers: a zero quantity is invalid; a known
/// reservation id succeeds again only with the quantity it holds; a new one
/// needs enough available stock.
pub open spec fn reserve_result(v: InventoryView, quantity: u64, id: StockReservationId) -> Result<
    StockReservation,
    InventoryError,
> {
    let granted = StockReservation { reservation_id: id, variant_id: v.variant_id, quantity };
    if quantity == 0 {
        Err(InventoryError::InvalidQuantity)
    } else if v.reserved_for(id) is Some {
        if v.reserved_for(id) == Some(quantity) {
            Ok(granted)
        } else {
            Err(InventoryError::ReservationConflict)
        }
    } else if v.available_stock < quantity {
        Err(InventoryError::InsufficientStock)
    } else {
        Ok(granted)
    }
}

/// The inventory after `Inventory::reserve`: only a new reservation changes
/// it, moving `quantity` units from available stock to the reservation.
pub open spec fn reserve_state(v: InventoryView, quantity: u64, id: StockReservationId) -> InventoryView {
    if quantity > 0 && v.reserved_for(id) is None && v.available_stock >= quantity {
        InventoryView {
            available_stock: (v.available_stock - quantity) as u64,
            reservations: v.reservations.push((id, quantity)),
            ..v
        }
    } else {
        v
    }
}

/// The inventory after `Inventory::release`: the units of reservation `id`
/// go back to available stock and the reservation is forgotten.
pub open spec fn release_state(v: InventoryView, id: StockReservationId) -> InventoryView {
    match v.reserved_for(id) {
        Some(q) => InventoryView {
            available_stock: (v.available_stock + q) as u64,
            reservations: v.reservations.remove(reservation_index(v.reservations, id)),
            ..v
        },
        None => v,
    }
}

#[derive(Clone, Copy, Debug, PartialEq, Eq, Structural)]
pub struct StockReservation {
    pub reservation_id: StockReservationId,
    pub variant_id: ProductVariantId,
    pub quantity: u64,
}

#[derive(Clone, Copy, Debug, PartialEq, Eq, Structural)]
pub enum InventoryError {
    InvalidQuantity,
    InsufficientStock,
    ReservationConflict,
    StockOverflow,
}

impl View for Inventory {
    type V = InventoryView;

    closed spec fn view(&self) -> InventoryView {
        InventoryView {
            variant_id: self.variant_id,
            available_stock: self.available_stock,
            reservations: self.reservations@,
        }
    }
}

proof fn lemma_total_nonneg(s: Seq<(StockReservationId, u64)>)
    ensures
        reservations_total(s) >= 0,
    decreases s.len(),
{
    if s.len() > 0 {
        lemma_total_nonneg(s.drop_last());
    }
}

proof fn lemma_total_push(s: Seq<(StockReservationId, u64)>, e: (StockReservationId, u64))
    ensures
        reservations_total(s.push(e)) == reservations_total(s) + e.1,
{
    assert(s.push(e).drop_last() =~= s);
}

/// Removing the entry at `k` takes its quantity off the total.
proof fn lemma_total_remove(s: Seq<(StockReservationId, u64)>, k: int)
    requires
        0 <= k < s.len(),
    ensures
        reservations_total(s.remove(k)) == reservations_total(s) - s[k].1,
    decreases s.len(),
{
    if k == s.len() - 1 {
        assert(s.remove(k) =~= s.drop_last());
    } else {
        lemma_total_remove(s.drop_last(), k);
        assert(s.remove(k) =~= s.drop_last().remove(k).push(s.last()));
        assert(s.remove(k).drop_last() =~= s.drop_last().remove(k));
    }
}

/// The entry at `k` takes part in the total.
proof fn lemma_entry_within_total(s: Seq<(StockReservationId, u64)>, k: int)
    requires
        0 <= k < s.len(),
    ensures
        s[k].1 <= reservations_total(s),
{
    lemma_total_remove(s, k);
    lemma_total_nonneg(s.remove(k));
}

proof fn lemma_index_bounds(s: Seq<(StockReservationId, u64)>, id: StockReservationId)
    ensures
        -1 <= reservation_index(s, id) < s.len(),
        reservation_index(s, id) >= 0 ==> s[reservation_index(s, id)].0 == id,
        reservation_index(s, id) < 0 ==> forall|i: int| 0 <= i < s.len() ==> s[i].0 != id,
    decreases s.len(),
{
    if s.len() > 0 {
        lemma_index_bounds(s.drop_last(), id);
        assert(forall|i: int| 0 <= i < s.len() - 1 ==> s.drop_last()[i] == s[i]);
    }
}

impl Clone for Inventory {
    fn clone(&self) -> (r: Self)
        ensures
            r@ == self@,
            r.wf() == self.wf(),
    {
        let mut reservations: Vec<(StockReservationId, u64)> = Vec::new();
        let mut i: usize = 0;
        while i < self.reservations.len()
            invariant
                i <= self.reservations@.len(),
                reservations@ == self.reservations@.take(i as int),
            decreases self.reservations@.len() - i,
        {
            reservations.push(self.reservations[i]);
            i = i + 1;
            assert(reservations@ =~= self.reservations@.take(i as int));
        }
        assert(reservations@ =~= self.reservations@);
        Inventory {
            variant_id: self.variant_id,
            available_stock: self.available_stock,
            reservations,
        }
    }
}

impl Inventory {
    /// Reservation ids are distinct, and the stock in hand fits in a `u64`.
    pub closed spec fn wf(&self) -> bool {
        &&& reservation_ids_distinct(self.reservations@)
        &&& self@.stock_in_hand() <= u64::MAX
    }

    /// An inventory of `available_stock` units with no reservation.
    pub fn new(variant_id: ProductVariantId, available_stock: u64) -> (r: Self)
        ensures
            r.wf(),
            r@.variant_id == variant_id,
            r@.available_stock == available_stock,
            r@.reservations == Seq::<(StockReservationId, u64)>::empty(),
    {
        Inventory { variant_id, available_stock, reservations: Vec::new() }
    }

    pub fn variant_id(&self) -> (r: ProductVariantId)
        ensures
            r == self@.variant_id,
    {
        self.variant_id
    }

    pub fn available_stock(&self) -> (r: u64)
        ensures
            r == self@.available_stock,
    {
        self.available_stock
    }

    /// Units held by reservations.
    pub fn reserved_stock(&self) -> (r: u64)
        requires
            self.wf(),
        ensures
            r == self@.reserved_total(),
    {
        let mut total: u64 = 0;
        let mut i: usize = 0;
        proof {
            lemma_total_nonneg(self.reservations@);
        }
        while i < self.reservations.len()
            invariant
                self.wf(),
                i <= self.reservations@.len(),
                total == reservations_total(self.reservations@.take(i as int)),
            decreases self.reservations@.len() - i,
        {
            proof {
                let s = self.reservations@;
                assert(s.take(i + 1).drop_last() =~= s.take(i as int));
                lemma_entry_within_total(s, i as int);
                assert(s.take(i + 1) =~= s.take(i as int).push(s[i as int]));
                lemma_total_push(s.take(i as int), s[i as int]);
                assert(s =~= s.take(i + 1) + s.skip(i + 1));
                lemma_prefix_total(s, i + 1);
            }
            total = total + self.reservations[i].1;
            i = i + 1;
        }
        assert(self.reservations@.take(i as int) =~= self.reservations@);
        total
    }

    /// Reserves `quantity` units under `reservation_id`. Asking again for the
    /// same reservation with the same quantity succeeds without reserving more.
    pub fn reserve(&mut self, quantity: u64, reservation_id: StockReservationId) -> (r: Result<
        StockReservation,
        InventoryError,
    >)
        requires
            old(self).wf(),
        ensures
            final(self).wf(),
            r == reserve_result(old(self)@, quantity, reservation_id),
            final(self)@ == reserve_state(old(self)@, quantity, reservation_id),
            final(self)@.stock_in_hand() == old(self)@.stock_in_hand(),
    {
        if quantity == 0 {
            return Err(InventoryError::InvalidQuantity);
        }
        let mut i: usize = 0;
        while i < self.reservations.len()
            invariant
                quantity > 0,
                self.wf(),
                *self == *old(self),
                i <= self.reservations@.len(),
                forall|j: int| 0 <= j < i ==> self.reservations@[j].0 != reservation_id,
            decreases self.reservations@.len() - i,
        {
            if self.reservations[i].0 == reservation_id {
                proof {
                    lemma_unique_index(self.reservations@, reservation_id, i as int);
                }
                if self.reservations[i].1 == quantity {
                    return Ok(
                        StockReservation {
                            reservation_id,
                            variant_id: self.variant_id,
                            quantity,
                        },
                    );
                }
                return Err(InventoryError::ReservationConflict);
            }
            i = i + 1;
        }
        proof {
            lemma_index_bounds(self.reservations@, reservation_id);
        }
        if self.available_stock < quantity {
            return Err(InventoryError::InsufficientStock);
        }
        proof {
            lemma_total_push(self.reservations@, (reservation_id, quantity));
        }
        self.available_stock = self.available_stock - quantity;
        self.reservations.push((reservation_id, quantity));
        Ok(StockReservation { reservation_id, variant_id: self.variant_id, quantity })
    }

    /// Gives the units of reservation `reservation_id` back to available
    /// stock and forgets the reservation; an unknown reservation changes nothing.
    pub fn release(&mut self, reservation_id: StockReservationId) -> (r: Result<(), InventoryError>)
        requires
            old(self).wf(),
        ensures
            final(self).wf(),
            r is Ok,
            final(self)@ == release_state(old(self)@, reservation_id),
            final(self)@.stock_in_hand() == old(self)@.stock_in_hand(),
    {
        let mut i: usize = 0;
        while i < self.reservations.len()
            invariant
                self.wf(),
                *self == *old(self),
                i <= self.reservations@.len(),
                forall|j: int| 0 <= j < i ==> self.reservations@[j].0 != reservation_id,
            decreases self.reservations@.len() - i,
        {
            if self.reservations[i].0 == reservation_id {
                let quantity = self.reservations[i].1;
                proof {
                    lemma_unique_index(self.reservations@, reservation_id, i as int);
                    lemma_total_remove(self.reservations@, i as int);
                    lemma_total_nonneg(self.reservations@.remove(i as int));
                    lemma_remove_keeps_distinct(self.reservations@, i as int);
                }
                self.reservations.remove(i);
                self.available_stock = self.available_stock + quantity;
                return Ok(());
            }
            i = i + 1;
        }
        proof {
            lemma_index_bounds(self.reservations@, reservation_id);
        }
        Ok(())
    }
}

/// Releasing a reservation gives back exactly what reserving it took: after a
/// fresh reservation of `quantity` units under `id`, releasing `id` restores
/// the available stock and the reservation list.
pub proof fn lemma_release_undoes_reserve(v: InventoryView, id: StockReservationId, quantity: u64)
    requires
        v.reserved_for(id) is None,
        0 < quantity <= v.available_stock,
    ensures
        ({
            let reserved = InventoryView {
                available_stock: (v.available_stock - quantity) as u64,
                reservations: v.reservations.push((id, quantity)),
                ..v
            };
            &&& reserved.reserved_for(id) == Some(quantity)
            &&& reserved.reservations.remove(reservation_index(reserved.reservations, id))
                == v.reservations
            &&& reserved.available_stock + quantity == v.available_stock
        }),
{
    let pushed = v.reservations.push((id, quantity));
    assert(pushed.drop_last() =~= v.reservations);
    assert(pushed.remove(pushed.len() - 1) =~= v.reservations);
}

/// A fresh reservation succeeds exactly when enough stock is available:
/// a positive quantity under an unknown id is granted whenever it is at most
/// the available stock, which then drops by exactly that quantity, held under
/// the id; it is refused for lack of stock only when it exceeds what is
/// available, and then nothing changes.
pub proof fn lemma_fresh_reservation(v: InventoryView, quantity: u64, id: StockReservationId)
    requires
        quantity > 0,
        v.reserved_for(id) is None,
    ensures
        quantity <= v.available_stock ==> {
            &&& reserve_result(v, quantity, id) == Ok::<StockReservation, InventoryError>(
                StockReservation { reservation_id: id, variant_id: v.variant_id, quantity },
            )
            &&& reserve_state(v, quantity, id).available_stock + quantity == v.available_stock
            &&& reserve_state(v, quantity, id).reserved_for(id) == Some(quantity)
        },
        quantity > v.available_stock ==> {
            &&& reserve_result(v, quantity, id) == Err::<StockReservation, InventoryError>(
                InventoryError::InsufficientStock,
            )
            &&& reserve_state(v, quantity, id) == v
        },
{
    if quantity <= v.available_stock {
        lemma_release_undoes_reserve(v, id, quantity);
    }
}

/// With distinct ids, the entry found at `k` is the one `reservation_index` names.
proof fn lemma_unique_index(s: Seq<(StockReservationId, u64)>, id: StockReservationId, k: int)
    requires
        0 <= k < s.len(),
        s[k].0 == id,
        forall|j: int| 0 <= j < k ==> s[j].0 != id,
    ensures
        reservation_index(s, id) >= 0,
        reservation_ids_distinct(s) ==> reservation_index(s, id) == k,
{
    lemma_index_bounds(s, id);
}

proof fn lemma_remove_keeps_distinct(s: Seq<(StockReservationId, u64)>, k: int)
    requires
        0 <= k < s.len(),
        reservation_ids_distinct(s),
    ensures
        reservation_ids_distinct(s.remove(k)),
{
    let t = s.remove(k);
    assert forall|i: int, j: int| 0 <= i < j < t.len() implies t[i].0 != t[j].0 by {
        let a = if i < k { i } else { i + 1 };
        let b = if j < k { j } else { j + 1 };
        assert(t[i] == s[a] && t[j] == s[b]);
    }
}

/// The total of a prefix is at most the total of the whole list.
proof fn lemma_prefix_total(s: Seq<(StockReservationId, u64)>, n: int)
    requires
        0 <= n <= s.len(),
    ensures
        reservations_total(s.take(n)) <= reservations_total(s),
    decreases s.len() - n,
{
    if n < s.len() {
        lemma_prefix_total(s, n + 1);
        assert(s.take(n + 1).drop_last() =~= s.take(n));
    } else {
        assert(s.take(n) =~= s);
    }
}

/// The text that describes each error.
pub open spec fn inventory_error_message(e: InventoryError) -> Seq<char> {
    match e {
        InventoryError::InvalidQuantity => "inventory reservation quantity must be greater than zero"@,
        InventoryError::InsufficientStock => "inventory does not have enough available stock"@,
        InventoryError::ReservationConflict => "reservation ID was already used with a different quantity"@,
        InventoryError::StockOverflow => "inventory stock value overflowed"@,
    }
}

impl InventoryError {
    pub fn message(&self) -> (r: String)
        ensures
            r@ == inventory_error_message(*self),
    {
        match self {
            InventoryError::InvalidQuantity => copy_str("inventory reservation quantity must be greater than zero"),
            InventoryError::InsufficientStock => copy_str("inventory does not have enough available stock"),
            InventoryError::ReservationConflict => copy_str("reservation ID was already used with a different quantity"),
            InventoryError::StockOverflow => copy_str("inventory stock value overflowed"),
        }
    }
}

} // verus!
