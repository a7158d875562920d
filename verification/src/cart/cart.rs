//! Shopping carts: lines of product variants at a snapshot of their price.

use vstd::prelude::*;

use crate::catalog::product::FulfillmentType;
use crate::ids::{CartId, CartItemId, ProductId, ProductVariantId, UserId};
use crate::money::Money;
use crate::text::trim_ws;

use crate::text::copy_str;
verus! {

#[derive(Clone, Copy, Debug, PartialEq, Eq, Structural)]
pub enum CartItemSource {
    User,
    Ai,
}

#[derive(Clone, Copy, Debug, PartialEq, Eq, Structural)]
pub enum CartError {
    InvalidQuantity,
    BlankTitle,
    PriceSnapshotChanged,
    QuantityOverflow,
    ItemNotFound,
}

/// What a caller asks to put in a cart.
#[derive(Debug, PartialEq, Eq)]
pub struct AddCartItem {
    pub product_id: ProductId,
    pub variant_id: ProductVariantId,
    pub title: String,
    pub unit_price: Money,
    pub quantity: u64,
    pub source: CartItemSource,
    pub fulfillment_type: FulfillmentType,
}

pub struct AddCartItemView {
    pub product_id: ProductId,
    pub variant_id: ProductVariantId,
    pub title: Seq<char>,
    pub unit_price: Money,
    pub quantity: u64,
    pub source: CartItemSource,
    pub fulfillment_type: FulfillmentType,
}

impl View for AddCartItem {
    type V = AddCartItemView;

    open spec fn view(&self) -> AddCartItemView {
        AddCartItemView {
            product_id: self.product_id,
            variant_id: self.variant_id,
            title: self.title@,
            unit_price: self.unit_price,
            quantity: self.quantity,
            source: self.source,
            fulfillment_type: self.fulfillment_type,
        }
    }
}

/// What `Cart::add_item` answers for `item` on a cart holding `items`: a
/// zero quantity is invalid; a variant already in the cart merges unless its
/// price snapshot changed or the quantity overflows; a new line needs a title.
pub open spec fn add_item_result(items: Seq<CartItemView>, item: AddCartItemView) -> Result<(), CartError> {
    let k = variant_position(items, item.variant_id);
    if item.quantity == 0 {
        Err(CartError::InvalidQuantity)
    } else if k >= 0 {
        if items[k].unit_price != item.unit_price {
            Err(CartError::PriceSnapshotChanged)
        } else if items[k].quantity + item.quantity > u64::MAX {
            Err(CartError::QuantityOverflow)
        } else {
            Ok(())
        }
    } else if trim_ws(item.title).len() == 0 {
        Err(CartError::BlankTitle)
    } else {
        Ok(())
    }
}

/// Whether `line` is the line that `Cart::add_item` makes or merges for
/// `item` on a cart holding `before`: a merged line keeps its id and adds the
/// quantity; a new line gets a fresh id.
pub open spec fn added_line(before: Seq<CartItemView>, item: AddCartItemView, line: CartItemView) -> bool {
    let k = variant_position(before, item.variant_id);
    if k >= 0 {
        line == CartItemView { quantity: (before[k].quantity + item.quantity) as u64, ..before[k] }
    } else {
        &&& line.product_id == item.product_id
        &&& line.variant_id == item.variant_id
        &&& line.title == trim_ws(item.title)
        &&& line.unit_price == item.unit_price
        &&& line.quantity == item.quantity
        &&& line.source == item.source
        &&& line.fulfillment_type == item.fulfillment_type
    }
}

/// The lines of a cart after `Cart::add_item` placed `line` for `item`.
pub open spec fn lines_after_add(before: Seq<CartItemView>, item: AddCartItemView, line: CartItemView) -> Seq<
    CartItemView,
> {
    let k = variant_position(before, item.variant_id);
    if k >= 0 {
        before.update(k, line)
    } else {
        before.push(line)
    }
}

impl Clone for AddCartItem {
    fn clone(&self) -> (r: Self)
        ensures
            r == *self,
    {
        AddCartItem {
            product_id: self.product_id,
            variant_id: self.variant_id,
            title: self.title.clone(),
            unit_price: self.unit_price,
            quantity: self.quantity,
            source: self.source,
            fulfillment_type: self.fulfillment_type,
        }
    }
}

#[derive(Debug, PartialEq, Eq)]
pub struct CartItem {
    id: CartItemId,
    product_id: ProductId,
    variant_id: ProductVariantId,
    title: String,
    unit_price: Money,
    quantity: u64,
    source: CartItemSource,
    fulfillment_type: FulfillmentType,
}

pub struct CartItemView {
    pub id: CartItemId,
    pub product_id: ProductId,
    pub variant_id: ProductVariantId,
    pub title: Seq<char>,
    pub unit_price: Money,
    pub quantity: u64,
    pub source: CartItemSource,
    pub fulfillment_type: FulfillmentType,
}

impl View for CartItem {
    type V = CartItemView;

    closed spec fn view(&self) -> CartItemView {
        CartItemView {
            id: self.id,
            product_id: self.product_id,
            variant_id: self.variant_id,
            title: self.title@,
            unit_price: self.unit_price,
            quantity: self.quantity,
            source: self.source,
            fulfillment_type: self.fulfillment_type,
        }
    }
}

impl Clone for CartItem {
    fn clone(&self) -> (r: Self)
        ensures
            r@ == self@,
    {
        CartItem {
            id: self.id,
            product_id: self.product_id,
            variant_id: self.variant_id,
            title: self.title.clone(),
            unit_price: self.unit_price,
            quantity: self.quantity,
            source: self.source,
            fulfillment_type: self.fulfillment_type,
        }
    }
}

impl CartItem {
    pub fn id(&self) -> (r: CartItemId)
        ensures
            r == self@.id,
    {
        self.id
    }

    pub fn product_id(&self) -> (r: ProductId)
        ensures
            r == self@.product_id,
    {
        self.product_id
    }

    pub fn variant_id(&self) -> (r: ProductVariantId)
        ensures
            r == self@.variant_id,
    {
        self.variant_id
    }

    pub fn title(&self) -> (r: &str)
        ensures
            r@ == self@.title,
    {
        self.title.as_str()
    }

    pub fn unit_price(&self) -> (r: &Money)
        ensures
            *r == self@.unit_price,
    {
        &self.unit_price
    }

    pub fn quantity(&self) -> (r: u64)
        ensures
            r == self@.quantity,
    {
        self.quantity
    }

    pub fn source(&self) -> (r: CartItemSource)
        ensures
            r == self@.source,
    {
        self.source
    }

    pub fn fulfillment_type(&self) -> (r: FulfillmentType)
        ensures
            r == self@.fulfillment_type,
    {
        self.fulfillment_type
    }
}

#[derive(Debug, PartialEq, Eq)]
pub struct Cart {
    id: CartId,
    owner_id: UserId,
    items: Vec<CartItem>,
}

pub struct CartView {
    pub id: CartId,
    pub owner_id: UserId,
    pub items: Seq<CartItemView>,
}

/// The first line of `items`, from position `i` on, that holds `variant`; -1 if none.
pub open spec fn variant_position_from(items: Seq<CartItemView>, variant: ProductVariantId, i: int) -> int
    decreases items.len() - i,
{
    if i < 0 || i >= items.len() {
        -1
    } else if items[i].variant_id == variant {
        i
    } else {
        variant_position_from(items, variant, i + 1)
    }
}

/// The first line of `items` that holds `variant`; -1 if none.
pub open spec fn variant_position(items: Seq<CartItemView>, variant: ProductVariantId) -> int {
    variant_position_from(items, variant, 0)
}

/// The first line of `items`, from position `i` on, with id `item_id`; -1 if none.
pub open spec fn item_position_from(items: Seq<CartItemView>, item_id: CartItemId, i: int) -> int
    decreases items.len() - i,
{
    if i < 0 || i >= items.len() {
        -1
    } else if items[i].id == item_id {
        i
    } else {
        item_position_from(items, item_id, i + 1)
    }
}

/// The first line of `items` with id `item_id`; -1 if none.
pub open spec fn item_position(items: Seq<CartItemView>, item_id: CartItemId) -> int {
    item_position_from(items, item_id, 0)
}

/// Every line holds at least one unit, and no variant has two lines.
pub open spec fn cart_lines_wf(items: Seq<CartItemView>) -> bool {
    &&& forall|i: int| 0 <= i < items.len() ==> #[trigger] items[i].quantity > 0
    &&& variants_distinct(items)
}

/// No variant has two lines.
pub open spec fn variants_distinct(items: Seq<CartItemView>) -> bool {
    forall|i: int, j: int| 0 <= i < j < items.len() ==> items[i].variant_id != items[j].variant_id
}

proof fn lemma_position_from(items: Seq<CartItemView>, variant: ProductVariantId, i: int)
    requires
        0 <= i <= items.len(),
    ensures
        ({
            let k = variant_position_from(items, variant, i);
            &&& -1 <= k < items.len()
            &&& k >= 0 ==> i <= k && items[k].variant_id == variant
            &&& k >= 0 ==> forall|j: int| i <= j < k ==> items[j].variant_id != variant
            &&& k < 0 ==> forall|j: int| i <= j < items.len() ==> items[j].variant_id != variant
        }),
    decreases items.len() - i,
{
    if i < items.len() && items[i].variant_id != variant {
        lemma_position_from(items, variant, i + 1);
    }
}

proof fn lemma_item_position_from(items: Seq<CartItemView>, item_id: CartItemId, i: int)
    requires
        0 <= i <= items.len(),
    ensures
        ({
            let k = item_position_from(items, item_id, i);
            &&& -1 <= k < items.len()
            &&& k >= 0 ==> i <= k && items[k].id == item_id
            &&& k >= 0 ==> forall|j: int| i <= j < k ==> items[j].id != item_id
            &&& k < 0 ==> forall|j: int| i <= j < items.len() ==> items[j].id != item_id
        }),
    decreases items.len() - i,
{
    if i < items.len() && items[i].id != item_id {
        lemma_item_position_from(items, item_id, i + 1);
    }
}

/// `variant_position` is the first line that holds `variant`.
pub proof fn lemma_variant_position(items: Seq<CartItemView>, variant: ProductVariantId)
    ensures
        ({
            let k = variant_position(items, variant);
            &&& -1 <= k < items.len()
            &&& k >= 0 ==> items[k].variant_id == variant
            &&& k >= 0 ==> forall|j: int| 0 <= j < k ==> items[j].variant_id != variant
            &&& k < 0 ==> forall|j: int| 0 <= j < items.len() ==> items[j].variant_id != variant
        }),
{
    lemma_position_from(items, variant, 0);
}

/// `item_position` is the first line with id `item_id`.
pub proof fn lemma_item_position(items: Seq<CartItemView>, item_id: CartItemId)
    ensures
        ({
            let k = item_position(items, item_id);
            &&& -1 <= k < items.len()
            &&& k >= 0 ==> items[k].id == item_id
            &&& k >= 0 ==> forall|j: int| 0 <= j < k ==> items[j].id != item_id
            &&& k < 0 ==> forall|j: int| 0 <= j < items.len() ==> items[j].id != item_id
        }),
{
    lemma_item_position_from(items, item_id, 0);
}

/// Whether a line is not line `item_id`.
pub open spec fn lines_other_than(item_id: CartItemId) -> spec_fn(CartItemView) -> bool {
    |line: CartItemView| line.id != item_id
}

/// The views of a list of cart lines.
pub open spec fn lines_view(lines: Seq<CartItem>) -> Seq<CartItemView> {
    lines.map_values(|item: CartItem| item@)
}

impl View for Cart {
    type V = CartView;

    closed spec fn view(&self) -> CartView {
        CartView {
            id: self.id,
            owner_id: self.owner_id,
            items: lines_view(self.items@),
        }
    }
}

impl Clone for Cart {
    fn clone(&self) -> (r: Self)
        ensures
            r@ == self@,
    {
        let mut items: Vec<CartItem> = Vec::new();
        let mut i: usize = 0;
        while i < self.items.len()
            invariant
                i <= self.items@.len(),
                items@.len() == i,
                forall|j: int| 0 <= j < i ==> #[trigger] items@[j]@ == self.items@[j]@,
            decreases self.items@.len() - i,
        {
            items.push(self.items[i].clone());
            i = i + 1;
        }
        let r = Cart { id: self.id, owner_id: self.owner_id, items };
        assert(r@.items =~= self@.items);
        r
    }
}

impl Cart {
    /// An empty cart of `owner_id`.
    pub fn new(owner_id: UserId) -> (r: Cart)
        ensures
            r@.owner_id == owner_id,
            r@.items == Seq::<CartItemView>::empty(),
    {
        let r = Cart { id: CartId::new(), owner_id, items: Vec::new() };
        assert(r@.items =~= Seq::<CartItemView>::empty());
        r
    }

    pub fn id(&self) -> (r: CartId)
        ensures
            r == self@.id,
    {
        self.id
    }

    pub fn owner_id(&self) -> (r: UserId)
        ensures
            r == self@.owner_id,
    {
        self.owner_id
    }

    pub fn items(&self) -> (r: &[CartItem])
        ensures
            lines_view(r@) == self@.items,
    {
        self.items.as_slice()
    }

    /// Adds a line. A second request for a variant already in the cart merges
    /// into its line, as long as the price snapshot has not changed.
    pub fn add_item(&mut self, item: AddCartItem) -> (r: Result<CartItem, CartError>)
        ensures
            add_item_result(old(self)@.items, item@) matches Err(e) ==> r == Err::<CartItem, CartError>(e),
            add_item_result(old(self)@.items, item@) is Ok ==> (r matches Ok(line) && added_line(
                old(self)@.items,
                item@,
                line@,
            ) && final(self)@.items == lines_after_add(old(self)@.items, item@, line@)),
            r is Err ==> final(self)@ == old(self)@,
            final(self)@.id == old(self)@.id,
            final(self)@.owner_id == old(self)@.owner_id,
            cart_lines_wf(old(self)@.items) ==> cart_lines_wf(final(self)@.items),
            variants_distinct(old(self)@.items) ==> variants_distinct(final(self)@.items),
    {
        proof {
            lemma_variant_position(self@.items, item.variant_id);
        }
        if item.quantity == 0 {
            return Err(CartError::InvalidQuantity);
        }
        let mut i: usize = 0;
        while i < self.items.len()
            invariant
                *self == *old(self),
                item.quantity > 0,
                i <= self.items@.len(),
                forall|j: int| 0 <= j < i ==> self.items@[j]@.variant_id != item.variant_id,
            decreases self.items@.len() - i,
        {
            if self.items[i].variant_id == item.variant_id {
                proof {
                    lemma_variant_position(self@.items, item.variant_id);
                    assert(self@.items[i as int].variant_id == item.variant_id);
                    let k = variant_position(self@.items, item.variant_id);
                    if k != i {
                        assert(self@.items[k] == self.items@[k]@);
                    }
                }
                if self.items[i].unit_price != item.unit_price {
                    return Err(CartError::PriceSnapshotChanged);
                }
                let quantity = match self.items[i].quantity.checked_add(item.quantity) {
                    Some(q) => q,
                    None => return Err(CartError::QuantityOverflow),
                };
                let mut line = self.items[i].clone();
                line.quantity = quantity;
                let result = line.clone();
                let ghost before = self@.items;
                self.items.set(i, line);
                proof {
                    assert(self@.items =~= before.update(i as int, result@));
                }
                return Ok(result);
            }
            i = i + 1;
        }
        let title = item.title.as_str().trim().to_owned();
        if title.as_str().is_empty() {
            return Err(CartError::BlankTitle);
        }
        let line = CartItem {
            id: CartItemId::new(),
            product_id: item.product_id,
            variant_id: item.variant_id,
            title,
            unit_price: item.unit_price,
            quantity: item.quantity,
            source: item.source,
            fulfillment_type: item.fulfillment_type,
        };
        let result = line.clone();
        let ghost before = self@.items;
        self.items.push(line);
        proof {
            assert(self@.items =~= before.push(result@));
        }
        Ok(result)
    }

    /// Sets the quantity of line `item_id`.
    pub fn update_quantity(&mut self, item_id: CartItemId, quantity: u64) -> (r: Result<
        (),
        CartError,
    >)
        ensures
            ({
                let before = old(self)@.items;
                let k = item_position(before, item_id);
                if quantity == 0 {
                    r == Err::<(), CartError>(CartError::InvalidQuantity)
                } else if k < 0 {
                    r == Err::<(), CartError>(CartError::ItemNotFound)
                } else {
                    &&& r is Ok
                    &&& final(self)@.items == before.update(k, CartItemView { quantity, ..before[k] })
                }
            }),
            r is Err ==> final(self)@ == old(self)@,
            final(self)@.id == old(self)@.id,
            final(self)@.owner_id == old(self)@.owner_id,
            cart_lines_wf(old(self)@.items) ==> cart_lines_wf(final(self)@.items),
            variants_distinct(old(self)@.items) ==> variants_distinct(final(self)@.items),
    {
        proof {
            lemma_item_position(self@.items, item_id);
        }
        if quantity == 0 {
            return Err(CartError::InvalidQuantity);
        }
        let mut i: usize = 0;
        while i < self.items.len()
            invariant
                *self == *old(self),
                quantity > 0,
                i <= self.items@.len(),
                forall|j: int| 0 <= j < i ==> self.items@[j]@.id != item_id,
            decreases self.items@.len() - i,
        {
            if self.items[i].id == item_id {
                proof {
                    lemma_item_position(self@.items, item_id);
                    assert(self@.items[i as int].id == item_id);
                    let k = item_position(self@.items, item_id);
                    if k != i {
                        assert(self@.items[k] == self.items@[k]@);
                    }
                }
                let mut line = self.items[i].clone();
                line.quantity = quantity;
                let ghost before = self@.items;
                let ghost updated = line@;
                self.items.set(i, line);
                proof {
                    assert(self@.items =~= before.update(i as int, updated));
                }
                return Ok(());
            }
            i = i + 1;
        }
        Err(CartError::ItemNotFound)
    }

    /// Removes every line with id `item_id`; says whether there was one.
    pub fn remove_item(&mut self, item_id: CartItemId) -> (r: bool)
        ensures
            final(self)@.items == old(self)@.items.filter(lines_other_than(item_id)),
            r == (exists|j: int| 0 <= j < old(self)@.items.len() && old(self)@.items[j].id == item_id),
            final(self)@.id == old(self)@.id,
            final(self)@.owner_id == old(self)@.owner_id,
            cart_lines_wf(old(self)@.items) ==> cart_lines_wf(final(self)@.items),
            variants_distinct(old(self)@.items) ==> variants_distinct(final(self)@.items),
    {
        let ghost before = self@.items;
        let ghost keep = lines_other_than(item_id);
        let mut kept: Vec<CartItem> = Vec::new();
        let mut removed = false;
        let mut i: usize = 0;
        while i < self.items.len()
            invariant
                *self == *old(self),
                keep == lines_other_than(item_id),
                before == self@.items,
                i <= self.items@.len(),
                lines_view(kept@) == before.take(i as int).filter(keep),
                removed == (exists|j: int| 0 <= j < i && before[j].id == item_id),
            decreases self.items@.len() - i,
        {
            proof {
                assert(before.take(i + 1).drop_last() =~= before.take(i as int));
                assert(before.take(i + 1).last() == before[i as int]);
                assert(before[i as int] == self.items@[i as int]@);
                reveal(Seq::filter);
                if keep(before[i as int]) {
                    assert(before.take(i + 1).filter(keep) == before.take(i as int).filter(
                        keep,
                    ).push(before[i as int]));
                } else {
                    assert(before.take(i + 1).filter(keep) == before.take(i as int).filter(
                        keep,
                    ));
                }
            }
            if self.items[i].id != item_id {
                let ghost prior = kept@;
                kept.push(self.items[i].clone());
                proof {
                    assert(lines_view(kept@) =~= lines_view(prior).push(before[i as int]));
                    assert(lines_view(kept@) == before.take(i + 1).filter(keep));
                }
            } else {
                removed = true;
                assert(lines_view(kept@) == before.take(i + 1).filter(keep));
            }
            i = i + 1;
            proof {
                if before[i - 1].id == item_id {
                    assert(0 <= i - 1 < i && before[i - 1].id == item_id);
                }
            }
        }
        proof {
            assert(before.take(i as int) =~= before);
            lemma_filter_keeps_wf(before, item_id);
        }
        self.items = kept;
        removed
    }
}

/// Dropping lines keeps the line rules.
proof fn lemma_filter_keeps_wf(items: Seq<CartItemView>, item_id: CartItemId)
    ensures
        cart_lines_wf(items) ==> cart_lines_wf(items.filter(lines_other_than(item_id))),
        variants_distinct(items) ==> variants_distinct(items.filter(lines_other_than(item_id))),
    decreases items.len(),
{
    let keep = lines_other_than(item_id);
    reveal(Seq::filter);
    if items.len() > 0 {
        lemma_filter_keeps_wf(items.drop_last(), item_id);
        let rest = items.drop_last();
        let fr = rest.filter(keep);
        if keep(items.last()) {
            let f = items.filter(keep);
            assert(f =~= fr.push(items.last()));
            if variants_distinct(items) {
                assert(variants_distinct(rest));
                assert forall|j: int| 0 <= j < fr.len() implies fr[j].variant_id
                    != items.last().variant_id by {
                    assert(fr.contains(fr[j]));
                    rest.lemma_filter_contains_rev(keep, fr[j]);
                    let i = choose|i: int| 0 <= i < rest.len() && rest[i] == fr[j];
                    assert(items[i] == rest[i]);
                }
            }
            if cart_lines_wf(items) {
                assert(cart_lines_wf(rest));
            }
        } else {
            if cart_lines_wf(items) {
                assert(cart_lines_wf(rest));
            }
            if variants_distinct(items) {
                assert(variants_distinct(rest));
            }
        }
    }
}

/// The text that describes each error.
pub open spec fn cart_error_message(e: CartError) -> Seq<char> {
    match e {
        CartError::InvalidQuantity => "cart item quantity must be greater than zero"@,
        CartError::BlankTitle => "cart item title cannot be blank"@,
        CartError::PriceSnapshotChanged => "cart item price snapshot changed"@,
        CartError::QuantityOverflow => "cart item quantity overflowed"@,
        CartError::ItemNotFound => "cart item was not found"@,
    }
}

impl CartError {
    pub fn message(&self) -> (r: String)
        ensures
            r@ == cart_error_message(*self),
    {
        match self {
            CartError::InvalidQuantity => copy_str("cart item quantity must be greater than zero"),
            CartError::BlankTitle => copy_str("cart item title cannot be blank"),
            CartError::PriceSnapshotChanged => copy_str("cart item price snapshot changed"),
            CartError::QuantityOverflow => copy_str("cart item quantity overflowed"),
            CartError::ItemNotFound => copy_str("cart item was not found"),
        }
    }
}

} // verus!
