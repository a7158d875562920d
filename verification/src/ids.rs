//! Identifiers of the marketplace entities: 128-bit values drawn at random.

use vstd::prelude::*;

verus! {

/// Whether `value` is a random (version 4, RFC 4122 variant) identifier:
/// its version field, bits 76 to 79, holds 4, and its variant field, bits 62
/// and 63, holds binary 10; the other 122 bits are free.
pub open spec fn is_random_id(value: u128) -> bool {
    value & 0xF000_C000_0000_0000_0000u128 == 0x4000_8000_0000_0000_0000u128
}

/// `uuid::Uuid::new_v4` as a 128-bit integer: a fresh random identifier.
/// Claimed: its version and variant bits are those of a random identifier,
/// which `new_v4` sets on every value it draws. The other bits are random
/// and nothing is claimed of them.
#[verifier::external_body]
fn random_id_value() -> (r: u128)
    ensures
        is_random_id(r),
{
    uuid::Uuid::new_v4().as_u128()
}

/// A fresh random request id.
pub fn new_request_id() -> (r: u128)
    ensures
        is_random_id(r),
{
    random_id_value()
}

/// A hexadecimal digit in lower case.
pub open spec fn hex_char(d: int) -> char {
    if d < 10 {
        (('0' as u32) + d as u32) as char
    } else {
        (('a' as u32) + (d - 10) as u32) as char
    }
}

/// The 32 hexadecimal digits of `value`, most significant first.
pub open spec fn hex_digits(value: u128) -> Seq<char> {
    Seq::new(
        32,
        |i: int| hex_char((value as int / vstd::arithmetic::power::pow(16, (31 - i) as nat)) % 16),
    )
}

/// The hyphenated lower-case form of an identifier: its 32 hexadecimal
/// digits in groups of 8, 4, 4, 4 and 12.
pub open spec fn uuid_text(value: u128) -> Seq<char> {
    let h = hex_digits(value);
    h.subrange(0, 8) + seq!['-'] + h.subrange(8, 12) + seq!['-'] + h.subrange(12, 16) + seq!['-']
        + h.subrange(16, 20) + seq!['-'] + h.subrange(20, 32)
}

/// `uuid::Uuid::from_u128(value).to_string()`: the hyphenated text of an identifier.
#[verifier::external_body]
pub(crate) fn id_text(value: u128) -> (r: String)
    ensures
        r@ == uuid_text(value),
{
    uuid::Uuid::from_u128(value).to_string()
}

/// Identifier of a product.
#[derive(Clone, Copy, Debug, PartialEq, Eq, Hash, Structural)]
pub struct ProductId {
    pub value: u128,
}

impl ProductId {
    /// A fresh random identifier.
    pub fn new() -> (r: Self)
        ensures
            is_random_id(r.value),
    {
        ProductId { value: random_id_value() }
    }

    pub fn from_u128(value: u128) -> (r: Self)
        ensures
            r.value == value,
    {
        ProductId { value }
    }

    pub fn as_u128(&self) -> (r: u128)
        ensures
            r == self.value,
    {
        self.value
    }
}

/// Identifier of a product variant.
#[derive(Clone, Copy, Debug, PartialEq, Eq, Hash, Structural)]
pub struct ProductVariantId {
    pub value: u128,
}

impl ProductVariantId {
    /// A fresh random identifier.
    pub fn new() -> (r: Self)
        ensures
            is_random_id(r.value),
    {
        ProductVariantId { value: random_id_value() }
    }

    pub fn from_u128(value: u128) -> (r: Self)
        ensures
            r.value == value,
    {
        ProductVariantId { value }
    }

    pub fn as_u128(&self) -> (r: u128)
        ensures
            r == self.value,
    {
        self.value
    }
}

/// Identifier of a seller.
#[derive(Clone, Copy, Debug, PartialEq, Eq, Hash, Structural)]
pub struct SellerId {
    pub value: u128,
}

impl SellerId {
    /// A fresh random identifier.
    pub fn new() -> (r: Self)
        ensures
            is_random_id(r.value),
    {
        SellerId { value: random_id_value() }
    }

    pub fn from_u128(value: u128) -> (r: Self)
        ensures
            r.value == value,
    {
        SellerId { value }
    }

    pub fn as_u128(&self) -> (r: u128)
        ensures
            r == self.value,
    {
        self.value
    }
}

/// Identifier of a user.
#[derive(Clone, Copy, Debug, PartialEq, Eq, Hash, Structural)]
pub struct UserId {
    pub value: u128,
}

impl UserId {
    /// A fresh random identifier.
    pub fn new() -> (r: Self)
        ensures
            is_random_id(r.value),
    {
        UserId { value: random_id_value() }
    }

    pub fn from_u128(value: u128) -> (r: Self)
        ensures
            r.value == value,
    {
        UserId { value }
    }

    pub fn as_u128(&self) -> (r: u128)
        ensures
            r == self.value,
    {
        self.value
    }
}

/// Identifier of a cart.
#[derive(Clone, Copy, Debug, PartialEq, Eq, Hash, Structural)]
pub struct CartId {
    pub value: u128,
}

impl CartId {
    /// A fresh random identifier.
    pub fn new() -> (r: Self)
        ensures
            is_random_id(r.value),
    {
        CartId { value: random_id_value() }
    }

    pub fn from_u128(value: u128) -> (r: Self)
        ensures
            r.value == value,
    {
        CartId { value }
    }

    pub fn as_u128(&self) -> (r: u128)
        ensures
            r == self.value,
    {
        self.value
    }
}

/// Identifier of a line of a cart.
#[derive(Clone, Copy, Debug, PartialEq, Eq, Hash, Structural)]
pub struct CartItemId {
    pub value: u128,
}

impl CartItemId {
    /// A fresh random identifier.
    pub fn new() -> (r: Self)
        ensures
            is_random_id(r.value),
    {
        CartItemId { value: random_id_value() }
    }

    pub fn from_u128(value: u128) -> (r: Self)
        ensures
            r.value == value,
    {
        CartItemId { value }
    }

    pub fn as_u128(&self) -> (r: u128)
        ensures
            r == self.value,
    {
        self.value
    }
}

/// Identifier of a stock reservation.
#[derive(Clone, Copy, Debug, PartialEq, Eq, Hash, Structural)]
pub struct StockReservationId {
    pub value: u128,
}

impl StockReservationId {
    /// A fresh random identifier.
    pub fn new() -> (r: Self)
        ensures
            is_random_id(r.value),
    {
        StockReservationId { value: random_id_value() }
    }

    pub fn from_u128(value: u128) -> (r: Self)
        ensures
            r.value == value,
    {
        StockReservationId { value }
    }

    pub fn as_u128(&self) -> (r: u128)
        ensures
            r == self.value,
    {
        self.value
    }
}

/// Identifier of an AI authorization grant.
#[derive(Clone, Copy, Debug, PartialEq, Eq, Hash, Structural)]
pub struct AiAuthorizationId {
    pub value: u128,
}

impl AiAuthorizationId {
    /// A fresh random identifier.
    pub fn new() -> (r: Self)
        ensures
            is_random_id(r.value),
    {
        AiAuthorizationId { value: random_id_value() }
    }

    pub fn from_u128(value: u128) -> (r: Self)
        ensures
            r.value == value,
    {
        AiAuthorizationId { value }
    }

    pub fn as_u128(&self) -> (r: u128)
        ensures
            r == self.value,
    {
        self.value
    }
}

/// Identifier of an audited AI action.
#[derive(Clone, Copy, Debug, PartialEq, Eq, Hash, Structural)]
pub struct AiActionId {
    pub value: u128,
}

impl AiActionId {
    /// A fresh random identifier.
    pub fn new() -> (r: Self)
        ensures
            is_random_id(r.value),
    {
        AiActionId { value: random_id_value() }
    }

    pub fn from_u128(value: u128) -> (r: Self)
        ensures
            r.value == value,
    {
        AiActionId { value }
    }

    pub fn as_u128(&self) -> (r: u128)
        ensures
            r == self.value,
    {
        self.value
    }
}

/// Identifier of an order.
#[derive(Clone, Copy, Debug, PartialEq, Eq, Hash, Structural)]
pub struct OrderId {
    pub value: u128,
}

impl OrderId {
    /// A fresh random identifier.
    pub fn new() -> (r: Self)
        ensures
            is_random_id(r.value),
    {
        OrderId { value: random_id_value() }
    }

    pub fn from_u128(value: u128) -> (r: Self)
        ensures
            r.value == value,
    {
        OrderId { value }
    }

    pub fn as_u128(&self) -> (r: u128)
        ensures
            r == self.value,
    {
        self.value
    }
}

/// Identifier of a seller's store.
#[derive(Clone, Copy, Debug, PartialEq, Eq, Hash, Structural)]
pub struct StoreId {
    pub value: u128,
}

impl StoreId {
    /// A fresh random identifier.
    pub fn new() -> (r: Self)
        ensures
            is_random_id(r.value),
    {
        StoreId { value: random_id_value() }
    }

    pub fn from_u128(value: u128) -> (r: Self)
        ensures
            r.value == value,
    {
        StoreId { value }
    }

    pub fn as_u128(&self) -> (r: u128)
        ensures
            r == self.value,
    {
        self.value
    }
}

} // verus!
