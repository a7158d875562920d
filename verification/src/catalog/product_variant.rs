//! Purchasable variants of a product, each with its own SKU and price.

use vstd::prelude::*;

use crate::ids::{ProductId, ProductVariantId};
use crate::money::Money;
use crate::text::trim_ws;

verus! {

#[derive(Debug, PartialEq, Eq)]
pub struct ProductVariant {
    id: ProductVariantId,
    product_id: ProductId,
    sku: String,
    price: Money,
}

pub struct ProductVariantView {
    pub id: ProductVariantId,
    pub product_id: ProductId,
    pub sku: Seq<char>,
    pub price: Money,
}

#[derive(Clone, Copy, Debug, PartialEq, Eq, Structural)]
pub enum ProductVariantError {
    BlankSku,
}

impl View for ProductVariant {
    type V = ProductVariantView;

    closed spec fn view(&self) -> ProductVariantView {
        ProductVariantView {
            id: self.id,
            product_id: self.product_id,
            sku: self.sku@,
            price: self.price,
        }
    }
}

impl Clone for ProductVariant {
    fn clone(&self) -> (r: Self)
        ensures
            r@ == self@,
    {
        ProductVariant {
            id: self.id,
            product_id: self.product_id,
            sku: self.sku.clone(),
            price: self.price,
        }
    }
}

impl ProductVariant {
    /// A variant with the trimmed SKU; a SKU that is blank once trimmed is refused.
    pub fn new(product_id: ProductId, sku: String, price: Money) -> (r: Result<
        ProductVariant,
        ProductVariantError,
    >)
        ensures
            r is Err <==> trim_ws(sku@).len() == 0,
            r is Err ==> r == Err::<ProductVariant, ProductVariantError>(
                ProductVariantError::BlankSku,
            ),
            r matches Ok(v) ==> v@.product_id == product_id && v@.sku == trim_ws(sku@)
                && v@.price == price,
    {
        let sku = sku.as_str().trim().to_owned();
        if sku.as_str().is_empty() {
            return Err(ProductVariantError::BlankSku);
        }
        Ok(ProductVariant { id: ProductVariantId::new(), product_id, sku, price })
    }

    pub fn id(&self) -> (r: ProductVariantId)
        ensures
            r == self@.id,
    {
        self.id
    }

    pub fn product_id(&self) -> (r: ProductId)
        ensures
            r == self@.product_id,
    {
        self.product_id
    }

    pub fn sku(&self) -> (r: &str)
        ensures
            r@ == self@.sku,
    {
        self.sku.as_str()
    }

    pub fn price(&self) -> (r: &Money)
        ensures
            *r == self@.price,
    {
        &self.price
    }
}

} // verus!
