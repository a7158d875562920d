//! Products of the catalog and the review life cycle that gates their sale.

use vstd::prelude::*;

use crate::ids::{ProductId, SellerId};
use crate::money::Money;
use crate::text::trim_ws;

use crate::text::copy_str;
verus! {

/// How an order line is delivered.
#[derive(Clone, Copy, Debug, PartialEq, Eq, Structural)]
pub enum FulfillmentType {
    Digital,
    PhysicalStandard,
}

/// The kind of a product is the way it is fulfilled.
pub type ProductType = FulfillmentType;

#[derive(Clone, Copy, Debug, PartialEq, Eq, Structural)]
pub enum ProductStatus {
    Draft,
    PendingReview,
    Published,
    Suspended,
    Archived,
}

#[derive(Clone, Copy, Debug, PartialEq, Eq, Structural)]
pub enum ProductError {
    BlankTitle,
    BlankDescription,
    InvalidStatusTransition,
}

/// The moves of the review life cycle: submitting a draft, publishing a
/// reviewed product, suspending a listed or reviewed one, and sending a
/// suspended one back to review.
pub open spec fn status_step(from: ProductStatus, to: ProductStatus) -> bool {
    ||| from == ProductStatus::Draft && to == ProductStatus::PendingReview
    ||| from == ProductStatus::PendingReview && to == ProductStatus::Published
    ||| (from == ProductStatus::Published || from == ProductStatus::PendingReview) && to
        == ProductStatus::Suspended
    ||| from == ProductStatus::Suspended && to == ProductStatus::PendingReview
}

#[derive(Debug, PartialEq, Eq)]
pub struct Product {
    id: ProductId,
    seller_id: SellerId,
    title: String,
    description: String,
    product_type: ProductType,
    price: Money,
    status: ProductStatus,
}

pub struct ProductView {
    pub id: ProductId,
    pub seller_id: SellerId,
    pub title: Seq<char>,
    pub description: Seq<char>,
    pub product_type: ProductType,
    pub price: Money,
    pub status: ProductStatus,
}

impl View for Product {
    type V = ProductView;

    closed spec fn view(&self) -> ProductView {
        ProductView {
            id: self.id,
            seller_id: self.seller_id,
            title: self.title@,
            description: self.description@,
            product_type: self.product_type,
            price: self.price,
            status: self.status,
        }
    }
}

impl Clone for Product {
    fn clone(&self) -> (r: Self)
        ensures
            r@ == self@,
    {
        Product {
            id: self.id,
            seller_id: self.seller_id,
            title: self.title.clone(),
            description: self.description.clone(),
            product_type: self.product_type,
            price: self.price,
            status: self.status,
        }
    }
}

impl Product {
    /// A draft product with the trimmed title and description; a title or
    /// description that is blank once trimmed is refused, the title first.
    pub fn new(
        seller_id: SellerId,
        title: String,
        description: String,
        product_type: ProductType,
        price: Money,
    ) -> (r: Result<Product, ProductError>)
        ensures
            trim_ws(title@).len() == 0 ==> r == Err::<Product, ProductError>(
                ProductError::BlankTitle,
            ),
            trim_ws(title@).len() > 0 && trim_ws(description@).len() == 0 ==> r == Err::<
                Product,
                ProductError,
            >(ProductError::BlankDescription),
            trim_ws(title@).len() > 0 && trim_ws(description@).len() > 0 ==> r is Ok,
            r matches Ok(p) ==> {
                &&& p@.seller_id == seller_id
                &&& p@.title == trim_ws(title@)
                &&& p@.description == trim_ws(description@)
                &&& p@.product_type == product_type
                &&& p@.price == price
                &&& p@.status == ProductStatus::Draft
            },
    {
        let title = title.as_str().trim().to_owned();
        if title.as_str().is_empty() {
            return Err(ProductError::BlankTitle);
        }
        let description = description.as_str().trim().to_owned();
        if description.as_str().is_empty() {
            return Err(ProductError::BlankDescription);
        }
        Ok(Product {
            id: ProductId::new(),
            seller_id,
            title,
            description,
            product_type,
            price,
            status: ProductStatus::Draft,
        })
    }

    pub fn id(&self) -> (r: ProductId)
        ensures
            r == self@.id,
    {
        self.id
    }

    pub fn seller_id(&self) -> (r: SellerId)
        ensures
            r == self@.seller_id,
    {
        self.seller_id
    }

    pub fn title(&self) -> (r: &str)
        ensures
            r@ == self@.title,
    {
        self.title.as_str()
    }

    pub fn description(&self) -> (r: &str)
        ensures
            r@ == self@.description,
    {
        self.description.as_str()
    }

    pub fn product_type(&self) -> (r: ProductType)
        ensures
            r == self@.product_type,
    {
        self.product_type
    }

    pub fn price(&self) -> (r: &Money)
        ensures
            *r == self@.price,
    {
        &self.price
    }

    pub fn status(&self) -> (r: ProductStatus)
        ensures
            r == self@.status,
    {
        self.status
    }

    /// Only a published product is shown to buyers.
    pub fn is_publicly_visible(&self) -> (r: bool)
        ensures
            r == (self@.status == ProductStatus::Published),
    {
        matches!(self.status, ProductStatus::Published)
    }

    /// Only a published product can be put in a cart.
    pub fn can_be_added_to_cart(&self) -> (r: bool)
        ensures
            r == (self@.status == ProductStatus::Published),
    {
        matches!(self.status, ProductStatus::Published)
    }

    /// Moves a draft into review.
    pub fn submit_for_review(&mut self) -> (r: Result<(), ProductError>)
        ensures
            r is Ok <==> old(self)@.status == ProductStatus::Draft,
            r is Err ==> r == Err::<(), ProductError>(ProductError::InvalidStatusTransition)
                && final(self)@ == old(self)@,
            r is Ok ==> final(self)@ == (ProductView {
                status: ProductStatus::PendingReview,
                ..old(self)@
            }),
    {
        if self.status != ProductStatus::Draft {
            return Err(ProductError::InvalidStatusTransition);
        }
        self.status = ProductStatus::PendingReview;
        Ok(())
    }

    /// Publishes a product that is in review.
    pub fn publish(&mut self) -> (r: Result<(), ProductError>)
        ensures
            r is Ok <==> old(self)@.status == ProductStatus::PendingReview,
            r is Err ==> r == Err::<(), ProductError>(ProductError::InvalidStatusTransition)
                && final(self)@ == old(self)@,
            r is Ok ==> final(self)@ == (ProductView {
                status: ProductStatus::Published,
                ..old(self)@
            }),
    {
        if self.status != ProductStatus::PendingReview {
            return Err(ProductError::InvalidStatusTransition);
        }
        self.status = ProductStatus::Published;
        Ok(())
    }

    /// Suspends a product that is published or in review.
    pub fn suspend(&mut self) -> (r: Result<(), ProductError>)
        ensures
            r is Ok <==> (old(self)@.status == ProductStatus::Published || old(self)@.status
                == ProductStatus::PendingReview),
            r is Err ==> r == Err::<(), ProductError>(ProductError::InvalidStatusTransition)
                && final(self)@ == old(self)@,
            r is Ok ==> final(self)@ == (ProductView {
                status: ProductStatus::Suspended,
                ..old(self)@
            }),
    {
        if !matches!(self.status, ProductStatus::Published | ProductStatus::PendingReview) {
            return Err(ProductError::InvalidStatusTransition);
        }
        self.status = ProductStatus::Suspended;
        Ok(())
    }

    /// Sends a suspended product back to review.
    pub fn return_to_review(&mut self) -> (r: Result<(), ProductError>)
        ensures
            r is Ok <==> old(self)@.status == ProductStatus::Suspended,
            r is Err ==> r == Err::<(), ProductError>(ProductError::InvalidStatusTransition)
                && final(self)@ == old(self)@,
            r is Ok ==> final(self)@ == (ProductView {
                status: ProductStatus::PendingReview,
                ..old(self)@
            }),
    {
        if self.status != ProductStatus::Suspended {
            return Err(ProductError::InvalidStatusTransition);
        }
        self.status = ProductStatus::PendingReview;
        Ok(())
    }
}

/// Every status change that the four life-cycle operations make is a step of
/// the review life cycle: a product reaches `Published` only from review, and
/// nothing leaves `Archived` or goes back to `Draft`.
pub proof fn lemma_status_steps(from: ProductStatus, to: ProductStatus)
    requires
        status_step(from, to),
    ensures
        to == ProductStatus::Published ==> from == ProductStatus::PendingReview,
        from != ProductStatus::Archived,
        to != ProductStatus::Draft,
        to != ProductStatus::Archived,
{
}

/// The text that describes each error.
pub open spec fn product_error_message(e: ProductError) -> Seq<char> {
    match e {
        ProductError::BlankTitle => "product title cannot be blank"@,
        ProductError::BlankDescription => "product description cannot be blank"@,
        ProductError::InvalidStatusTransition => "product status transition is invalid"@,
    }
}

impl ProductError {
    pub fn message(&self) -> (r: String)
        ensures
            r@ == product_error_message(*self),
    {
        match self {
            ProductError::BlankTitle => copy_str("product title cannot be blank"),
            ProductError::BlankDescription => copy_str("product description cannot be blank"),
            ProductError::InvalidStatusTransition => copy_str("product status transition is invalid"),
        }
    }
}

} // verus!
