use market_bot::cart::cart::{AddCartItem, Cart, CartError, CartItemSource};
use market_bot::cart::repository::InMemoryCartRepository;
use market_bot::cart::service::{CartService, CartServiceError};
use market_bot::catalog::product::{FulfillmentType, Product};
use market_bot::ids::{CartId, CartItemId, ProductId, ProductVariantId, SellerId, UserId};
use market_bot::money::{CurrencyCode, Money};

fn price(minor: i64) -> Money {
    Money::new(minor, CurrencyCode::parse("USD").expect("USD should be valid")).expect("price should be valid")
}

fn item(source: CartItemSource, quantity: u64) -> AddCartItem {
    AddCartItem {
        product_id: ProductId::new(),
        variant_id: ProductVariantId::new(),
        title: "Portable Lamp".to_owned(),
        unit_price: price(1_250),
        quantity,
        source,
        fulfillment_type: FulfillmentType::PhysicalStandard,
    }
}

#[test]
fn should_add_an_item_and_preserve_its_source() {
    let mut cart = Cart::new(UserId::new());

    let cart_item = cart
        .add_item(item(CartItemSource::Ai, 2))
        .expect("valid item should be added");

    assert_eq!(cart.items().len(), 1);
    assert_eq!(cart_item.quantity(), 2);
    assert_eq!(cart_item.source(), CartItemSource::Ai);
    assert_eq!(cart_item.id(), CartItemId::from_u128(cart_item.id().as_u128()));
}

#[test]
fn should_merge_repeated_items_for_the_same_variant() {
    let variant_id = ProductVariantId::new();
    let mut cart = Cart::new(UserId::new());
    let mut first = item(CartItemSource::User, 1);
    first.variant_id = variant_id;
    let mut second = item(CartItemSource::Ai, 2);
    second.variant_id = variant_id;

    cart.add_item(first).expect("first item should be added");
    cart.add_item(second).expect("same variant should merge");

    assert_eq!(cart.items().len(), 1);
    assert_eq!(cart.items()[0].quantity(), 3);
}

#[test]
fn should_reject_zero_quantity() {
    let mut cart = Cart::new(UserId::new());

    assert_eq!(cart.add_item(item(CartItemSource::User, 0)), Err(CartError::InvalidQuantity));
}

#[test]
fn should_reject_price_changes_when_merging_an_item() {
    let variant_id = ProductVariantId::new();
    let mut cart = Cart::new(UserId::new());
    let mut first = item(CartItemSource::User, 1);
    first.variant_id = variant_id;
    let mut second = item(CartItemSource::User, 1);
    second.variant_id = variant_id;
    second.unit_price = price(1_500);

    cart.add_item(first).expect("first item should be added");

    assert_eq!(cart.add_item(second), Err(CartError::PriceSnapshotChanged));
}

#[test]
fn should_remove_an_item() {
    let mut cart = Cart::new(UserId::new());
    let cart_item = cart.add_item(item(CartItemSource::User, 1)).expect("item should be added");

    cart.remove_item(cart_item.id());

    assert!(cart.items().is_empty());
}

#[test]
fn merged_line_keeps_its_id_and_first_source() {
    let variant_id = ProductVariantId::new();
    let mut cart = Cart::new(UserId::new());
    let mut first = item(CartItemSource::User, 1);
    first.variant_id = variant_id;
    let mut second = item(CartItemSource::Ai, 4);
    second.variant_id = variant_id;

    let line = cart.add_item(first).expect("first item should be added");
    let merged = cart.add_item(second).expect("same variant should merge");

    assert_eq!(merged.id(), line.id());
    assert_eq!(merged.quantity(), 5);
    assert_eq!(merged.source(), CartItemSource::User);
}

#[test]
fn new_line_title_is_trimmed_and_blank_title_refused() {
    let mut cart = Cart::new(UserId::new());
    let mut padded = item(CartItemSource::User, 1);
    padded.title = "  Lamp \t".to_owned();
    let line = cart.add_item(padded).expect("padded title should be accepted");
    assert_eq!(line.title(), "Lamp");

    let mut blank = item(CartItemSource::User, 1);
    blank.title = "   ".to_owned();
    assert_eq!(cart.add_item(blank), Err(CartError::BlankTitle));
}

#[test]
fn merging_past_the_largest_quantity_is_refused() {
    let variant_id = ProductVariantId::new();
    let mut cart = Cart::new(UserId::new());
    let mut first = item(CartItemSource::User, u64::MAX);
    first.variant_id = variant_id;
    let mut second = item(CartItemSource::User, 1);
    second.variant_id = variant_id;

    cart.add_item(first).expect("first item should be added");
    assert_eq!(cart.add_item(second), Err(CartError::QuantityOverflow));
    assert_eq!(cart.items()[0].quantity(), u64::MAX);
}

#[test]
fn update_quantity_sets_and_refuses_zero_or_unknown_lines() {
    let mut cart = Cart::new(UserId::new());
    let line = cart.add_item(item(CartItemSource::User, 1)).expect("item should be added");

    assert_eq!(cart.update_quantity(line.id(), 7), Ok(()));
    assert_eq!(cart.items()[0].quantity(), 7);
    assert_eq!(cart.update_quantity(line.id(), 0), Err(CartError::InvalidQuantity));
    assert_eq!(cart.update_quantity(CartItemId::new(), 2), Err(CartError::ItemNotFound));
    assert_eq!(cart.items()[0].quantity(), 7);
}

#[test]
fn removing_an_unknown_line_reports_nothing_removed() {
    let mut cart = Cart::new(UserId::new());
    cart.add_item(item(CartItemSource::User, 1)).expect("item should be added");

    assert!(!cart.remove_item(CartItemId::new()));
    assert_eq!(cart.items().len(), 1);
}

fn service_item() -> AddCartItem {
    AddCartItem {
        product_id: ProductId::new(),
        variant_id: ProductVariantId::new(),
        title: "Portable Lamp".to_owned(),
        unit_price: price(1_250),
        quantity: 1,
        source: CartItemSource::Ai,
        fulfillment_type: FulfillmentType::PhysicalStandard,
    }
}

#[test]
fn should_create_a_cart_and_add_an_item_through_the_service() {
    let mut service = CartService::new(InMemoryCartRepository::default());
    let cart = service.create_cart(UserId::new()).expect("cart should be created");

    service.add_item(cart.id(), service_item()).expect("item should be added");
    let loaded = service.get_cart(cart.id()).expect("cart should be loaded").expect("cart should exist");

    assert_eq!(loaded.items().len(), 1);
}

#[test]
fn should_return_not_found_for_an_unknown_cart() {
    let mut service = CartService::new(InMemoryCartRepository::default());

    let result = service.add_item(CartId::new(), service_item());

    assert!(matches!(result, Err(CartServiceError::CartNotFound)));
}

fn published_product() -> Product {
    let mut product = Product::new(
        SellerId::new(),
        "Portable Lamp".to_owned(),
        "A physical lamp".to_owned(),
        FulfillmentType::PhysicalStandard,
        price(1_250),
    )
    .expect("product should be valid");
    product.submit_for_review().expect("draft should enter review");
    product.publish().expect("reviewed product should publish");
    product
}

fn item_for(product: &Product) -> AddCartItem {
    AddCartItem {
        product_id: product.id(),
        variant_id: ProductVariantId::new(),
        title: product.title().to_owned(),
        unit_price: price(1_250),
        quantity: 1,
        source: CartItemSource::User,
        fulfillment_type: FulfillmentType::PhysicalStandard,
    }
}

#[test]
fn should_reject_add_purchasable_item_using_product_status() {
    let mut service = CartService::new(InMemoryCartRepository::default());
    let cart = service.create_cart(UserId::new()).expect("cart should be created");
    let mut product = published_product();
    product.suspend().expect("published product should suspend");

    let result = service.add_purchasable_item(cart.id(), item_for(&product), &product);

    assert!(matches!(result, Err(CartServiceError::ProductNotPurchasable)));
}

#[test]
fn should_add_purchasable_item_when_product_is_published() {
    let mut service = CartService::new(InMemoryCartRepository::default());
    let cart = service.create_cart(UserId::new()).expect("cart should be created");
    let product = published_product();

    service
        .add_purchasable_item(cart.id(), item_for(&product), &product)
        .expect("published product should be added");
    let loaded = service.get_cart(cart.id()).expect("cart should be loaded").expect("cart should exist");

    assert_eq!(loaded.items().len(), 1);
}

#[test]
fn service_update_and_remove_report_unknown_carts_and_lines() {
    let mut service = CartService::new(InMemoryCartRepository::default());
    let cart = service.create_cart(UserId::new()).expect("cart should be created");
    let line = service.add_item(cart.id(), service_item()).expect("item should be added");

    assert!(service.update_quantity(cart.id(), line.id(), 3).is_ok());
    let loaded = service.get_cart(cart.id()).expect("cart should be loaded").expect("cart should exist");
    assert_eq!(loaded.items()[0].quantity(), 3);
    assert!(matches!(
        service.update_quantity(CartId::new(), line.id(), 3),
        Err(CartServiceError::CartNotFound)
    ));
    assert!(matches!(
        service.update_quantity(cart.id(), line.id(), 0),
        Err(CartServiceError::Cart(CartError::InvalidQuantity))
    ));
    assert_eq!(service.remove_item(cart.id(), CartItemId::new()), Ok(false));
    assert_eq!(service.remove_item(cart.id(), line.id()), Ok(true));
    assert!(matches!(service.remove_item(CartId::new(), line.id()), Err(CartServiceError::CartNotFound)));
    let emptied = service.get_cart(cart.id()).expect("cart should be loaded").expect("cart should exist");
    assert!(emptied.items().is_empty());
}
