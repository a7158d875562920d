use market_bot::catalog::inventory::{Inventory, InventoryError};
use market_bot::catalog::product::{FulfillmentType, Product, ProductError, ProductStatus};
use market_bot::catalog::repository::InMemoryCatalogRepository;
use market_bot::catalog::service::{CatalogError, CatalogService, CreateProductCommand};
use market_bot::ids::{ProductId, ProductVariantId, SellerId, StockReservationId};
use market_bot::money::{CurrencyCode, CurrencyCodeError, Money, MoneyError};

fn usd(minor: i64) -> Money {
    Money::new(minor, CurrencyCode::parse("USD").expect("USD should be valid")).expect("price should be valid")
}

#[test]
fn should_reserve_available_stock() {
    let variant_id = ProductVariantId::new();
    let mut inventory = Inventory::new(variant_id, 3);
    let reservation_id = StockReservationId::new();

    inventory.reserve(2, reservation_id).expect("available stock should be reservable");

    assert_eq!(inventory.available_stock(), 1);
    assert_eq!(inventory.reserved_stock(), 2);
}

#[test]
fn should_reject_reservation_when_stock_is_insufficient() {
    let variant_id = ProductVariantId::new();
    let mut inventory = Inventory::new(variant_id, 1);

    let result = inventory.reserve(2, StockReservationId::new());

    assert_eq!(result, Err(InventoryError::InsufficientStock));
    assert_eq!(inventory.available_stock(), 1);
    assert_eq!(inventory.reserved_stock(), 0);
}

#[test]
fn should_make_repeated_reservation_idempotent() {
    let variant_id = ProductVariantId::new();
    let mut inventory = Inventory::new(variant_id, 3);
    let reservation_id = StockReservationId::new();

    inventory.reserve(2, reservation_id).expect("first reservation should work");
    inventory.reserve(2, reservation_id).expect("retrying the same reservation should work");

    assert_eq!(inventory.available_stock(), 1);
    assert_eq!(inventory.reserved_stock(), 2);
}

#[test]
fn should_release_a_reservation_once() {
    let variant_id = ProductVariantId::new();
    let mut inventory = Inventory::new(variant_id, 3);
    let reservation_id = StockReservationId::new();

    inventory.reserve(2, reservation_id).expect("reservation should work");
    inventory.release(reservation_id).expect("release should work");
    inventory.release(reservation_id).expect("repeated release should be idempotent");

    assert_eq!(inventory.available_stock(), 3);
    assert_eq!(inventory.reserved_stock(), 0);
}

#[test]
fn reservation_edge_cases() {
    let variant_id = ProductVariantId::new();
    let mut inventory = Inventory::new(variant_id, 5);
    let reservation_id = StockReservationId::new();

    assert_eq!(inventory.reserve(0, reservation_id), Err(InventoryError::InvalidQuantity));
    let granted = inventory.reserve(2, reservation_id).expect("reservation should work");
    assert_eq!(granted.quantity, 2);
    assert_eq!(granted.variant_id, variant_id);
    assert_eq!(inventory.reserve(3, reservation_id), Err(InventoryError::ReservationConflict));
    assert_eq!(inventory.available_stock(), 3);
    assert_eq!(inventory.reserved_stock(), 2);
    assert_eq!(inventory.variant_id(), variant_id);
}

#[test]
fn should_create_a_draft_product_with_a_valid_price() {
    let product = Product::new(
        SellerId::new(),
        "Mechanical Keyboard".to_owned(),
        "A standard physical product".to_owned(),
        FulfillmentType::PhysicalStandard,
        usd(12_999),
    )
    .expect("product should be valid");

    assert_eq!(product.status(), ProductStatus::Draft);
    assert_eq!(product.id(), ProductId::from_u128(product.id().as_u128()));
}

#[test]
fn should_reject_a_product_with_a_blank_title() {
    let result = Product::new(
        SellerId::new(),
        "   ".to_owned(),
        "Description".to_owned(),
        FulfillmentType::Digital,
        usd(100),
    );

    assert_eq!(result, Err(ProductError::BlankTitle));
}

#[test]
fn blank_description_is_refused_and_text_is_trimmed() {
    let result = Product::new(SellerId::new(), "Lamp".to_owned(), " \n ".to_owned(), FulfillmentType::Digital, usd(100));
    assert_eq!(result, Err(ProductError::BlankDescription));

    let product = Product::new(SellerId::new(), "  Lamp ".to_owned(), " Bright ".to_owned(), FulfillmentType::Digital, usd(100))
        .expect("product should be valid");
    assert_eq!(product.title(), "Lamp");
    assert_eq!(product.description(), "Bright");
}

fn manual() -> Product {
    Product::new(
        SellerId::new(),
        "Downloadable Manual".to_owned(),
        "A digital product".to_owned(),
        FulfillmentType::Digital,
        usd(500),
    )
    .expect("product should be valid")
}

#[test]
fn should_allow_a_product_to_move_through_review_to_published() {
    let mut product = manual();

    product.submit_for_review().expect("draft should enter review");
    product.publish().expect("reviewed product should publish");

    assert_eq!(product.status(), ProductStatus::Published);
}

#[test]
fn should_reject_publishing_a_draft_directly() {
    let mut product = manual();

    assert_eq!(product.publish(), Err(ProductError::InvalidStatusTransition));
}

#[test]
fn should_return_a_suspended_product_to_review_then_publish() {
    let mut product = manual();

    product.submit_for_review().expect("draft should enter review");
    product.publish().expect("reviewed product should publish");
    product.suspend().expect("published product should suspend");

    product.return_to_review().expect("suspended product should return to review");
    assert_eq!(product.status(), ProductStatus::PendingReview);

    product.publish().expect("returned product should publish again");
    assert_eq!(product.status(), ProductStatus::Published);
}

#[test]
fn visibility_follows_the_status() {
    let mut product = manual();
    assert!(!product.is_publicly_visible());
    assert!(!product.can_be_added_to_cart());
    assert_eq!(product.suspend(), Err(ProductError::InvalidStatusTransition));
    assert_eq!(product.return_to_review(), Err(ProductError::InvalidStatusTransition));
    product.submit_for_review().expect("draft should enter review");
    assert_eq!(product.submit_for_review(), Err(ProductError::InvalidStatusTransition));
    product.publish().expect("reviewed product should publish");
    assert!(product.is_publicly_visible());
    assert!(product.can_be_added_to_cart());
    product.suspend().expect("published product should suspend");
    assert_eq!(product.status(), ProductStatus::Suspended);
    assert!(!product.can_be_added_to_cart());
}

fn lamp_command(price_minor: i64, currency: &str) -> CreateProductCommand {
    CreateProductCommand {
        seller_id: SellerId::new(),
        title: "Portable Lamp".to_owned(),
        description: "A rechargeable lamp".to_owned(),
        product_type: FulfillmentType::PhysicalStandard,
        price_minor,
        currency: currency.to_owned(),
    }
}

#[test]
fn should_create_and_read_a_product_through_catalog_service() {
    let mut service = CatalogService::new(InMemoryCatalogRepository::default());
    let product = service.create_product(lamp_command(4_999, "USD")).expect("valid product should be created");

    let loaded = service
        .get_product(product.id())
        .expect("product should be readable")
        .expect("created product should exist");

    assert_eq!(loaded.id(), product.id());
    assert_eq!(loaded.title(), "Portable Lamp");
}

#[test]
fn catalog_service_refuses_bad_currency_and_negative_price() {
    let mut service = CatalogService::new(InMemoryCatalogRepository::default());
    assert_eq!(
        service.create_product(lamp_command(4_999, "usd")).map(|p| p.id()),
        Err(CatalogError::InvalidCurrencyCode(CurrencyCodeError::Invalid))
    );
    assert_eq!(
        service.create_product(lamp_command(-1, "USD")).map(|p| p.id()),
        Err(CatalogError::InvalidPrice(MoneyError::NegativeAmount))
    );
    assert!(service.get_product(ProductId::new()).expect("lookup should work").is_none());
}

#[test]
fn should_reserve_stock_through_catalog_service() {
    let mut service = CatalogService::new(InMemoryCatalogRepository::default());
    let variant_id = ProductVariantId::new();
    let reservation_id = StockReservationId::new();

    service.initialize_inventory(variant_id, 2).expect("inventory should initialize");
    service.reserve_stock(variant_id, 1, reservation_id).expect("available stock should be reserved");

    let inventory = service
        .get_inventory(variant_id)
        .expect("inventory should be readable")
        .expect("initialized inventory should exist");

    assert_eq!(inventory.available_stock(), 1);
}

#[test]
fn release_through_the_service_restores_stock() {
    let mut service = CatalogService::new(InMemoryCatalogRepository::default());
    let variant_id = ProductVariantId::new();
    let reservation_id = StockReservationId::new();

    service.initialize_inventory(variant_id, 4).expect("inventory should initialize");
    assert!(service.initialize_inventory(variant_id, 4).is_err());
    service.reserve_stock(variant_id, 3, reservation_id).expect("stock should be reserved");
    service.release_stock(variant_id, reservation_id).expect("stock should be released");
    let inventory = service.get_inventory(variant_id).expect("readable").expect("exists");
    assert_eq!(inventory.available_stock(), 4);
    assert_eq!(inventory.reserved_stock(), 0);
    assert!(service.reserve_stock(ProductVariantId::new(), 1, reservation_id).is_err());
}

#[test]
fn money_arithmetic_checks_currency_and_range() {
    let eur = CurrencyCode::parse("EUR").expect("EUR should be valid");
    assert_eq!(usd(150).checked_add(usd(250)).map(|m| m.minor()), Ok(400));
    assert_eq!(usd(1).checked_add(Money::new(1, eur).expect("valid")).map(|m| m.minor()), Err(MoneyError::CurrencyMismatch));
    assert_eq!(usd(i64::MAX).checked_add(usd(1)).map(|m| m.minor()), Err(MoneyError::Overflow));
    assert_eq!(usd(1_250).checked_mul(3).map(|m| m.minor()), Ok(3_750));
    assert_eq!(usd(i64::MAX).checked_mul(2).map(|m| m.minor()), Err(MoneyError::Overflow));
    assert_eq!(Money::new(-5, eur).map(|m| m.minor()), Err(MoneyError::NegativeAmount));
    assert!(CurrencyCode::parse("US").is_err());
    assert!(CurrencyCode::parse("U5D").is_err());
    assert_eq!(CurrencyCode::parse("JPY").expect("valid").as_string(), "JPY");
}

#[test]
fn fresh_ids_are_random_version_four_identifiers() {
    let ids = [
        ProductId::new().as_u128(),
        ProductVariantId::new().as_u128(),
        SellerId::new().as_u128(),
        StockReservationId::new().as_u128(),
        market_bot::ids::UserId::new().as_u128(),
        market_bot::ids::CartId::new().as_u128(),
        market_bot::ids::CartItemId::new().as_u128(),
        market_bot::ids::AiAuthorizationId::new().as_u128(),
        market_bot::ids::AiActionId::new().as_u128(),
        market_bot::ids::OrderId::new().as_u128(),
        market_bot::ids::StoreId::new().as_u128(),
        market_bot::ids::new_request_id(),
    ];
    for id in ids {
        assert_eq!(id & 0xF000_C000_0000_0000_0000, 0x4000_8000_0000_0000_0000);
        assert_eq!(uuid::Uuid::from_u128(id).get_version_num(), 4);
    }
    assert_ne!(ids[0], ProductId::new().as_u128());
}
