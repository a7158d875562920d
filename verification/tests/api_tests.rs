use market_bot::ai_agent::errors::AiError;
use market_bot::ai_agent::policy::PolicyReason;
use market_bot::ai_agent::scope::AiScope;
use market_bot::api::ai::{
    add_ai_cart_item, ai_order_access, complete_ai_order, prepare_ai_order, require_ai_order_reader,
    search_ai_products, AiAddCartItemRequest, AiAutoPurchaseRequest, AiProductSearchParams,
};
use market_bot::api::cart::{add_item, create_cart, get_cart, remove_item, update_item, AddCartItemRequest, UpdateCartItemRequest};
use market_bot::api::checkout::{build_checkout_preview, preview_checkout, CHECKOUT_HOLD_MILLIS};
use market_bot::api::directory::{MarketplaceDirectory, ProductListingRecord};
use market_bot::api::enums::{ApiCartItemSource, ApiFulfillmentType, ApiProductStatus};
use market_bot::api::errors::{map_ai_error, map_cart_error, map_catalog_error};
use market_bot::api::failure::{empty_cart_error, invalid_input, not_found, unauthorized};
use market_bot::api::identity::{
    actor_user_id, ai_authorization_id, request_id_from_header, require_actor, require_admin, ActorRole,
    HeaderText, DEFAULT_TEST_USER_ID,
};
use market_bot::api::order::{order_line_from_cart, order_line_from_request, CreateOrderItemRequest};
use market_bot::api::product::{build_product_detail, get_product};
use market_bot::api::seller::{
    create_product, patch_product, CreateSellerProductRequest, DigitalDraftRequest, PhysicalDraftRequest,
};
use market_bot::ai_agent::agent::PlacedOrder;
use market_bot::ai_agent::policy::PurchasePolicy;
use market_bot::ai_agent::stack::InMemoryAiStack;
use market_bot::cart::cart::{CartError, CartItemSource};
use market_bot::cart::repository::InMemoryCartRepository;
use market_bot::cart::service::{CartService, CartServiceError};
use market_bot::catalog::product::{FulfillmentType, ProductStatus};
use market_bot::catalog::repository::InMemoryCatalogRepository;
use market_bot::catalog::service::{CatalogError, CatalogService, CreateProductCommand};
use market_bot::error_code::ErrorCode;
use market_bot::ids::{CartId, CartItemId, OrderId, ProductId, ProductVariantId, SellerId, StoreId, UserId};
use market_bot::money::{CurrencyCodeError, MoneyError};

fn uuid_text(v: u128) -> String {
    uuid::Uuid::from_u128(v).to_string()
}

fn header(text: &str) -> HeaderText {
    HeaderText::Text(text.to_owned())
}

fn catalog() -> CatalogService {
    CatalogService::new(InMemoryCatalogRepository::default())
}

fn lamp(catalog: &mut CatalogService, price_minor: i64) -> ProductId {
    catalog
        .create_product(CreateProductCommand {
            seller_id: SellerId::new(),
            title: "Portable Lamp".to_owned(),
            description: "A rechargeable lamp".to_owned(),
            product_type: FulfillmentType::PhysicalStandard,
            price_minor,
            currency: "USD".to_owned(),
        })
        .expect("product should be created")
        .id()
}

#[test]
fn wire_enums_convert_both_ways() {
    assert_eq!(ApiFulfillmentType::from(FulfillmentType::Digital), ApiFulfillmentType::Digital);
    assert_eq!(FulfillmentType::from(ApiFulfillmentType::PhysicalStandard), FulfillmentType::PhysicalStandard);
    assert_eq!(ApiCartItemSource::from(CartItemSource::Ai), ApiCartItemSource::Ai);
    assert_eq!(CartItemSource::from(ApiCartItemSource::User), CartItemSource::User);
    assert_eq!(ApiProductStatus::from(ProductStatus::PendingReview), ApiProductStatus::PendingReview);
}

#[test]
fn user_header_defaults_and_must_be_an_identifier() {
    assert_eq!(actor_user_id(&HeaderText::Missing, 1), Ok(UserId::from_u128(DEFAULT_TEST_USER_ID)));
    let id = uuid::Uuid::new_v4();
    assert_eq!(actor_user_id(&header(&id.to_string()), 1), Ok(UserId::from_u128(id.as_u128())));
    let refused = actor_user_id(&header("not-a-uuid"), 9).expect_err("invalid header");
    assert_eq!(refused, invalid_input(9, "X-User-Id must be a UUID"));
    assert_eq!(refused.status, 400);
    assert!(actor_user_id(&HeaderText::Unreadable, 9).is_err());
}

#[test]
fn ai_grant_header_is_required() {
    let missing = ai_authorization_id(&HeaderText::Missing, 3).expect_err("missing header");
    assert_eq!(missing.status, 401);
    assert_eq!(missing.code, ErrorCode::Unauthorized);
    assert_eq!(missing.message, "X-Ai-Authorization-Id is required");
    let bad = ai_authorization_id(&header("x"), 3).expect_err("bad header");
    assert_eq!(bad.message, "X-Ai-Authorization-Id must be a UUID");
    let id = uuid::Uuid::new_v4();
    assert_eq!(ai_authorization_id(&header(&id.to_string()), 3).map(|a| a.as_u128()), Ok(id.as_u128()));
}

#[test]
fn request_ids_are_kept_or_made_fresh() {
    let id = uuid::Uuid::new_v4();
    assert_eq!(request_id_from_header(&header(&id.to_string())), id.as_u128());
    let fresh = request_id_from_header(&header("junk"));
    let other = request_id_from_header(&HeaderText::Missing);
    assert_ne!(fresh, other);
}

#[test]
fn bearer_tokens_name_a_role_and_a_user() {
    let id = uuid::Uuid::new_v4();
    let admin = require_actor(&header(&format!("Bearer admin/{id}")), 1).expect("admin token");
    assert_eq!(admin.role, ActorRole::Admin);
    assert_eq!(admin.user_id, UserId::from_u128(id.as_u128()));
    let user = require_actor(&header(&format!("Bearer user/{id}")), 1).expect("user token");
    assert_eq!(user.role, ActorRole::User);
    for bad in ["Basic admin/x", "Bearer admin", &format!("Bearer root/{id}"), "Bearer admin/nope", ""] {
        assert_eq!(require_actor(&header(bad), 5), Err(unauthorized(5)));
    }
    assert_eq!(require_actor(&HeaderText::Missing, 5), Err(unauthorized(5)));
    let forbidden = require_admin(&header(&format!("Bearer user/{id}")), 2).expect_err("user is no admin");
    assert_eq!(forbidden.status, 403);
    assert_eq!(forbidden.message, "admin authorization is required");
    assert!(require_admin(&header(&format!("Bearer admin/{id}")), 2).is_ok());
}

#[test]
fn errors_map_to_status_codes_and_messages() {
    let blocked = map_ai_error(&AiError::PolicyBlocked { reason: PolicyReason::MaxOrderExceeded }, 4);
    assert_eq!(blocked.status, 403);
    assert_eq!(blocked.code, ErrorCode::AutoPurchaseLimitExceeded);
    assert_eq!(blocked.message, "purchase policy blocked this action: max_order_exceeded");
    let scope = map_ai_error(&AiError::MissingScope { required: AiScope::CartWrite }, 4);
    assert_eq!(scope.message, "missing required AI scope cart:write");
    assert_eq!(scope.code, ErrorCode::Forbidden);
    assert_eq!(map_ai_error(&AiError::ProductOutOfStock, 4).status, 409);
    assert_eq!(map_ai_error(&AiError::InvalidQuantity, 4).status, 400);
    assert_eq!(map_ai_error(&AiError::CartNotFound, 4).status, 404);
    assert_eq!(map_ai_error(&AiError::Order, 4).status, 500);
    let cart = map_cart_error(&CartServiceError::Cart(CartError::PriceSnapshotChanged), 4);
    assert_eq!((cart.status, cart.code), (409, ErrorCode::PriceChanged));
    assert_eq!(cart.message, "cart operation failed: cart item price snapshot changed");
    let missing = map_cart_error(&CartServiceError::Cart(CartError::ItemNotFound), 4);
    assert_eq!((missing.status, missing.code), (404, ErrorCode::NotFound));
    let catalog = map_catalog_error(&CatalogError::InvalidCurrencyCode(CurrencyCodeError::Invalid), 4);
    assert_eq!(catalog.status, 400);
    assert!(catalog.message.starts_with("currency code is invalid: "));
    assert_eq!(empty_cart_error(4), invalid_input(4, "cart has no items"));
    assert_eq!(patch_product(4).status, 501);
}

#[test]
fn cart_endpoints_show_lines_with_stock() {
    let mut catalog = catalog();
    let mut carts = CartService::new(InMemoryCartRepository::default());
    let directory = MarketplaceDirectory::default();
    let product_id = lamp(&mut catalog, 1_999);
    let variant = ProductVariantId::new();
    catalog.initialize_inventory(variant, 5).expect("inventory");

    let created = create_cart(&mut carts, &catalog, &HeaderText::Missing, 1).expect("cart");
    assert!(created.items.is_empty());
    let body = AddCartItemRequest { product_id: product_id.as_u128(), variant_id: Some(variant.as_u128()), quantity: Some(2), source: None };
    let cart = add_item(&mut carts, &catalog, &directory, created.cart_id, body, 1).expect("added");
    assert_eq!(cart.items.len(), 1);
    let line = &cart.items[0];
    assert_eq!(line.unit_price_minor, 1_999);
    assert_eq!(line.currency, "USD");
    assert_eq!(line.quantity, 2);
    assert_eq!(line.available_stock, 5);
    assert_eq!(line.source, ApiCartItemSource::User);
    assert_eq!(line.title, "Portable Lamp");

    let updated = update_item(&mut carts, &catalog, created.cart_id, line.cart_item_id, UpdateCartItemRequest { quantity: 4 }, 1)
        .expect("updated");
    assert_eq!(updated.items[0].quantity, 4);
    let zero = update_item(&mut carts, &catalog, created.cart_id, line.cart_item_id, UpdateCartItemRequest { quantity: 0 }, 1)
        .expect_err("zero quantity");
    assert_eq!(zero.status, 400);
    let fetched = get_cart(&carts, &catalog, created.cart_id, 1).expect("cart");
    assert_eq!(fetched.items[0].quantity, 4);
    assert_eq!(get_cart(&carts, &catalog, CartId::new(), 8), Err(not_found(8, "cart was not found")));

    let missing_product = AddCartItemRequest { product_id: 7, variant_id: None, quantity: None, source: None };
    assert_eq!(
        add_item(&mut carts, &catalog, &directory, created.cart_id, missing_product, 3),
        Err(not_found(3, "product was not found"))
    );
    assert_eq!(remove_item(&mut carts, created.cart_id, CartItemId::new(), 2), Err(not_found(2, "cart item was not found")));
    assert_eq!(remove_item(&mut carts, created.cart_id, line.cart_item_id, 2), Ok(()));
}

#[test]
fn add_item_defaults_to_the_listed_variant() {
    let mut catalog = catalog();
    let mut carts = CartService::new(InMemoryCartRepository::default());
    let mut directory = MarketplaceDirectory::default();
    let product_id = lamp(&mut catalog, 1_000);
    let listed = ProductVariantId::new();
    directory.remember_listing(
        product_id,
        ProductListingRecord {
            variant_id: listed,
            store_id: None,
            store_name: "Store".to_owned(),
            refund_window_days: 14,
            digital_method: None,
            shipping_regions: vec![],
            estimated_days_min: 3,
            estimated_days_max: 7,
        },
    );
    let cart = create_cart(&mut carts, &catalog, &HeaderText::Missing, 1).expect("cart");
    let body = AddCartItemRequest { product_id: product_id.as_u128(), variant_id: None, quantity: None, source: Some(ApiCartItemSource::Ai) };
    let shown = add_item(&mut carts, &catalog, &directory, cart.cart_id, body, 1).expect("added");
    assert_eq!(shown.items[0].variant_id, listed);
    assert_eq!(shown.items[0].quantity, 1);
    assert_eq!(shown.items[0].available_stock, 0);
    assert_eq!(shown.items[0].source, ApiCartItemSource::Ai);

    let other = lamp(&mut catalog, 1_000);
    let body = AddCartItemRequest { product_id: other.as_u128(), variant_id: None, quantity: None, source: None };
    let shown = add_item(&mut carts, &catalog, &directory, cart.cart_id, body, 1).expect("added");
    assert_eq!(shown.items[1].variant_id, ProductVariantId::from_u128(other.as_u128()));
}

#[test]
fn checkout_preview_totals_and_flags() {
    let mut catalog = catalog();
    let mut carts = CartService::new(InMemoryCartRepository::default());
    let directory = MarketplaceDirectory::default();
    let product_id = lamp(&mut catalog, 1_999);
    let variant = ProductVariantId::new();
    catalog.initialize_inventory(variant, 1).expect("inventory");
    let cart = create_cart(&mut carts, &catalog, &HeaderText::Missing, 1).expect("cart");
    assert_eq!(preview_checkout(&carts, &catalog, cart.cart_id, 0, 1), Err(empty_cart_error(1)));
    let body = AddCartItemRequest { product_id: product_id.as_u128(), variant_id: Some(variant.as_u128()), quantity: Some(2), source: None };
    add_item(&mut carts, &catalog, &directory, cart.cart_id, body, 1).expect("added");

    let now = 1_700_000_000_000;
    let preview = preview_checkout(&carts, &catalog, cart.cart_id, now, 1).expect("preview");
    assert_eq!(preview.subtotal_minor, 3_998);
    assert_eq!(preview.total_minor, 3_998);
    assert_eq!(preview.shipping_fee_minor, 0);
    assert_eq!(preview.tax_minor, 0);
    assert_eq!(preview.currency, "USD");
    assert!(!preview.requires_price_reconfirm);
    assert!(!preview.inventory_is_available);
    assert_eq!(preview.expires_at, now + CHECKOUT_HOLD_MILLIS);
    assert_eq!(preview.payment_provider_status, "not_started");
    assert_eq!(preview.items[0].snapshot_unit_price_minor, 1_999);
    assert_eq!(preview.items[0].available_stock, 1);

    let stored = carts.get_cart(cart.cart_id).expect("readable").expect("exists");
    let empty_catalog = CatalogService::new(InMemoryCatalogRepository::default());
    assert_eq!(build_checkout_preview(&empty_catalog, &stored, now, 6), Err(not_found(6, "product was not found")));
}

#[test]
fn product_page_uses_listing_or_defaults() {
    let mut catalog = catalog();
    let mut directory = MarketplaceDirectory::default();
    let product_id = lamp(&mut catalog, 4_999);
    let page = get_product(&catalog, &directory, product_id, 1).expect("page");
    assert_eq!(page.store_name, "Store");
    assert_eq!(page.refund_rules.refund_window_days, 14);
    assert!(page.refund_rules.is_refundable);
    assert_eq!(page.refund_rules.summary, "14 day refund window.");
    assert_eq!(page.delivery_rules.estimated_days_min, 3);
    assert_eq!(page.delivery_rules.estimated_days_max, 7);
    assert_eq!(page.status, ApiProductStatus::Draft);
    assert_eq!(page.variants.len(), 1);
    assert_eq!(page.variants[0].variant_id, ProductVariantId::from_u128(product_id.as_u128()));
    assert_eq!(page.variants[0].sku, format!("SKU-{}", &uuid_text(product_id.as_u128())[..8]));
    assert_eq!(get_product(&catalog, &directory, ProductId::new(), 2), Err(not_found(2, "product was not found")));

    let store = StoreId::new();
    directory.remember_listing(
        product_id,
        ProductListingRecord {
            variant_id: ProductVariantId::new(),
            store_id: Some(store),
            store_name: "Lamp House".to_owned(),
            refund_window_days: 0,
            digital_method: None,
            shipping_regions: vec!["EU".to_owned()],
            estimated_days_min: 1,
            estimated_days_max: 2,
        },
    );
    let product = catalog.get_product(product_id).expect("readable").expect("exists");
    let page = build_product_detail(&catalog, &directory, &product, 1).expect("page");
    assert_eq!(page.store_id, Some(store));
    assert_eq!(page.store_name, "Lamp House");
    assert!(!page.refund_rules.is_refundable);
    assert_eq!(page.refund_rules.summary, "Not refundable.");
    assert_eq!(page.delivery_rules.shipping_regions, vec!["EU".to_owned()]);
}

fn seller_request(kind: ApiFulfillmentType) -> CreateSellerProductRequest {
    CreateSellerProductRequest {
        title: " Ebook ".to_owned(),
        description: "A guide".to_owned(),
        fulfillment_type: kind,
        price_minor: 900,
        currency: "USD".to_owned(),
        available_stock: None,
        refund_window_days: None,
        digital: None,
        physical: None,
    }
}

#[test]
fn seller_products_get_listing_defaults() {
    let mut catalog = catalog();
    let mut directory = MarketplaceDirectory::default();
    let seller = SellerId::new();
    let page = create_product(&mut catalog, &mut directory, seller, None, seller_request(ApiFulfillmentType::Digital), 1)
        .expect("created");
    assert_eq!(page.title, "Ebook");
    assert_eq!(page.seller_id, seller);
    assert_eq!(page.available_stock, 1);
    assert_eq!(page.delivery_rules.digital_method, Some("file_download".to_owned()));
    assert_eq!(page.delivery_rules.estimated_days_max, 0);
    assert_eq!(page.status, ApiProductStatus::Draft);

    let mut physical = seller_request(ApiFulfillmentType::PhysicalStandard);
    physical.available_stock = Some(9);
    physical.refund_window_days = Some(30);
    physical.physical = Some(PhysicalDraftRequest { shipping_regions: Some(vec!["US".to_owned()]), estimated_days_min: None, estimated_days_max: Some(10) });
    physical.digital = Some(DigitalDraftRequest { delivery_method: Some("email".to_owned()) });
    let store = StoreId::new();
    let page = create_product(&mut catalog, &mut directory, seller, Some((store, "Books".to_owned())), physical, 1).expect("created");
    assert_eq!(page.available_stock, 9);
    assert_eq!(page.store_name, "Books");
    assert_eq!(page.delivery_rules.estimated_days_min, 3);
    assert_eq!(page.delivery_rules.estimated_days_max, 10);
    assert_eq!(page.delivery_rules.digital_method, None);
    assert_eq!(page.refund_rules.summary, "30 day refund window.");

    let mut bad = seller_request(ApiFulfillmentType::Digital);
    bad.price_minor = -5;
    let refused = create_product(&mut catalog, &mut directory, seller, None, bad, 2).expect_err("negative price");
    assert_eq!(refused.status, 400);
    assert_eq!(refused.code, ErrorCode::InvalidInput);
}

#[test]
fn order_lines_take_catalog_facts_first() {
    let mut catalog = catalog();
    let product_id = lamp(&mut catalog, 2_500);
    let request = CreateOrderItemRequest {
        product_id: product_id.as_u128(),
        variant_id: 11,
        quantity: 2,
        title: None,
        unit_price_minor: Some(1),
        currency: None,
        seller_id: None,
        fulfillment_type: None,
    };
    let line = order_line_from_request(&catalog, request, 1).expect("line");
    assert_eq!(line.title, "Portable Lamp");
    assert_eq!(line.unit_price.minor(), 2_500);
    assert_eq!(line.quantity, 2);
    assert_eq!(line.fulfillment_type, FulfillmentType::PhysicalStandard);

    let unknown = |title: Option<&str>, currency: Option<&str>, price: Option<i64>, seller: Option<u128>, kind: Option<ApiFulfillmentType>| {
        CreateOrderItemRequest {
            product_id: 99,
            variant_id: 1,
            quantity: 1,
            title: title.map(str::to_owned),
            unit_price_minor: price,
            currency: currency.map(str::to_owned),
            seller_id: seller,
            fulfillment_type: kind,
        }
    };
    let message = |r: Result<_, market_bot::api::failure::ApiFailure>| r.map(|_: market_bot::api::order::OrderLineDraft| ()).expect_err("refused").message;
    assert_eq!(message(order_line_from_request(&catalog, unknown(None, None, None, None, None), 1)), "order item title is required");
    assert_eq!(message(order_line_from_request(&catalog, unknown(Some("T"), None, None, None, None), 1)), "order item currency is required");
    assert!(message(order_line_from_request(&catalog, unknown(Some("T"), Some("usd"), None, None, None), 1)).starts_with("currency code"));
    assert!(message(order_line_from_request(&catalog, unknown(Some("T"), Some("USD"), Some(-1), None, None), 1)).starts_with("money"));
    assert_eq!(message(order_line_from_request(&catalog, unknown(Some("T"), Some("USD"), None, None, None), 1)), "order item seller_id is required");
    assert_eq!(
        message(order_line_from_request(&catalog, unknown(Some("T"), Some("USD"), None, Some(5), None), 1)),
        "order item fulfillment_type is required"
    );
    let line = order_line_from_request(&catalog, unknown(Some("T"), Some("EUR"), None, Some(5), Some(ApiFulfillmentType::Digital)), 1)
        .expect("line");
    assert_eq!(line.unit_price.minor(), 0);
    assert_eq!(line.seller_id, SellerId::from_u128(5));
    assert_eq!(line.fulfillment_type, FulfillmentType::Digital);
}

#[test]
fn order_line_from_cart_needs_the_product() {
    let mut catalog = catalog();
    let mut carts = CartService::new(InMemoryCartRepository::default());
    let directory = MarketplaceDirectory::default();
    let product_id = lamp(&mut catalog, 1_200);
    let cart = create_cart(&mut carts, &catalog, &HeaderText::Missing, 1).expect("cart");
    let body = AddCartItemRequest { product_id: product_id.as_u128(), variant_id: None, quantity: Some(3), source: None };
    add_item(&mut carts, &catalog, &directory, cart.cart_id, body, 1).expect("added");
    let stored = carts.get_cart(cart.cart_id).expect("readable").expect("exists");
    let line = order_line_from_cart(&catalog, &stored.items()[0], 1).expect("line");
    assert_eq!(line.quantity, 3);
    assert_eq!(line.unit_price.minor(), 1_200);
    let empty = catalog_empty();
    assert_eq!(order_line_from_cart(&empty, &stored.items()[0], 5), Err(not_found(5, "product was not found")));
}

fn catalog_empty() -> CatalogService {
    CatalogService::new(InMemoryCatalogRepository::default())
}

#[test]
fn ai_endpoints_answer_from_the_agent() {
    let mut stack = InMemoryAiStack::new();
    let user = UserId::new();
    let grant = stack
        .agent
        .authorizations_mut()
        .authorize(user, "client-1", &[AiScope::CatalogRead, AiScope::CartWrite, AiScope::AutoPurchase], chrono::Utc::now().timestamp_millis() + 3_600_000)
        .expect("grant");
    stack.agent.authorizations_mut().save_policy(user, PurchasePolicy::new(vec!["electronics".to_owned()], 10_000, 20_000, 50_000, 1_500, 80, true).expect("policy")).expect("saved");
    stack.agent.authorizations_mut().set_auto_purchase_enabled(user, true).expect("saved");
    let listing = stack.publish_listing("Portable Lamp", 2_500, 400, 3, 90).expect("listing");
    let grant_header = header(&uuid_text(grant.id().as_u128()));

    let found = search_ai_products(&mut stack.agent, &grant_header, AiProductSearchParams { q: Some("Lamp".to_owned()), category_id: None }, 1)
        .expect("search");
    assert_eq!(found.len(), 1);
    assert_eq!(found[0].price_minor, 2_500);
    assert!(search_ai_products(&mut stack.agent, &HeaderText::Missing, AiProductSearchParams { q: None, category_id: None }, 1).is_err());

    let cart_id = stack.agent.cart_service_mut().create_cart(user).expect("cart").id();
    let cart = add_ai_cart_item(
        &mut stack.agent,
        &grant_header,
        cart_id,
        AiAddCartItemRequest { product_id: listing.product_id.as_u128(), variant_id: listing.variant_id.as_u128(), quantity: None },
        1,
    )
    .expect("added");
    assert_eq!(cart.items[0].source, ApiCartItemSource::Ai);
    assert_eq!(cart.items[0].available_stock, 3);

    let request = AiAutoPurchaseRequest {
        product_id: listing.product_id.as_u128(),
        variant_id: listing.variant_id.as_u128(),
        quantity: None,
        quoted_unit_price_minor: 2_500,
        quoted_shipping_minor: 400,
    };
    let (input, plan) = prepare_ai_order(&mut stack.agent, &grant_header, request, None, 1, chrono::Utc::now().timestamp_millis())
        .expect("allowed");
    assert_eq!(plan.order.total.minor(), 2_900);
    assert!(uuid::Uuid::parse_str(&input.idempotency_key).is_ok());
    let placed = complete_ai_order(&mut stack.agent, &input, &plan, Ok(PlacedOrder { order_id: OrderId::new(), total_minor: 2_900 }), 1)
        .expect("placed");
    assert_eq!(placed.total_minor, 2_900);

    let reader = require_ai_order_reader(&stack.agent, &grant_header, 1).expect_err("no order:read scope");
    assert_eq!(reader.status, 403);
    assert_eq!(reader.message, "missing required AI scope order:read");
    assert!(ai_order_access(&grant, user, 1).is_ok());
    assert_eq!(ai_order_access(&grant, UserId::new(), 1), Err(not_found(1, "order was not found")));

    let over = AiAutoPurchaseRequest {
        product_id: listing.product_id.as_u128(),
        variant_id: listing.variant_id.as_u128(),
        quantity: Some(1),
        quoted_unit_price_minor: 2_000,
        quoted_shipping_minor: 400,
    };
    let refused = prepare_ai_order(&mut stack.agent, &grant_header, over, Some("k-1".to_owned()), 1, 0).map(|_| ()).expect_err("price changed");
    assert_eq!(refused.status, 409);
    assert_eq!(refused.code, ErrorCode::PriceChanged);
    let _ = MoneyError::Overflow;
}

#[test]
fn seller_product_with_a_stocked_variant_is_refused_after_the_draft() {
    let mut catalog = catalog();
    let mut directory = MarketplaceDirectory::default();
    let taken = ProductVariantId::new();
    catalog.initialize_inventory(taken, 2).expect("inventory");
    let refused = market_bot::api::seller::create_product_for_variant(
        &mut catalog,
        &mut directory,
        SellerId::new(),
        None,
        seller_request(ApiFulfillmentType::Digital),
        taken,
        1,
    )
    .expect_err("variant already stocked");
    assert_eq!((refused.status, refused.code), (500, ErrorCode::InternalError));
    assert_eq!(refused.message, "catalog repository failed: inventory already exists");
    let fresh = ProductVariantId::new();
    let page = market_bot::api::seller::create_product_for_variant(
        &mut catalog,
        &mut directory,
        SellerId::new(),
        None,
        seller_request(ApiFulfillmentType::Digital),
        fresh,
        1,
    )
    .expect("fresh variant");
    assert_eq!(page.variants[0].variant_id, fresh);
    assert_eq!(page.available_stock, 1);
}

#[test]
fn fresh_request_ids_are_random_identifiers() {
    for header in [HeaderText::Missing, HeaderText::Unreadable, HeaderText::Text("nope".to_owned())] {
        let id = request_id_from_header(&header);
        assert_eq!(uuid::Uuid::from_u128(id).get_version_num(), 4);
    }
}
