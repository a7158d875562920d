use market_bot::ai_agent::action::{AiActionResult, AiActionType};
use market_bot::ai_agent::agent::{
    AddToCartInput, AutoPurchaseInput, PlacedOrder, SearchProductsInput,
};
use market_bot::ai_agent::errors::AiError;
use market_bot::ai_agent::facts::CatalogListingExtras;
use market_bot::ai_agent::policy::{PolicyReason, PurchasePolicy};
use market_bot::ai_agent::scope::{AiScope, Authorization};
use market_bot::ai_agent::stack::{InMemoryAiStack, PublishedListing};
use market_bot::cart::cart::CartItemSource;
use market_bot::catalog::product::FulfillmentType;
use market_bot::catalog::service::CreateProductCommand;
use market_bot::ids::{AiAuthorizationId, OrderId, ProductId, ProductVariantId, SellerId, UserId};
use market_bot::money::{CurrencyCode, Money};

const HOUR_MS: i64 = 3_600_000;

fn now_ms() -> i64 {
    chrono::Utc::now().timestamp_millis()
}

fn request_id() -> u128 {
    uuid::Uuid::new_v4().as_u128()
}

fn usd(minor: i64) -> Money {
    Money::new(minor, CurrencyCode::parse("USD").expect("USD should be valid")).expect("money should be valid")
}

struct Fixture {
    stack: InMemoryAiStack,
    user_id: UserId,
}

impl Fixture {
    fn new() -> Self {
        Self { stack: InMemoryAiStack::new(), user_id: UserId::new() }
    }

    fn authorize(&mut self, scopes: &[AiScope], expires_in_hours: i64) -> Authorization {
        self.stack
            .agent
            .authorizations_mut()
            .authorize(self.user_id, "client-1", scopes, now_ms() + expires_in_hours * HOUR_MS)
            .expect("authorization should be created")
    }

    fn save_policy(&mut self, policy: PurchasePolicy) {
        self.stack.agent.authorizations_mut().save_policy(self.user_id, policy).expect("policy should save");
    }

    fn enable_auto_purchase(&mut self) {
        self.stack
            .agent
            .authorizations_mut()
            .set_auto_purchase_enabled(self.user_id, true)
            .expect("auto-purchase flag should save");
    }

    fn publish_listing(&mut self, title: &str, price_minor: i64, shipping_minor: i64, stock: u64, seller_score: i32) -> PublishedListing {
        self.stack
            .publish_listing(title, price_minor, shipping_minor, stock, seller_score)
            .expect("listing should publish")
    }

    fn create_cart(&mut self) -> market_bot::ids::CartId {
        self.stack.agent.cart_service_mut().create_cart(self.user_id).expect("cart should be created").id()
    }

    fn actions(&self) -> Vec<market_bot::ai_agent::action::AiAction> {
        self.stack.agent.authorizations().list_actions(self.user_id).expect("actions should load")
    }

    /// Runs an auto-purchase end to end, with the order service answering
    /// with a fresh order for the planned total.
    fn auto_purchase(&mut self, input: AutoPurchaseInput) -> Result<PlacedOrder, AiError> {
        let plan = self.stack.agent.prepare_auto_purchase(&input)?;
        let placed = PlacedOrder { order_id: OrderId::new(), total_minor: plan.order.total.minor() };
        self.stack.agent.complete_auto_purchase(&input, &plan, Ok(placed))
    }
}

fn policy_with(max_order: i64, max_daily: i64, max_monthly: i64) -> PurchasePolicy {
    PurchasePolicy::new(vec!["electronics".to_owned()], max_order, max_daily, max_monthly, 1_500, 80, true)
        .expect("policy should be valid")
}

fn default_policy() -> PurchasePolicy {
    policy_with(10_000, 20_000, 50_000)
}

fn purchase(
    authorization: &Authorization,
    product_id: ProductId,
    variant_id: ProductVariantId,
    quoted_unit_price_minor: i64,
    quoted_shipping_minor: i64,
    key: &str,
) -> AutoPurchaseInput {
    AutoPurchaseInput {
        authorization_id: authorization.id(),
        product_id,
        variant_id,
        quantity: 1,
        quoted_unit_price_minor,
        quoted_shipping_minor,
        idempotency_key: key.to_owned(),
        request_id: request_id(),
        now: now_ms(),
    }
}

#[test]
fn should_reject_add_to_cart_without_cart_write_scope() {
    let mut fixture = Fixture::new();
    let authorization = fixture.authorize(&[AiScope::CartRead], 1);
    let listing = fixture.publish_listing("Lamp", 2_500, 400, 3, 90);
    let cart_id = fixture.create_cart();

    let result = fixture.stack.agent.add_to_cart(AddToCartInput {
        authorization_id: authorization.id(),
        cart_id,
        product_id: listing.product_id,
        variant_id: listing.variant_id,
        quantity: 1,
        request_id: request_id(),
    });

    assert!(matches!(result, Err(AiError::MissingScope { required: AiScope::CartWrite })));
    let actions = fixture.actions();
    assert!(actions
        .iter()
        .any(|action| action.action_type() == AiActionType::AddToCart && action.result() == AiActionResult::Failed));
}

#[test]
fn should_reject_auto_purchase_without_auto_purchase_scope() {
    let mut fixture = Fixture::new();
    let authorization = fixture.authorize(&[AiScope::OrderCreate, AiScope::CartWrite], 1);
    fixture.save_policy(default_policy());
    fixture.enable_auto_purchase();
    let listing = fixture.publish_listing("Lamp", 2_500, 400, 3, 90);

    let result = fixture.auto_purchase(purchase(&authorization, listing.product_id, listing.variant_id, 2_500, 400, "order-1"));

    assert!(matches!(result, Err(AiError::MissingScope { required: AiScope::AutoPurchase })));
}

#[test]
fn application_tests_should_not_let_order_create_inherit_auto_purchase() {
    let mut fixture = Fixture::new();
    let authorization = fixture.authorize(&[AiScope::OrderCreate], 1);
    fixture.save_policy(default_policy());
    fixture.enable_auto_purchase();
    let listing = fixture.publish_listing("Lamp", 2_500, 400, 3, 90);

    let result =
        fixture.auto_purchase(purchase(&authorization, listing.product_id, listing.variant_id, 2_500, 400, "order-inherit"));

    assert!(matches!(result, Err(AiError::MissingScope { required: AiScope::AutoPurchase })));
}

#[test]
fn application_tests_should_reject_auto_purchase_when_user_disabled_the_flag() {
    let mut fixture = Fixture::new();
    let authorization = fixture.authorize(&[AiScope::AutoPurchase], 1);
    fixture.save_policy(default_policy());
    let listing = fixture.publish_listing("Lamp", 2_500, 400, 3, 90);

    let result =
        fixture.auto_purchase(purchase(&authorization, listing.product_id, listing.variant_id, 2_500, 400, "order-disabled"));

    assert_eq!(result, Err(AiError::AutoPurchaseDisabled));
    let actions = fixture.actions();
    assert!(actions.iter().any(|action| {
        action.action_type() == AiActionType::AutoPurchase && action.error_code() == Some("AUTO_PURCHASE_DISABLED")
    }));
}

#[test]
fn should_block_auto_purchase_over_order_daily_and_monthly_caps() {
    let mut fixture = Fixture::new();
    let authorization = fixture.authorize(&[AiScope::AutoPurchase], 1);
    fixture.enable_auto_purchase();
    let listing = fixture.publish_listing("Lamp", 8_000, 400, 5, 90);

    fixture.save_policy(policy_with(7_000, 20_000, 50_000));
    let over_order = fixture.auto_purchase(purchase(&authorization, listing.product_id, listing.variant_id, 8_000, 400, "cap-order"));
    assert!(matches!(over_order, Err(AiError::PolicyBlocked { reason: PolicyReason::MaxOrderExceeded })));

    fixture.save_policy(policy_with(20_000, 5_000, 50_000));
    let over_daily = fixture.auto_purchase(purchase(&authorization, listing.product_id, listing.variant_id, 8_000, 400, "cap-daily"));
    assert!(matches!(over_daily, Err(AiError::PolicyBlocked { reason: PolicyReason::MaxDailyExceeded })));

    fixture.save_policy(policy_with(20_000, 50_000, 5_000));
    let over_monthly =
        fixture.auto_purchase(purchase(&authorization, listing.product_id, listing.variant_id, 8_000, 400, "cap-monthly"));
    assert!(matches!(over_monthly, Err(AiError::PolicyBlocked { reason: PolicyReason::MaxMonthlyExceeded })));
}

#[test]
fn should_require_user_confirmation_when_price_or_shipping_exceeds_policy() {
    let mut fixture = Fixture::new();
    let authorization = fixture.authorize(&[AiScope::AutoPurchase], 1);
    fixture.save_policy(default_policy());
    fixture.enable_auto_purchase();
    let listing = fixture.publish_listing("Lamp", 2_500, 400, 3, 90);

    let price_changed =
        fixture.auto_purchase(purchase(&authorization, listing.product_id, listing.variant_id, 2_000, 400, "price-change"));
    assert!(matches!(price_changed, Err(AiError::RequiresUserConfirmation { reason: PolicyReason::PriceChanged })));

    let heavy = fixture.publish_listing("Heavy Lamp", 2_500, 2_000, 3, 90);
    let shipping_over =
        fixture.auto_purchase(purchase(&authorization, heavy.product_id, heavy.variant_id, 2_500, 2_000, "shipping-over"));
    assert!(matches!(
        shipping_over,
        Err(AiError::RequiresUserConfirmation { reason: PolicyReason::MaxShippingExceeded })
    ));
}

#[test]
fn should_reject_expired_authorization() {
    let mut fixture = Fixture::new();
    let user_id = fixture.user_id;
    let authorization = fixture
        .stack
        .agent
        .authorizations_mut()
        .authorize(user_id, "client-1", &[AiScope::CartWrite, AiScope::AutoPurchase], now_ms() - 5 * 60_000)
        .expect("expired grant can be stored");
    let listing = fixture.publish_listing("Lamp", 2_500, 400, 3, 90);
    let cart_id = fixture.create_cart();

    let add = fixture.stack.agent.add_to_cart(AddToCartInput {
        authorization_id: authorization.id(),
        cart_id,
        product_id: listing.product_id,
        variant_id: listing.variant_id,
        quantity: 1,
        request_id: request_id(),
    });
    assert_eq!(add.map(|item| item.quantity()), Err(AiError::AuthorizationExpired));
}

#[test]
fn should_write_an_audit_action_for_every_ai_operation() {
    let mut fixture = Fixture::new();
    let authorization = fixture.authorize(&[AiScope::CatalogRead, AiScope::CartWrite, AiScope::AutoPurchase], 1);
    fixture.save_policy(default_policy());
    fixture.enable_auto_purchase();
    let listing = fixture.publish_listing("Lamp", 2_500, 400, 3, 90);
    let cart_id = fixture.create_cart();

    fixture
        .stack
        .agent
        .search_products(SearchProductsInput {
            authorization_id: authorization.id(),
            query: Some("Lamp".to_owned()),
            category_id: None,
            request_id: request_id(),
        })
        .expect("search should succeed");
    let item = fixture
        .stack
        .agent
        .add_to_cart(AddToCartInput {
            authorization_id: authorization.id(),
            cart_id,
            product_id: listing.product_id,
            variant_id: listing.variant_id,
            quantity: 1,
            request_id: request_id(),
        })
        .expect("add to cart should succeed");
    assert_eq!(item.source(), CartItemSource::Ai);

    let order = fixture
        .auto_purchase(purchase(&authorization, listing.product_id, listing.variant_id, 2_500, 400, "audit-ok"))
        .expect("auto purchase should succeed");

    let actions = fixture.actions();
    let types: Vec<_> = actions.iter().map(|action| action.action_type()).collect();
    assert!(types.contains(&AiActionType::Authorize));
    assert!(types.contains(&AiActionType::SearchProducts));
    assert!(types.contains(&AiActionType::AddToCart));
    assert!(types.contains(&AiActionType::AutoPurchase));
    assert!(actions.iter().any(|action| action.action_type() == AiActionType::AutoPurchase
        && action.order_id() == Some(order.order_id)
        && action.result() == AiActionResult::Succeeded));
}

#[test]
fn should_refuse_unpublished_products_for_ai_add_to_cart() {
    let mut fixture = Fixture::new();
    let authorization = fixture.authorize(&[AiScope::CartWrite], 1);
    let product = fixture
        .stack
        .agent
        .facts_mut()
        .catalog_mut()
        .create_product(CreateProductCommand {
            seller_id: SellerId::new(),
            title: "Draft Lamp".to_owned(),
            description: "Not public".to_owned(),
            product_type: FulfillmentType::PhysicalStandard,
            price_minor: 2_500,
            currency: "USD".to_owned(),
        })
        .expect("draft product should be created");
    let variant_id = ProductVariantId::new();
    fixture
        .stack
        .agent
        .facts_mut()
        .catalog_mut()
        .initialize_inventory(variant_id, 2)
        .expect("inventory should initialize");
    fixture
        .stack
        .agent
        .facts_mut()
        .register_extras(CatalogListingExtras {
            product_id: product.id(),
            variant_id,
            category_id: "electronics".to_owned(),
            seller_score: 90,
            shipping_fee: usd(400),
            tax: usd(0),
        })
        .expect("extras should register");
    let cart_id = fixture.create_cart();

    let result = fixture.stack.agent.add_to_cart(AddToCartInput {
        authorization_id: authorization.id(),
        cart_id,
        product_id: product.id(),
        variant_id,
        quantity: 1,
        request_id: request_id(),
    });

    assert_eq!(result.map(|item| item.quantity()), Err(AiError::ProductNotPurchasable));
}

#[test]
fn ai_auto_purchase_policy_should_reject_auto_purchase_when_user_disabled_the_flag() {
    let mut fixture = Fixture::new();
    let authorization = fixture.authorize(&[AiScope::AutoPurchase], 1);
    fixture.save_policy(default_policy());
    let listing = fixture.publish_listing("Lamp", 2_500, 400, 3, 90);

    let result = fixture.auto_purchase(purchase(&authorization, listing.product_id, listing.variant_id, 2_500, 400, "disabled"));

    assert_eq!(result, Err(AiError::AutoPurchaseDisabled));
    let actions = fixture.actions();
    assert!(actions.iter().any(|action| {
        action.action_type() == AiActionType::AutoPurchase
            && action.result() == AiActionResult::Failed
            && action.error_code() == Some("AUTO_PURCHASE_DISABLED")
            && action.order_id().is_none()
    }));
}

fn assert_blocked_audit(fixture: &Fixture) {
    let actions = fixture.actions();
    assert!(actions.iter().any(|action| {
        action.action_type() == AiActionType::AutoPurchase
            && action.result() == AiActionResult::Blocked
            && action.error_code() == Some("AUTO_PURCHASE_LIMIT_EXCEEDED")
            && action.order_id().is_none()
    }));
}

fn blocked_fixture(policy: PurchasePolicy, key: &str) -> (Fixture, Result<PlacedOrder, AiError>) {
    let mut fixture = Fixture::new();
    let authorization = fixture.authorize(&[AiScope::AutoPurchase], 1);
    fixture.enable_auto_purchase();
    fixture.save_policy(policy);
    let listing = fixture.publish_listing("Lamp", 8_000, 400, 3, 90);
    let result = fixture.auto_purchase(purchase(&authorization, listing.product_id, listing.variant_id, 8_000, 400, key));
    (fixture, result)
}

#[test]
fn should_block_auto_purchase_over_max_order_minor() {
    let (fixture, result) = blocked_fixture(policy_with(7_000, 20_000, 50_000), "max-order");
    assert!(matches!(result, Err(AiError::PolicyBlocked { reason: PolicyReason::MaxOrderExceeded })));
    assert_blocked_audit(&fixture);
}

#[test]
fn should_block_auto_purchase_over_max_daily_minor() {
    let (fixture, result) = blocked_fixture(policy_with(20_000, 5_000, 50_000), "max-daily");
    assert!(matches!(result, Err(AiError::PolicyBlocked { reason: PolicyReason::MaxDailyExceeded })));
    assert_blocked_audit(&fixture);
}

#[test]
fn should_block_auto_purchase_over_max_monthly_minor() {
    let (fixture, result) = blocked_fixture(policy_with(20_000, 50_000, 5_000), "max-monthly");
    assert!(matches!(result, Err(AiError::PolicyBlocked { reason: PolicyReason::MaxMonthlyExceeded })));
    assert_blocked_audit(&fixture);
}

#[test]
fn should_require_user_confirmation_when_price_exceeds_policy() {
    let mut fixture = Fixture::new();
    let authorization = fixture.authorize(&[AiScope::AutoPurchase], 1);
    fixture.enable_auto_purchase();
    fixture.save_policy(default_policy());
    let listing = fixture.publish_listing("Lamp", 2_500, 400, 3, 90);

    let result =
        fixture.auto_purchase(purchase(&authorization, listing.product_id, listing.variant_id, 2_000, 400, "price-change"));

    assert!(matches!(result, Err(AiError::RequiresUserConfirmation { reason: PolicyReason::PriceChanged })));
    let actions = fixture.actions();
    assert!(actions.iter().any(|action| {
        action.action_type() == AiActionType::AutoPurchase
            && action.result() == AiActionResult::RequiresUserConfirmation
            && action.error_code() == Some("REQUIRES_USER_CONFIRMATION")
            && action.order_id().is_none()
    }));
}

#[test]
fn should_require_user_confirmation_when_shipping_exceeds_policy() {
    let mut fixture = Fixture::new();
    let authorization = fixture.authorize(&[AiScope::AutoPurchase], 1);
    fixture.enable_auto_purchase();
    fixture.save_policy(default_policy());
    let listing = fixture.publish_listing("Heavy Lamp", 2_500, 2_000, 3, 90);

    let result =
        fixture.auto_purchase(purchase(&authorization, listing.product_id, listing.variant_id, 2_500, 2_000, "shipping-over"));

    assert!(matches!(
        result,
        Err(AiError::RequiresUserConfirmation { reason: PolicyReason::MaxShippingExceeded })
    ));
    let actions = fixture.actions();
    assert!(actions.iter().any(|action| {
        action.action_type() == AiActionType::AutoPurchase && action.result() == AiActionResult::RequiresUserConfirmation
    }));
}

#[test]
fn allowed_purchase_plans_the_catalog_order_and_counts_its_spend() {
    let mut fixture = Fixture::new();
    let authorization = fixture.authorize(&[AiScope::AutoPurchase], 1);
    fixture.enable_auto_purchase();
    fixture.save_policy(policy_with(10_000, 6_000, 50_000));
    let listing = fixture.publish_listing("  Lamp  ", 2_500, 400, 3, 90);

    let input = purchase(&authorization, listing.product_id, listing.variant_id, 2_500, 400, "first");
    let plan = fixture.stack.agent.prepare_auto_purchase(&input).expect("purchase should be allowed");
    assert_eq!(plan.order.buyer_id, fixture.user_id);
    assert_eq!(plan.order.title, "Lamp");
    assert_eq!(plan.order.total.minor(), 2_900);
    assert_eq!(plan.order.unit_price.minor(), 2_500);
    assert_eq!(plan.order.shipping_fee.minor(), 400);
    assert_eq!(plan.order.idempotency_key, "first");
    assert_eq!(plan.order.quantity, 1);
    let order_id = OrderId::new();
    let placed = fixture
        .stack
        .agent
        .complete_auto_purchase(&input, &plan, Ok(PlacedOrder { order_id, total_minor: 2_900 }))
        .expect("order should be recorded");
    assert_eq!(placed.order_id, order_id);

    // 2 900 spent today; a second 2 900 would pass the 6 000 daily cap? 5 800 does not.
    fixture.auto_purchase(purchase(&authorization, listing.product_id, listing.variant_id, 2_500, 400, "second")).expect("second purchase fits");
    let third = fixture.auto_purchase(purchase(&authorization, listing.product_id, listing.variant_id, 2_500, 400, "third"));
    assert_eq!(third, Err(AiError::PolicyBlocked { reason: PolicyReason::MaxDailyExceeded }));
}

#[test]
fn failed_order_is_audited_and_not_counted() {
    let mut fixture = Fixture::new();
    let authorization = fixture.authorize(&[AiScope::AutoPurchase], 1);
    fixture.enable_auto_purchase();
    fixture.save_policy(policy_with(10_000, 3_000, 50_000));
    let listing = fixture.publish_listing("Lamp", 2_500, 400, 3, 90);

    let input = purchase(&authorization, listing.product_id, listing.variant_id, 2_500, 400, "fails");
    let plan = fixture.stack.agent.prepare_auto_purchase(&input).expect("purchase should be allowed");
    let result = fixture.stack.agent.complete_auto_purchase(&input, &plan, Err(AiError::Order));
    assert_eq!(result, Err(AiError::Order));
    let actions = fixture.actions();
    let last = actions.last().expect("an entry should exist");
    assert_eq!(last.action_type(), AiActionType::AutoPurchase);
    assert_eq!(last.error_code(), Some("ORDER_FAILED"));
    assert_eq!(last.result(), AiActionResult::Failed);

    // Nothing was spent, so the same purchase still fits the daily cap.
    fixture.auto_purchase(purchase(&authorization, listing.product_id, listing.variant_id, 2_500, 400, "retry")).expect("retry fits");
}

#[test]
fn auto_purchase_input_checks_come_first() {
    let mut fixture = Fixture::new();
    let authorization = fixture.authorize(&[AiScope::AutoPurchase], 1);
    let listing = fixture.publish_listing("Lamp", 2_500, 400, 3, 90);

    let mut zero = purchase(&authorization, listing.product_id, listing.variant_id, 2_500, 400, "k");
    zero.quantity = 0;
    assert_eq!(fixture.auto_purchase(zero), Err(AiError::InvalidQuantity));
    let blank = purchase(&authorization, listing.product_id, listing.variant_id, 2_500, 400, "  ");
    assert_eq!(fixture.auto_purchase(blank), Err(AiError::BlankIdempotencyKey));
    let mut unknown = purchase(&authorization, listing.product_id, listing.variant_id, 2_500, 400, "k");
    unknown.authorization_id = AiAuthorizationId::new();
    assert_eq!(fixture.auto_purchase(unknown), Err(AiError::AuthorizationNotFound));

    fixture.enable_auto_purchase();
    let no_policy = purchase(&authorization, listing.product_id, listing.variant_id, 2_500, 400, "k");
    assert_eq!(fixture.auto_purchase(no_policy), Err(AiError::PolicyNotFound));
    fixture.save_policy(default_policy());
    let mut too_many = purchase(&authorization, listing.product_id, listing.variant_id, 2_500, 400, "k");
    too_many.quantity = 4;
    assert_eq!(fixture.auto_purchase(too_many), Err(AiError::ProductOutOfStock));
    let missing = purchase(&authorization, ProductId::new(), listing.variant_id, 2_500, 400, "k");
    assert_eq!(fixture.auto_purchase(missing), Err(AiError::ProductNotFound));
}

#[test]
fn revoked_grant_is_refused_and_audit_names_the_grant() {
    let mut fixture = Fixture::new();
    let authorization = fixture.authorize(&[AiScope::CatalogRead], 1);
    fixture.stack.agent.authorizations_mut().revoke(authorization.id()).expect("grant should be revoked");

    let result = fixture.stack.agent.search_products(SearchProductsInput {
        authorization_id: authorization.id(),
        query: None,
        category_id: None,
        request_id: 7,
    });
    assert_eq!(result, Err(AiError::AuthorizationRevoked));
    let actions = fixture.actions();
    let last = actions.last().expect("an entry should exist");
    assert_eq!(last.action_type(), AiActionType::SearchProducts);
    assert_eq!(last.authorization_id(), Some(authorization.id()));
    assert_eq!(last.request_id(), 7);
    assert_eq!(last.input_summary(), "search_products query= category=");
    assert_eq!(last.error_code(), Some("AUTHORIZATION_REVOKED"));
}

#[test]
fn search_finds_published_stocked_listings_in_product_order() {
    let mut fixture = Fixture::new();
    let authorization = fixture.authorize(&[AiScope::CatalogRead], 1);
    let lamp = fixture.publish_listing("Desk Lamp", 2_500, 400, 3, 90);
    let heavy = fixture.publish_listing("Heavy LAMP", 3_000, 900, 1, 90);
    fixture.publish_listing("Sold out lamp", 1_000, 100, 0, 90);
    fixture
        .stack
        .publish_listing_in_category("Chair", 5_000, 700, 2, 90, "furniture")
        .expect("listing should publish");

    let results = fixture
        .stack
        .agent
        .search_products(SearchProductsInput {
            authorization_id: authorization.id(),
            query: Some("  lamp ".to_owned()),
            category_id: None,
            request_id: request_id(),
        })
        .expect("search should succeed");
    assert_eq!(results.len(), 2);
    let mut expected = vec![(lamp.product_id, 2_500), (heavy.product_id, 3_000)];
    expected.sort_by_key(|(id, _)| id.as_u128());
    let got: Vec<_> = results.iter().map(|r| (r.product_id, r.price_minor)).collect();
    assert_eq!(got, expected);

    let furniture = fixture
        .stack
        .agent
        .search_products(SearchProductsInput {
            authorization_id: authorization.id(),
            query: None,
            category_id: Some("furniture".to_owned()),
            request_id: request_id(),
        })
        .expect("search should succeed");
    assert_eq!(furniture.len(), 1);
    assert_eq!(furniture[0].title, "Chair");
    assert_eq!(furniture[0].category_id, "furniture");
    assert_eq!(furniture[0].available_stock, 2);
}

#[test]
fn add_to_cart_uses_catalog_facts_and_checks_the_owner() {
    let mut fixture = Fixture::new();
    let authorization = fixture.authorize(&[AiScope::CartWrite], 1);
    let listing = fixture.publish_listing("Lamp", 2_500, 400, 3, 90);
    let cart_id = fixture.create_cart();
    let other_cart = fixture.stack.agent.cart_service_mut().create_cart(UserId::new()).expect("cart").id();

    let input = |cart_id, quantity| AddToCartInput {
        authorization_id: authorization.id(),
        cart_id,
        product_id: listing.product_id,
        variant_id: listing.variant_id,
        quantity,
        request_id: 42,
    };
    assert_eq!(fixture.stack.agent.add_to_cart(input(other_cart, 1)).map(|i| i.quantity()), Err(AiError::CartOwnerMismatch));
    assert_eq!(fixture.stack.agent.add_to_cart(input(cart_id, 4)).map(|i| i.quantity()), Err(AiError::ProductOutOfStock));
    assert_eq!(fixture.stack.agent.add_to_cart(input(cart_id, 0)).map(|i| i.quantity()), Err(AiError::InvalidQuantity));
    assert_eq!(
        fixture.stack.agent.add_to_cart(input(market_bot::ids::CartId::new(), 1)).map(|i| i.quantity()),
        Err(AiError::CartNotFound)
    );
    let line = fixture.stack.agent.add_to_cart(input(cart_id, 2)).expect("add should succeed");
    assert_eq!(line.unit_price().minor(), 2_500);
    assert_eq!(line.title(), "Lamp");
    assert_eq!(line.fulfillment_type(), FulfillmentType::PhysicalStandard);

    let actions = fixture.actions();
    let last = actions.last().expect("an entry should exist");
    let expected = format!(
        "add_to_cart cart={} product={} variant={} quantity=2",
        uuid::Uuid::from_u128(cart_id.as_u128()),
        uuid::Uuid::from_u128(listing.product_id.as_u128()),
        uuid::Uuid::from_u128(listing.variant_id.as_u128())
    );
    assert_eq!(last.input_summary(), expected);
    assert_eq!(last.result(), AiActionResult::Succeeded);
    assert_eq!(last.subject_user_id(), Some(fixture.user_id));
}

#[test]
fn publish_listing_refuses_blank_titles_and_negative_amounts() {
    let mut stack = InMemoryAiStack::default();
    assert_eq!(stack.publish_listing("  ", 100, 0, 1, 90), Err(AiError::ProductNotPurchasable));
    assert_eq!(stack.publish_listing("Lamp", -1, 0, 1, 90), Err(AiError::ProductNotPurchasable));
    assert_eq!(stack.publish_listing("Lamp", 100, -1, 1, 90), Err(AiError::InvalidPolicyAmount));
    let listing = stack.publish_listing("Lamp", 100, 0, 1, 90).expect("listing should publish");
    assert_eq!(listing.title, "Lamp");
    assert_eq!(listing.price_minor, 100);
}

#[test]
fn monthly_cap_counts_earlier_purchases_of_the_month() {
    let mut fixture = Fixture::new();
    let authorization = fixture.authorize(&[AiScope::AutoPurchase], 1);
    fixture.enable_auto_purchase();
    fixture.save_policy(policy_with(10_000, 50_000, 6_000));
    let listing = fixture.publish_listing("Lamp", 2_500, 400, 5, 90);

    let mut first = purchase(&authorization, listing.product_id, listing.variant_id, 2_500, 400, "m-1");
    first.now -= 2;
    fixture.auto_purchase(first).expect("first purchase fits");
    let mut second = purchase(&authorization, listing.product_id, listing.variant_id, 2_500, 400, "m-2");
    second.now -= 1;
    fixture.auto_purchase(second).expect("second purchase fits");
    let third = fixture.auto_purchase(purchase(&authorization, listing.product_id, listing.variant_id, 2_500, 400, "m-3"));
    assert_eq!(third, Err(AiError::PolicyBlocked { reason: PolicyReason::MaxMonthlyExceeded }));
}

#[test]
fn auto_purchase_audit_summary_names_the_quotes() {
    let mut fixture = Fixture::new();
    let authorization = fixture.authorize(&[AiScope::AutoPurchase], 1);
    let listing = fixture.publish_listing("Lamp", 2_500, 400, 3, 90);
    let mut input = purchase(&authorization, listing.product_id, listing.variant_id, -7, 400, "neg");
    input.quantity = 3;
    assert_eq!(fixture.auto_purchase(input), Err(AiError::AutoPurchaseDisabled));
    let actions = fixture.actions();
    let last = actions.last().expect("an entry should exist");
    let expected = format!(
        "auto_purchase product={} variant={} quantity=3 quoted_unit_price_minor=-7 quoted_shipping_minor=400",
        uuid::Uuid::from_u128(listing.product_id.as_u128()),
        uuid::Uuid::from_u128(listing.variant_id.as_u128())
    );
    assert_eq!(last.input_summary(), expected);
    assert_eq!(last.error_code(), Some("AUTO_PURCHASE_DISABLED"));
}

#[test]
fn publishing_under_a_stocked_variant_is_refused() {
    let mut stack = InMemoryAiStack::new();
    let variant = ProductVariantId::new();
    stack.agent.facts_mut().catalog_mut().initialize_inventory(variant, 1).expect("inventory");
    assert_eq!(
        stack.publish_listing_for_variant("Lamp", 100, 0, 1, 90, "electronics", variant),
        Err(AiError::ProductOutOfStock)
    );
    let fresh = ProductVariantId::new();
    let listing = stack.publish_listing_for_variant("Lamp", 100, 0, 1, 90, "electronics", fresh).expect("published");
    assert_eq!(listing.variant_id, fresh);
    assert_eq!(
        stack.publish_listing_for_variant("Lamp", 100, -3, 1, 90, "electronics", ProductVariantId::new()),
        Err(AiError::InvalidPolicyAmount)
    );
}

#[test]
fn the_placed_order_total_is_what_counts_as_spend() {
    let mut fixture = Fixture::new();
    let authorization = fixture.authorize(&[AiScope::AutoPurchase], 1);
    fixture.enable_auto_purchase();
    fixture.save_policy(policy_with(10_000, 3_000, 50_000));
    let listing = fixture.publish_listing("Lamp", 2_500, 400, 5, 90);

    let mut first = purchase(&authorization, listing.product_id, listing.variant_id, 2_500, 400, "p-1");
    first.now -= 1;
    let plan = fixture.stack.agent.prepare_auto_purchase(&first).expect("allowed");
    assert_eq!(plan.order.total.minor(), 2_900);
    fixture
        .stack
        .agent
        .complete_auto_purchase(&first, &plan, Ok(PlacedOrder { order_id: OrderId::new(), total_minor: 100 }))
        .expect("placed");
    // 100 recorded, so another 2 900 still fits the 3 000 daily cap.
    fixture
        .auto_purchase(purchase(&authorization, listing.product_id, listing.variant_id, 2_500, 400, "p-2"))
        .expect("second purchase fits");
}
