use market_bot::ai_agent::action::{AiAction, AiActionRecord, AiActionResult, AiActionType};
use market_bot::ai_agent::errors::AiError;
use market_bot::ai_agent::policy::{PolicyDecision, PolicyReason, PurchaseEvaluation, PurchasePolicy};
use market_bot::ai_agent::sanitize::sanitize_audit_text;
use market_bot::ai_agent::scope::{AiClientId, AiScope, Authorization};
use market_bot::error_code::ErrorCode;
use market_bot::ids::UserId;

const HOUR_MS: i64 = 3_600_000;

fn now_ms() -> i64 {
    chrono::Utc::now().timestamp_millis()
}

#[test]
fn should_redact_card_numbers_tokens_and_addresses_from_audit_text() {
    let sanitized = sanitize_audit_text("card 4111111111111111 token tok_live_secret address: 99 Hidden Road");

    assert!(!sanitized.contains("4111111111111111"));
    assert!(!sanitized.contains("tok_live_secret"));
    assert!(!sanitized.contains("99 Hidden Road"));
}

#[test]
fn sanitized_text_keeps_the_rest_exactly() {
    assert_eq!(
        sanitize_audit_text("card 4111111111111111 token tok_live_secret address: 99 Hidden Road"),
        "card [REDACTED_CARD] token [REDACTED_TOKEN] address: [REDACTED_ADDRESS]"
    );
    assert_eq!(sanitize_audit_text("order 123456789012 qty 2"), "order 123456789012 qty 2");
    assert_eq!(
        sanitize_audit_text("pay SK_live\nship  to\nAddress: 1 Main St"),
        "pay [REDACTED_TOKEN] ship to address: [REDACTED_ADDRESS]"
    );
    assert_eq!(sanitize_audit_text("ids 1234567890123456789012"), "ids 1234567890123456789012");
    assert_eq!(sanitize_audit_text(""), "");
}

#[test]
fn should_parse_api_scope_strings() {
    assert_eq!(AiScope::parse("cart:write").expect("scope should parse"), AiScope::CartWrite);
    assert_eq!(AiScope::parse("order:auto_purchase").expect("scope should parse"), AiScope::AutoPurchase);
    assert!(AiScope::parse("order:*").is_err());
}

#[test]
fn scope_strings_round_trip_and_lists_parse_in_order() {
    let all = [
        AiScope::CatalogRead,
        AiScope::CartRead,
        AiScope::CartWrite,
        AiScope::CheckoutPreview,
        AiScope::OrderCreate,
        AiScope::OrderRead,
        AiScope::AutoPurchase,
    ];
    for scope in all {
        assert_eq!(AiScope::parse(scope.as_api_str()), Ok(scope));
    }
    assert_eq!(AiScope::parse(" catalog:read "), Ok(AiScope::CatalogRead));
    assert_eq!(
        AiScope::parse_all(&["cart:read".to_owned(), "order:read".to_owned()]),
        Ok(vec![AiScope::CartRead, AiScope::OrderRead])
    );
    assert_eq!(AiScope::parse_all(&["cart:read".to_owned(), "bogus".to_owned()]), Err(AiError::UnknownScope));
}

#[test]
fn client_ids_are_trimmed_and_must_not_be_blank() {
    assert_eq!(AiClientId::parse("  client-1 ").expect("client should parse").as_str(), "client-1");
    assert_eq!(AiClientId::parse(" \t").map(|c| c.as_str().to_owned()), Err(AiError::BlankClientId));
}

#[test]
fn authorization_should_not_let_order_create_inherit_auto_purchase() {
    let now = now_ms();
    let authorization = Authorization::new(
        UserId::new(),
        AiClientId::parse("client-1").expect("client should parse"),
        &[AiScope::OrderCreate],
        now + HOUR_MS,
    );

    assert!(authorization.has_scope(AiScope::OrderCreate));
    assert!(!authorization.has_scope(AiScope::AutoPurchase));
    assert!(matches!(
        authorization.require_scope(AiScope::AutoPurchase, now),
        Err(AiError::MissingScope { required: AiScope::AutoPurchase })
    ));
}

#[test]
fn should_reject_expired_and_revoked_authorizations() {
    let now = now_ms();
    let expired = Authorization::new(
        UserId::new(),
        AiClientId::parse("client-1").expect("client should parse"),
        &[AiScope::CartWrite],
        now - 60_000,
    );
    assert!(matches!(expired.require_scope(AiScope::CartWrite, now), Err(AiError::AuthorizationExpired)));

    let mut revoked = Authorization::new(
        UserId::new(),
        AiClientId::parse("client-1").expect("client should parse"),
        &[AiScope::CartWrite],
        now + HOUR_MS,
    );
    revoked.revoke(now);
    assert!(matches!(revoked.require_scope(AiScope::CartWrite, now), Err(AiError::AuthorizationRevoked)));
}

#[test]
fn grants_keep_scopes_once_in_declaration_order_and_first_revocation() {
    let now = now_ms();
    let mut grant = Authorization::new(
        UserId::new(),
        AiClientId::parse("client-1").expect("client should parse"),
        &[AiScope::AutoPurchase, AiScope::CatalogRead, AiScope::AutoPurchase],
        now + HOUR_MS,
    );
    assert_eq!(grant.scopes(), vec![AiScope::CatalogRead, AiScope::AutoPurchase]);
    assert!(grant.is_expired(now + HOUR_MS));
    assert!(!grant.is_expired(now));
    assert_eq!(grant.require_scope(AiScope::CatalogRead, now), Ok(()));
    grant.revoke(now);
    grant.revoke(now + 5);
    assert_eq!(grant.revoked_at(), Some(now));
    assert!(grant.is_revoked());
}

fn policy() -> PurchasePolicy {
    PurchasePolicy::new(vec!["electronics".to_owned()], 10_000, 20_000, 50_000, 1_500, 80, true)
        .expect("policy should be valid")
}

fn evaluation() -> PurchaseEvaluation {
    PurchaseEvaluation {
        category_id: "electronics".to_owned(),
        seller_score: 90,
        order_total_minor: 8_000,
        shipping_minor: 500,
        daily_spent_minor: 0,
        monthly_spent_minor: 0,
        quoted_unit_price_minor: 7_500,
        catalog_unit_price_minor: 7_500,
        quoted_shipping_minor: 500,
        catalog_shipping_minor: 500,
    }
}

#[test]
fn should_allow_a_purchase_inside_every_limit() {
    assert_eq!(policy().evaluate(&evaluation()), PolicyDecision::Allowed);
}

#[test]
fn should_block_when_order_daily_or_monthly_caps_are_exceeded() {
    let policy = policy();
    let mut over_order = evaluation();
    over_order.order_total_minor = 10_001;
    assert!(matches!(policy.evaluate(&over_order), PolicyDecision::Blocked { reason: PolicyReason::MaxOrderExceeded }));

    let mut over_daily = evaluation();
    over_daily.daily_spent_minor = 15_000;
    assert!(matches!(policy.evaluate(&over_daily), PolicyDecision::Blocked { reason: PolicyReason::MaxDailyExceeded }));

    let mut over_monthly = evaluation();
    over_monthly.monthly_spent_minor = 49_000;
    over_monthly.order_total_minor = 2_000;
    assert!(matches!(
        policy.evaluate(&over_monthly),
        PolicyDecision::Blocked { reason: PolicyReason::MaxMonthlyExceeded }
    ));
}

#[test]
fn should_require_confirmation_when_price_or_shipping_exceeds_policy() {
    let policy = policy();
    let mut price_changed = evaluation();
    price_changed.catalog_unit_price_minor = 8_200;
    assert!(matches!(
        policy.evaluate(&price_changed),
        PolicyDecision::RequiresUserConfirmation { reason: PolicyReason::PriceChanged }
    ));

    let mut shipping_over = evaluation();
    shipping_over.shipping_minor = 1_501;
    shipping_over.catalog_shipping_minor = 1_501;
    shipping_over.quoted_shipping_minor = 1_501;
    assert!(matches!(
        policy.evaluate(&shipping_over),
        PolicyDecision::RequiresUserConfirmation { reason: PolicyReason::MaxShippingExceeded }
    ));
}

#[test]
fn policy_rules_apply_in_order_and_at_their_edges() {
    let policy = policy();
    let mut other_category = evaluation();
    other_category.category_id = "books".to_owned();
    other_category.order_total_minor = 99_999;
    assert_eq!(policy.evaluate(&other_category), PolicyDecision::Blocked { reason: PolicyReason::CategoryNotAllowed });

    let mut low_score = evaluation();
    low_score.seller_score = 79;
    assert_eq!(policy.evaluate(&low_score), PolicyDecision::Blocked { reason: PolicyReason::SellerScoreTooLow });

    let mut at_caps = evaluation();
    at_caps.order_total_minor = 10_000;
    at_caps.daily_spent_minor = 10_000;
    at_caps.monthly_spent_minor = 40_000;
    at_caps.shipping_minor = 1_500;
    assert_eq!(policy.evaluate(&at_caps), PolicyDecision::Allowed);

    let mut overflowing = evaluation();
    overflowing.daily_spent_minor = i64::MAX;
    assert_eq!(policy.evaluate(&overflowing), PolicyDecision::Blocked { reason: PolicyReason::MaxDailyExceeded });

    let mut shipping_changed = evaluation();
    shipping_changed.quoted_shipping_minor = 400;
    assert_eq!(
        policy.evaluate(&shipping_changed),
        PolicyDecision::RequiresUserConfirmation { reason: PolicyReason::ShippingChanged }
    );

    let relaxed = PurchasePolicy::new(vec!["electronics".to_owned()], 10_000, 20_000, 50_000, 1_500, 80, false)
        .expect("policy should be valid");
    assert_eq!(relaxed.evaluate(&shipping_changed), PolicyDecision::Allowed);
}

#[test]
fn policy_refuses_negative_limits_and_decisions_map_to_results() {
    assert_eq!(
        PurchasePolicy::new(vec![], 10, -1, 10, 10, 0, true).map(|p| p.max_order_minor),
        Err(AiError::InvalidPolicyAmount)
    );
    assert_eq!(PolicyDecision::Allowed.into_result(), Ok(()));
    assert_eq!(
        PolicyDecision::Blocked { reason: PolicyReason::MaxOrderExceeded }.into_result(),
        Err(AiError::PolicyBlocked { reason: PolicyReason::MaxOrderExceeded })
    );
    assert_eq!(
        PolicyDecision::RequiresUserConfirmation { reason: PolicyReason::PriceChanged }.into_result(),
        Err(AiError::RequiresUserConfirmation { reason: PolicyReason::PriceChanged })
    );
    assert_eq!(PolicyReason::MaxShippingExceeded.as_str(), "max_shipping_exceeded");
}

#[test]
fn errors_have_codes_and_audit_results() {
    let blocked = AiError::PolicyBlocked { reason: PolicyReason::MaxDailyExceeded };
    assert_eq!(blocked.audit_code(), "AUTO_PURCHASE_LIMIT_EXCEEDED");
    assert_eq!(blocked.error_code(), ErrorCode::AutoPurchaseLimitExceeded);
    assert_eq!(AiActionResult::from_error(&blocked), AiActionResult::Blocked);
    let confirm = AiError::RequiresUserConfirmation { reason: PolicyReason::PriceChanged };
    assert_eq!(AiActionResult::from_error(&confirm), AiActionResult::RequiresUserConfirmation);
    assert_eq!(AiActionResult::from_error(&AiError::CartNotFound), AiActionResult::Failed);
    assert_eq!(AiError::AuthorizationExpired.error_code(), ErrorCode::AiAuthorizationExpired);
    assert_eq!(AiActionType::AutoPurchase.as_str(), "auto_purchase");
    assert_eq!(AiActionResult::RequiresUserConfirmation.as_str(), "requires_user_confirmation");
}

#[test]
fn card_numbers_written_in_groups_are_redacted() {
    let sanitized = sanitize_audit_text("card 4111 1111 1111 1111");
    assert!(!sanitized.contains("4111 1111 1111 1111"));
    assert_eq!(sanitized, "card [REDACTED_CARD]");
    assert_eq!(sanitize_audit_text("pay 4111-1111-1111-1111 now"), "pay [REDACTED_CARD] now");
    assert_eq!(sanitize_audit_text("card\n4111  1111\t1111 1111 ok"), "card [REDACTED_CARD] ok");
    assert_eq!(sanitize_audit_text("ids 1234 5678 qty 2"), "ids 1234 5678 qty 2");
    assert_eq!(
        sanitize_audit_text("ref 4111 1111 1111 1111 2024"),
        "ref 4111 1111 1111 1111 2024"
    );
}

#[test]
fn policy_categories_are_kept_sorted_and_once() {
    let policy = PurchasePolicy::new(
        vec!["toys".to_owned(), "books".to_owned(), "toys".to_owned(), "art".to_owned()],
        1,
        1,
        1,
        1,
        0,
        false,
    )
    .expect("policy should be valid");
    assert_eq!(policy.allowed_categories, vec!["art".to_owned(), "books".to_owned(), "toys".to_owned()]);
    let same = PurchasePolicy::new(vec!["books".to_owned(), "art".to_owned(), "toys".to_owned()], 1, 1, 1, 1, 0, false)
        .expect("policy should be valid");
    assert_eq!(policy, same);
}

#[test]
fn actions_keep_the_time_they_were_made() {
    let action = AiAction::new_at(
        AiActionRecord {
            authorization_id: None,
            subject_user_id: None,
            action_type: AiActionType::SearchProducts,
            input_summary: "card 4111 1111 1111 1111".to_owned(),
            result: AiActionResult::Succeeded,
            request_id: 9,
            order_id: None,
            error_code: None,
        },
        1_700_000_000_123,
    );
    assert_eq!(action.created_at(), 1_700_000_000_123);
    assert_eq!(action.input_summary(), "card [REDACTED_CARD]");
    assert_eq!(uuid::Uuid::from_u128(action.id().as_u128()).get_version_num(), 4);
}

#[test]
fn month_start_is_midnight_of_the_first() {
    // 2024-03-15T12:34:56.789Z
    let now = 1_710_506_096_789;
    assert_eq!(market_bot::clock::start_of_utc_month(now), 1_709_251_200_000);
    assert_eq!(market_bot::clock::start_of_utc_day(now), 1_710_460_800_000);
    assert_eq!(market_bot::clock::start_of_utc_month(i64::MAX), i64::MAX);
}

#[test]
fn sanitizing_twice_changes_nothing_and_clean_text_is_kept() {
    for text in [
        "card 4111 1111 1111 1111 token tok_live address: 99 Hidden Road",
        "pay SK_live\nship  to\nAddress: 1 Main St",
        "ids 1234 5678 qty 2",
        "  spaced   out\ttext  ",
    ] {
        let once = sanitize_audit_text(text);
        assert_eq!(sanitize_audit_text(&once), once);
    }
    assert_eq!(sanitize_audit_text("search for lamps"), "search for lamps");
}
