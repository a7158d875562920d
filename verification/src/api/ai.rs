//! The AI endpoints: a client names its grant in a header, and every
//! refusal is answered from the AI error.

use vstd::prelude::*;

use super::cart::{cart_answered, cart_response, CartResponse};
use super::errors::{ai_error_status, map_ai_error};
use super::failure::{failure_is, not_found, ApiFailure, STATUS_NOT_FOUND};
use super::identity::{ai_authorization_id, header_uuid, HeaderText};
use crate::ai_agent::agent::{
    AddToCartInput, AiAgentService, AiProductSearchResult, AutoPurchaseInput, AutoPurchasePlan,
    PlacedOrder, SearchProductsInput,
};
use crate::cart::cart::CartItem;
use crate::ai_agent::errors::{ai_error_message, error_code_of, AiError};
use crate::ai_agent::scope::{AiScope, Authorization};
use crate::error_code::ErrorCode;
use crate::ids::{id_text, new_request_id, uuid_text, AiAuthorizationId, CartId, ProductId, ProductVariantId, UserId};

verus! {

/// What an AI client searches for.
#[derive(Debug, PartialEq, Eq)]
pub struct AiProductSearchParams {
    pub q: Option<String>,
    pub category_id: Option<String>,
}

/// What an AI client asks to put in a cart; one unit unless it says otherwise.
#[derive(Debug, PartialEq, Eq)]
pub struct AiAddCartItemRequest {
    pub product_id: u128,
    pub variant_id: u128,
    pub quantity: Option<u64>,
}

/// What an AI client asks to buy, with the prices it was quoted.
#[derive(Debug, PartialEq, Eq)]
pub struct AiAutoPurchaseRequest {
    pub product_id: u128,
    pub variant_id: u128,
    pub quantity: Option<u64>,
    pub quoted_unit_price_minor: i64,
    pub quoted_shipping_minor: i64,
}

/// Whether `f` answers the AI error `e`.
pub open spec fn ai_failure(f: ApiFailure, e: AiError, request_id: u128) -> bool {
    failure_is(f, ai_error_status(e), error_code_of(e), ai_error_message(e), request_id)
}

/// The grant a header names, or the failure that answers a header that names none.
pub open spec fn header_grant(header: HeaderText) -> Option<AiAuthorizationId> {
    if header is Missing {
        None
    } else {
        match header_uuid(header) {
            Some(v) => Some(AiAuthorizationId { value: v }),
            None => None,
        }
    }
}

/// Searches the catalog for the grant that the request names.
pub fn search_ai_products(
    agent: &mut AiAgentService,
    grant_header: &HeaderText,
    params: AiProductSearchParams,
    request_id: u128,
) -> (r: Result<Vec<AiProductSearchResult>, ApiFailure>)
    requires
        old(agent).wf(),
    ensures
        final(agent).wf(),
        header_grant(*grant_header) is None ==> r is Err && *final(agent) == *old(agent),
        header_grant(*grant_header) matches Some(id) ==> exists|now: i64, answer: Result<Vec<AiProductSearchResult>, AiError>|
            #[trigger] final(agent).searched(
                old(agent),
                SearchProductsInput {
                    authorization_id: id,
                    query: params.q,
                    category_id: params.category_id,
                    request_id,
                },
                now,
                answer,
            ) && match answer {
                Ok(results) => r == Ok::<Vec<AiProductSearchResult>, ApiFailure>(results),
                Err(e) => r matches Err(f) && ai_failure(f, e, request_id),
            },
{
    let authorization_id = ai_authorization_id(grant_header, request_id)?;
    let input = SearchProductsInput {
        authorization_id,
        query: params.q,
        category_id: params.category_id,
        request_id,
    };
    let answer = agent.search_products(input);
    match answer {
        Ok(results) => Ok(results),
        Err(e) => Err(map_ai_error(&e, request_id)),
    }
}

/// The add to cart that an AI cart request asks for: one unit unless it
/// says otherwise.
pub open spec fn requested_cart_item(
    id: AiAuthorizationId,
    cart_id: CartId,
    body: AiAddCartItemRequest,
    request_id: u128,
) -> AddToCartInput {
    AddToCartInput {
        authorization_id: id,
        cart_id,
        product_id: ProductId { value: body.product_id },
        variant_id: ProductVariantId { value: body.variant_id },
        quantity: match body.quantity {
            Some(q) => q,
            None => 1,
        },
        request_id,
    }
}

/// The agent went from `before` to `after` by the add to cart `input`, which
/// answered `answer` at `now`; the request was answered `r`: the cart, or
/// the failure of the AI error.
pub open spec fn cart_request_answered(
    after: AiAgentService,
    before: AiAgentService,
    input: AddToCartInput,
    now: i64,
    answer: Result<CartItem, AiError>,
    r: Result<CartResponse, ApiFailure>,
) -> bool {
    &&& after.added_to_cart(&before, input, now, answer)
    &&& match answer {
        Ok(_) => r matches Ok(resp) && cart_answered(
            resp,
            after.catalog_facts().store(),
            after.cart_store().store().carts()[input.cart_id],
        ),
        Err(e) => r matches Err(f) && ai_failure(f, e, input.request_id),
    }
}

/// Adds a listing to cart `cart_id` for the grant that the request names,
/// and answers with the cart.
pub fn add_ai_cart_item(
    agent: &mut AiAgentService,
    grant_header: &HeaderText,
    cart_id: CartId,
    body: AiAddCartItemRequest,
    request_id: u128,
) -> (r: Result<CartResponse, ApiFailure>)
    requires
        old(agent).wf(),
    ensures
        final(agent).wf(),
        header_grant(*grant_header) is None ==> r is Err && *final(agent) == *old(agent),
        header_grant(*grant_header) matches Some(id) ==> exists|
            now: i64,
            answer: Result<CartItem, AiError>,
        |
            #[trigger] cart_request_answered(
                *final(agent),
                *old(agent),
                requested_cart_item(id, cart_id, body, request_id),
                now,
                answer,
                r,
            ),
{
    let authorization_id = ai_authorization_id(grant_header, request_id)?;
    let input = AddToCartInput {
        authorization_id,
        cart_id,
        product_id: ProductId::from_u128(body.product_id),
        variant_id: ProductVariantId::from_u128(body.variant_id),
        quantity: match body.quantity {
            Some(q) => q,
            None => 1,
        },
        request_id,
    };
    let ghost input_view = input;
    assert(header_grant(*grant_header) == Some(authorization_id));
    assert(requested_cart_item(header_grant(*grant_header)->0, cart_id, body, request_id) == input_view);
    let answer = agent.add_to_cart(input);
    let ghost now_seen = choose|now: i64| agent.added_to_cart(old(agent), input_view, now, answer);
    match answer {
        Ok(_) => {},
        Err(e) => {
            let failure = map_ai_error(&e, request_id);
            assert(cart_request_answered(*agent, *old(agent), input_view, now_seen, answer, Err(failure)));
            return Err(failure);
        },
    }
    let cart = match agent.cart_service().get_cart(cart_id) {
        Ok(Some(cart)) => cart,
        Ok(None) => return Err(not_found(request_id, "cart was not found")),
        Err(e) => return Err(super::errors::map_cart_error(&e, request_id)),
    };
    let response = cart_response(agent.facts().catalog(), &cart, request_id)?;
    assert(cart_request_answered(*agent, *old(agent), input_view, now_seen, answer, Ok(response)));
    Ok(response)
}

/// The auto-purchase that an order request asks for: one unit unless it
/// says otherwise, under the request's idempotency key, else a fresh one.
pub open spec fn requested_purchase(
    input: AutoPurchaseInput,
    id: AiAuthorizationId,
    body: AiAutoPurchaseRequest,
    idempotency_key: Option<String>,
    request_id: u128,
    now: i64,
) -> bool {
    &&& input.authorization_id == id
    &&& input.product_id == ProductId { value: body.product_id }
    &&& input.variant_id == ProductVariantId { value: body.variant_id }
    &&& input.quantity == match body.quantity {
        Some(q) => q,
        None => 1,
    }
    &&& input.quoted_unit_price_minor == body.quoted_unit_price_minor
    &&& input.quoted_shipping_minor == body.quoted_shipping_minor
    &&& match idempotency_key {
        Some(k) => input.idempotency_key@ == k@,
        None => exists|v: u128| input.idempotency_key@ == #[trigger] uuid_text(v),
    }
    &&& input.request_id == request_id
    &&& input.now == now
}

/// Checks an AI order request at `now` and gives the purchase and the order
/// to place for it; a refusal is answered from its AI error.
pub fn prepare_ai_order(
    agent: &mut AiAgentService,
    grant_header: &HeaderText,
    body: AiAutoPurchaseRequest,
    idempotency_key: Option<String>,
    request_id: u128,
    now: i64,
) -> (r: Result<(AutoPurchaseInput, AutoPurchasePlan), ApiFailure>)
    requires
        old(agent).wf(),
    ensures
        final(agent).wf(),
        header_grant(*grant_header) is None ==> r is Err && *final(agent) == *old(agent),
        header_grant(*grant_header) matches Some(id) ==> exists|
            input: AutoPurchaseInput,
            clock_now: i64,
            answer: Result<AutoPurchasePlan, AiError>,
        |
            #[trigger] final(agent).auto_purchase_prepared(old(agent), input, clock_now, answer)
                && requested_purchase(input, id, body, idempotency_key, request_id, now) && match answer {
                Ok(plan) => r == Ok::<(AutoPurchaseInput, AutoPurchasePlan), ApiFailure>((input, plan)),
                Err(e) => r matches Err(f) && ai_failure(f, e, request_id),
            },
{
    let authorization_id = ai_authorization_id(grant_header, request_id)?;
    let key = match idempotency_key {
        Some(k) => k,
        None => id_text(new_request_id()),
    };
    let input = AutoPurchaseInput {
        authorization_id,
        product_id: ProductId::from_u128(body.product_id),
        variant_id: ProductVariantId::from_u128(body.variant_id),
        quantity: match body.quantity {
            Some(q) => q,
            None => 1,
        },
        quoted_unit_price_minor: body.quoted_unit_price_minor,
        quoted_shipping_minor: body.quoted_shipping_minor,
        idempotency_key: key,
        request_id,
        now,
    };
    match agent.prepare_auto_purchase(&input) {
        Ok(plan) => Ok((input, plan)),
        Err(e) => Err(map_ai_error(&e, request_id)),
    }
}

/// Settles an AI order once the order service answered `placed`.
pub fn complete_ai_order(
    agent: &mut AiAgentService,
    input: &AutoPurchaseInput,
    plan: &AutoPurchasePlan,
    placed: Result<PlacedOrder, AiError>,
    request_id: u128,
) -> (r: Result<PlacedOrder, ApiFailure>)
    requires
        old(agent).wf(),
    ensures
        final(agent).wf(),
        final(agent).auto_purchase_completed(old(agent), *input, *plan, placed),
        match placed {
            Ok(order) => r == Ok::<PlacedOrder, ApiFailure>(order),
            Err(e) => r matches Err(f) && ai_failure(f, e, request_id),
        },
{
    match agent.complete_auto_purchase(input, plan, placed) {
        Ok(order) => Ok(order),
        Err(e) => Err(map_ai_error(&e, request_id)),
    }
}

/// The grant that the request names, when it may read orders now.
pub fn require_ai_order_reader(agent: &AiAgentService, grant_header: &HeaderText, request_id: u128) -> (r:
    Result<Authorization, ApiFailure>)
    requires
        agent.wf(),
    ensures
        header_grant(*grant_header) is None ==> r is Err,
        header_grant(*grant_header) matches Some(id) ==> exists|now: i64|
            match #[trigger] crate::ai_agent::authorization::scope_check_at(
                agent.grants(),
                id,
                AiScope::OrderRead,
                now,
            ) {
                Ok(auth) => r matches Ok(a) && a@ == auth,
                Err(e) => r matches Err(f) && ai_failure(f, e, request_id),
            },
{
    let authorization_id = ai_authorization_id(grant_header, request_id)?;
    assert(header_grant(*grant_header) == Some(authorization_id));
    assert(header_grant(*grant_header)->0 == authorization_id);
    let answer = agent.authorizations().require_scope(authorization_id, AiScope::OrderRead);
    let ghost now_seen = choose|now: i64|
        crate::ai_agent::authorization::grant_result_view(answer)
            == crate::ai_agent::authorization::scope_check_at(
            agent.grants(),
            authorization_id,
            AiScope::OrderRead,
            now,
        );
    assert(crate::ai_agent::authorization::grant_result_view(answer)
        == crate::ai_agent::authorization::scope_check_at(
        agent.grants(),
        authorization_id,
        AiScope::OrderRead,
        now_seen,
    ));
    match answer {
        Ok(authorization) => Ok(authorization),
        Err(e) => Err(map_ai_error(&e, request_id)),
    }
}

/// An AI client sees only the orders of its grant's user: any other order
/// is not found.
pub fn ai_order_access(authorization: &Authorization, buyer_id: UserId, request_id: u128) -> (r: Result<
    (),
    ApiFailure,
>)
    ensures
        buyer_id == authorization@.subject_user_id ==> r is Ok,
        buyer_id != authorization@.subject_user_id ==> (r matches Err(f) && failure_is(
            f,
            STATUS_NOT_FOUND,
            ErrorCode::NotFound,
            "order was not found"@,
            request_id,
        )),
{
    if buyer_id != authorization.subject_user_id() {
        return Err(not_found(request_id, "order was not found"));
    }
    Ok(())
}

} // verus!
