//! The audit trail of what AI clients did and how it ended.

use vstd::prelude::*;

use super::errors::AiError;
use super::sanitize::{audit_text, sanitize_audit_text};
use crate::clock::now_millis;
use crate::ids::{is_random_id, AiActionId, AiAuthorizationId, OrderId, UserId};

verus! {

#[derive(Clone, Copy, Debug, PartialEq, Eq, Structural)]
pub enum AiActionType {
    Authorize,
    Revoke,
    SearchProducts,
    AddToCart,
    AutoPurchase,
}

#[derive(Clone, Copy, Debug, PartialEq, Eq, Structural)]
pub enum AiActionResult {
    Succeeded,
    RequiresUserConfirmation,
    Blocked,
    Failed,
}

pub open spec fn action_type_name(t: AiActionType) -> Seq<char> {
    match t {
        AiActionType::Authorize => "authorize"@,
        AiActionType::Revoke => "revoke"@,
        AiActionType::SearchProducts => "search_products"@,
        AiActionType::AddToCart => "add_to_cart"@,
        AiActionType::AutoPurchase => "auto_purchase"@,
    }
}

pub open spec fn action_result_name(r: AiActionResult) -> Seq<char> {
    match r {
        AiActionResult::Succeeded => "succeeded"@,
        AiActionResult::RequiresUserConfirmation => "requires_user_confirmation"@,
        AiActionResult::Blocked => "blocked"@,
        AiActionResult::Failed => "failed"@,
    }
}

/// How an error is recorded: a confirmation request, a policy block, or a failure.
pub open spec fn result_of_error(e: AiError) -> AiActionResult {
    match e {
        AiError::RequiresUserConfirmation { .. } => AiActionResult::RequiresUserConfirmation,
        AiError::PolicyBlocked { .. } => AiActionResult::Blocked,
        _ => AiActionResult::Failed,
    }
}

impl AiActionType {
    pub fn as_str(self) -> (r: &'static str)
        ensures
            r@ == action_type_name(self),
    {
        match self {
            AiActionType::Authorize => "authorize",
            AiActionType::Revoke => "revoke",
            AiActionType::SearchProducts => "search_products",
            AiActionType::AddToCart => "add_to_cart",
            AiActionType::AutoPurchase => "auto_purchase",
        }
    }
}

impl AiActionResult {
    pub fn as_str(self) -> (r: &'static str)
        ensures
            r@ == action_result_name(self),
    {
        match self {
            AiActionResult::Succeeded => "succeeded",
            AiActionResult::RequiresUserConfirmation => "requires_user_confirmation",
            AiActionResult::Blocked => "blocked",
            AiActionResult::Failed => "failed",
        }
    }

    pub fn from_error(error: &AiError) -> (r: AiActionResult)
        ensures
            r == result_of_error(*error),
    {
        match error {
            AiError::RequiresUserConfirmation { .. } => AiActionResult::RequiresUserConfirmation,
            AiError::PolicyBlocked { .. } => AiActionResult::Blocked,
            _ => AiActionResult::Failed,
        }
    }
}

/// What is known of an action before it is recorded.
#[derive(Debug)]
pub struct AiActionRecord {
    pub authorization_id: Option<AiAuthorizationId>,
    pub subject_user_id: Option<UserId>,
    pub action_type: AiActionType,
    pub input_summary: String,
    pub result: AiActionResult,
    pub request_id: u128,
    pub order_id: Option<OrderId>,
    pub error_code: Option<String>,
}

/// One audited action.
#[derive(Debug, PartialEq, Eq)]
pub struct AiAction {
    id: AiActionId,
    authorization_id: Option<AiAuthorizationId>,
    subject_user_id: Option<UserId>,
    action_type: AiActionType,
    input_summary: String,
    result: AiActionResult,
    request_id: u128,
    order_id: Option<OrderId>,
    error_code: Option<String>,
    created_at: i64,
}

pub struct AiActionView {
    pub id: AiActionId,
    pub authorization_id: Option<AiAuthorizationId>,
    pub subject_user_id: Option<UserId>,
    pub action_type: AiActionType,
    pub input_summary: Seq<char>,
    pub result: AiActionResult,
    pub request_id: u128,
    pub order_id: Option<OrderId>,
    pub error_code: Option<Seq<char>>,
    pub created_at: i64,
}

pub open spec fn optional_text(s: Option<String>) -> Option<Seq<char>> {
    match s {
        Some(t) => Some(t@),
        None => None,
    }
}

impl View for AiAction {
    type V = AiActionView;

    closed spec fn view(&self) -> AiActionView {
        AiActionView {
            id: self.id,
            authorization_id: self.authorization_id,
            subject_user_id: self.subject_user_id,
            action_type: self.action_type,
            input_summary: self.input_summary@,
            result: self.result,
            request_id: self.request_id,
            order_id: self.order_id,
            error_code: optional_text(self.error_code),
            created_at: self.created_at,
        }
    }
}

fn copy_optional_text(s: &Option<String>) -> (r: Option<String>)
    ensures
        optional_text(r) == optional_text(*s),
{
    match s {
        Some(t) => Some(t.clone()),
        None => None,
    }
}

impl Clone for AiAction {
    fn clone(&self) -> (r: Self)
        ensures
            r@ == self@,
    {
        AiAction {
            id: self.id,
            authorization_id: self.authorization_id,
            subject_user_id: self.subject_user_id,
            action_type: self.action_type,
            input_summary: self.input_summary.clone(),
            result: self.result,
            request_id: self.request_id,
            order_id: self.order_id,
            error_code: copy_optional_text(&self.error_code),
            created_at: self.created_at,
        }
    }
}

/// Whether `a` records `record`: the summary redacted, the other facts as given.
pub open spec fn records(a: AiActionView, record: AiActionRecord) -> bool {
    &&& a.authorization_id == record.authorization_id
    &&& a.subject_user_id == record.subject_user_id
    &&& a.action_type == record.action_type
    &&& a.input_summary == audit_text(record.input_summary@)
    &&& a.result == record.result
    &&& a.request_id == record.request_id
    &&& a.order_id == record.order_id
    &&& a.error_code == optional_text(record.error_code)
}

impl AiAction {
    /// Records an action now, with a fresh id and the summary redacted, as
    /// `new_at` does at the time of the call.
    pub fn new(record: AiActionRecord) -> (r: AiAction)
        ensures
            records(r@, record),
            is_random_id(r@.id.value),
    {
        AiAction::new_at(record, now_millis())
    }

    /// Records an action made at `now`, with a fresh id and the summary redacted.
    pub fn new_at(record: AiActionRecord, now: i64) -> (r: AiAction)
        ensures
            records(r@, record),
            is_random_id(r@.id.value),
            r@.created_at == now,
    {
        let input_summary = sanitize_audit_text(record.input_summary.as_str());
        AiAction {
            id: AiActionId::new(),
            authorization_id: record.authorization_id,
            subject_user_id: record.subject_user_id,
            action_type: record.action_type,
            input_summary,
            result: record.result,
            request_id: record.request_id,
            order_id: record.order_id,
            error_code: record.error_code,
            created_at: now,
        }
    }

    pub fn id(&self) -> (r: AiActionId)
        ensures
            r == self@.id,
    {
        self.id
    }

    pub fn authorization_id(&self) -> (r: Option<AiAuthorizationId>)
        ensures
            r == self@.authorization_id,
    {
        self.authorization_id
    }

    pub fn subject_user_id(&self) -> (r: Option<UserId>)
        ensures
            r == self@.subject_user_id,
    {
        self.subject_user_id
    }

    pub fn action_type(&self) -> (r: AiActionType)
        ensures
            r == self@.action_type,
    {
        self.action_type
    }

    pub fn input_summary(&self) -> (r: &str)
        ensures
            r@ == self@.input_summary,
    {
        self.input_summary.as_str()
    }

    pub fn result(&self) -> (r: AiActionResult)
        ensures
            r == self@.result,
    {
        self.result
    }

    pub fn request_id(&self) -> (r: u128)
        ensures
            r == self@.request_id,
    {
        self.request_id
    }

    pub fn order_id(&self) -> (r: Option<OrderId>)
        ensures
            r == self@.order_id,
    {
        self.order_id
    }

    pub fn error_code(&self) -> (r: Option<&str>)
        ensures
            match r {
                Some(s) => self@.error_code == Some(s@),
                None => self@.error_code is None,
            },
    {
        match &self.error_code {
            Some(s) => Some(s.as_str()),
            None => None,
        }
    }

    pub fn created_at(&self) -> (r: i64)
        ensures
            r == self@.created_at,
    {
        self.created_at
    }
}

} // verus!
