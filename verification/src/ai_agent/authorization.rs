//! Granting, revoking and checking AI scopes, with an audit entry for each grant change.

use vstd::prelude::*;

use super::action::{AiAction, AiActionRecord, AiActionResult, AiActionType, AiActionView};
use super::action::records;
use super::errors::AiError;
use super::policy::PurchasePolicy;
use super::repository::{action_of, action_views, InMemoryAiRepository};
use super::sanitize::{audit_text, join_with};
use super::scope::{
    canonical_scopes, scope_name, AiClientId, AiScope, Authorization, AuthorizationView,
};
use crate::clock::now_millis;
use crate::ids::{id_text, new_request_id, uuid_text, AiAuthorizationId, UserId};
use crate::text::trim_ws;

verus! {

/// The API strings of `scopes`.
pub open spec fn scope_names(scopes: Seq<AiScope>) -> Seq<Seq<char>> {
    scopes.map_values(|s: AiScope| scope_name(s))
}

/// The audit summary of a grant.
pub open spec fn authorize_summary(client: Seq<char>, scopes: Seq<AiScope>) -> Seq<char> {
    "authorize client="@ + client + " scopes="@ + join_with(scope_names(scopes), ","@)
}

/// The audit summary of a revocation.
pub open spec fn revoke_summary(id: AiAuthorizationId) -> Seq<char> {
    "revoke authorization="@ + uuid_text(id.value)
}

/// Whether `a` records a successful change of grant `auth` of kind `kind`
/// with summary `summary`.
pub open spec fn grant_change_recorded(
    a: AiActionView,
    auth: AuthorizationView,
    kind: AiActionType,
    summary: Seq<char>,
) -> bool {
    &&& a.authorization_id == Some(auth.id)
    &&& a.subject_user_id == Some(auth.subject_user_id)
    &&& a.action_type == kind
    &&& a.input_summary == audit_text(summary)
    &&& a.result == AiActionResult::Succeeded
    &&& a.order_id is None
    &&& a.error_code is None
}

/// What `require_scope` answers for a grant store at time `now`.
pub open spec fn scope_check_at(
    store: InMemoryAiRepository,
    id: AiAuthorizationId,
    scope: AiScope,
    now: i64,
) -> Result<AuthorizationView, AiError> {
    if !store.authorizations().contains_key(id) {
        Err(AiError::AuthorizationNotFound)
    } else {
        let auth = store.authorizations()[id];
        match auth.check_scope(scope, now) {
            Ok(()) => Ok(auth),
            Err(e) => Err(e),
        }
    }
}

/// The view of a result that carries a grant.
pub open spec fn grant_result_view(r: Result<Authorization, AiError>) -> Result<AuthorizationView, AiError> {
    match r {
        Ok(a) => Ok(a@),
        Err(e) => Err(e),
    }
}

pub struct AiAuthorizationService {
    repository: InMemoryAiRepository,
}

impl AiAuthorizationService {
    pub closed spec fn store(&self) -> InMemoryAiRepository {
        self.repository
    }

    pub open spec fn wf(&self) -> bool {
        self.store().wf()
    }

    pub fn new(repository: InMemoryAiRepository) -> (r: Self)
        ensures
            r.store() == repository,
    {
        AiAuthorizationService { repository }
    }

    pub fn repository(&self) -> (r: &InMemoryAiRepository)
        ensures
            *r == self.store(),
    {
        &self.repository
    }

    fn push_scope_list(text: &mut String, scopes: &Vec<AiScope>)
        ensures
            final(text)@ == old(text)@ + join_with(scope_names(scopes@), ","@),
    {
        let mut i: usize = 0;
        let ghost start = old(text)@;
        while i < scopes.len()
            invariant
                i <= scopes@.len(),
                text@ == start + join_with(scope_names(scopes@.take(i as int)), ","@),
            decreases scopes@.len() - i,
        {
            proof {
                let names = scope_names(scopes@.take(i + 1));
                assert(scopes@.take(i + 1).drop_last() =~= scopes@.take(i as int));
                assert(names.drop_last() =~= scope_names(scopes@.take(i as int)));
                assert(names.last() == scope_name(scopes@[i as int]));
            }
            if i > 0 {
                text.push_str(",");
            }
            text.push_str(scopes[i].as_api_str());
            i = i + 1;
        }
        assert(scopes@.take(i as int) =~= scopes@);
    }

    /// Grants `scopes` to the client `client` on behalf of `subject` until
    /// `expires_at`, stores the grant and records it in the audit trail.
    pub fn authorize(
        &mut self,
        subject: UserId,
        client: &str,
        scopes: &[AiScope],
        expires_at: i64,
    ) -> (r: Result<Authorization, AiError>)
        requires
            old(self).wf(),
        ensures
            final(self).wf(),
            trim_ws(client@).len() == 0 ==> r == Err::<Authorization, AiError>(
                AiError::BlankClientId,
            ) && final(self).store() == old(self).store(),
            trim_ws(client@).len() > 0 ==> (r matches Ok(a) && {
                &&& a@.subject_user_id == subject
                &&& a@.client_id == trim_ws(client@)
                &&& a@.scopes == canonical_scopes(scopes@.to_set())
                &&& a@.expires_at == expires_at
                &&& a@.revoked_at is None
                &&& final(self).store().authorizations() == old(self).store().authorizations().insert(
                    a@.id,
                    a@,
                )
                &&& final(self).store().actions().len() == old(self).store().actions().len() + 1
                &&& final(self).store().actions().drop_last() == old(self).store().actions()
                &&& grant_change_recorded(
                    final(self).store().actions().last(),
                    a@,
                    AiActionType::Authorize,
                    authorize_summary(a@.client_id, a@.scopes),
                )
                &&& final(self).store().policies() == old(self).store().policies()
                &&& final(self).store().auto_purchase_switches() == old(
                    self,
                ).store().auto_purchase_switches()
                &&& final(self).store().spend() == old(self).store().spend()
            }),
    {
        let client_id = AiClientId::parse(client)?;
        let authorization = Authorization::new(subject, client_id, scopes, expires_at);
        let stored = authorization.clone();
        match self.repository.save_authorization(stored) {
            Ok(()) => {},
            Err(e) => return Err(AiError::Repository(e)),
        }
        let mut summary = String::new();
        summary.push_str("authorize client=");
        summary.push_str(authorization.client_id().as_str());
        summary.push_str(" scopes=");
        let granted = authorization.scopes();
        Self::push_scope_list(&mut summary, &granted);
        let action = AiAction::new(
            AiActionRecord {
                authorization_id: Some(authorization.id()),
                subject_user_id: Some(subject),
                action_type: AiActionType::Authorize,
                input_summary: summary,
                result: AiActionResult::Succeeded,
                request_id: new_request_id(),
                order_id: None,
                error_code: None,
            },
        );
        self.persist_action(action)?;
        Ok(authorization)
    }

    /// Revoking grant `authorization_id` at `now` took the service from
    /// `before` to `self` and answered `r`: an unknown grant is not found and
    /// nothing changes; otherwise the grant is stored revoked, keeping a first
    /// revocation time, and the revocation is audited.
    pub open spec fn revoked(
        &self,
        before: &Self,
        authorization_id: AiAuthorizationId,
        now: i64,
        r: Result<Authorization, AiError>,
    ) -> bool {
        if !before.store().authorizations().contains_key(authorization_id) {
            r == Err::<Authorization, AiError>(AiError::AuthorizationNotFound) && self.store()
                == before.store()
        } else {
            r matches Ok(a) && {
                let grant = before.store().authorizations()[authorization_id];
                &&& a@.id == authorization_id
                &&& a@ == AuthorizationView {
                    revoked_at: if grant.revoked_at is Some {
                        grant.revoked_at
                    } else {
                        Some(now)
                    },
                    ..grant
                }
                &&& self.store().authorizations() == before.store().authorizations().insert(
                    authorization_id,
                    a@,
                )
                &&& self.store().actions().len() == before.store().actions().len() + 1
                &&& self.store().actions().drop_last() == before.store().actions()
                &&& grant_change_recorded(
                    self.store().actions().last(),
                    a@,
                    AiActionType::Revoke,
                    revoke_summary(authorization_id),
                )
                &&& self.store().policies() == before.store().policies()
                &&& self.store().auto_purchase_switches() == before.store().auto_purchase_switches()
                &&& self.store().spend() == before.store().spend()
            }
        }
    }

    /// Revokes grant `authorization_id` at `now`, stores it and records the
    /// revocation; a grant that was already revoked keeps its first revocation time.
    pub fn revoke_at(&mut self, authorization_id: AiAuthorizationId, now: i64) -> (r: Result<
        Authorization,
        AiError,
    >)
        requires
            old(self).wf(),
        ensures
            final(self).wf(),
            final(self).revoked(old(self), authorization_id, now, r),
    {
        let mut authorization = self.load(authorization_id)?;
        authorization.revoke(now);
        let stored = authorization.clone();
        match self.repository.save_authorization(stored) {
            Ok(()) => {},
            Err(e) => return Err(AiError::Repository(e)),
        }
        let mut summary = String::new();
        summary.push_str("revoke authorization=");
        summary.push_str(id_text(authorization.id().as_u128()).as_str());
        let action = AiAction::new(
            AiActionRecord {
                authorization_id: Some(authorization.id()),
                subject_user_id: Some(authorization.subject_user_id()),
                action_type: AiActionType::Revoke,
                input_summary: summary,
                result: AiActionResult::Succeeded,
                request_id: new_request_id(),
                order_id: None,
                error_code: None,
            },
        );
        self.persist_action(action)?;
        Ok(authorization)
    }

    /// Revokes grant `authorization_id` now, as `revoke_at` does.
    pub fn revoke(&mut self, authorization_id: AiAuthorizationId) -> (r: Result<
        Authorization,
        AiError,
    >)
        requires
            old(self).wf(),
        ensures
            final(self).wf(),
            exists|now: i64| final(self).revoked(old(self), authorization_id, now, r),
    {
        self.revoke_at(authorization_id, now_millis())
    }

    /// The grant `authorization_id` as of `now`, when it is unrevoked,
    /// unexpired and holds `scope`.
    pub fn require_scope_at(&self, authorization_id: AiAuthorizationId, scope: AiScope, now: i64) -> (r:
        Result<Authorization, AiError>)
        requires
            self.wf(),
        ensures
            grant_result_view(r) == scope_check_at(self.store(), authorization_id, scope, now),
            r matches Ok(a) ==> a@.id == authorization_id,
    {
        let authorization = self.load(authorization_id)?;
        authorization.require_scope(scope, now)?;
        Ok(authorization)
    }

    /// The grant `authorization_id`, checked as `require_scope_at` does at the
    /// time of the call: expired and revoked grants are refused before any
    /// cart or order write.
    pub fn require_scope(&self, authorization_id: AiAuthorizationId, scope: AiScope) -> (r: Result<
        Authorization,
        AiError,
    >)
        requires
            self.wf(),
        ensures
            exists|now: i64| grant_result_view(r) == scope_check_at(self.store(), authorization_id, scope, now),
    {
        let now = now_millis();
        self.require_scope_at(authorization_id, scope, now)
    }

    pub fn save_policy(&mut self, user_id: UserId, policy: PurchasePolicy) -> (r: Result<(), AiError>)
        requires
            old(self).wf(),
        ensures
            final(self).wf(),
            r is Ok,
            final(self).store().policies() == old(self).store().policies().insert(user_id, policy),
            final(self).store().authorizations() == old(self).store().authorizations(),
            final(self).store().auto_purchase_switches() == old(self).store().auto_purchase_switches(),
            final(self).store().actions() == old(self).store().actions(),
            final(self).store().spend() == old(self).store().spend(),
    {
        match self.repository.save_policy(user_id, policy) {
            Ok(()) => Ok(()),
            Err(e) => Err(AiError::Repository(e)),
        }
    }

    pub fn set_auto_purchase_enabled(&mut self, user_id: UserId, enabled: bool) -> (r: Result<
        (),
        AiError,
    >)
        requires
            old(self).wf(),
        ensures
            final(self).wf(),
            r is Ok,
            final(self).store().auto_purchase_switches() == old(
                self,
            ).store().auto_purchase_switches().insert(user_id, enabled),
            final(self).store().authorizations() == old(self).store().authorizations(),
            final(self).store().policies() == old(self).store().policies(),
            final(self).store().actions() == old(self).store().actions(),
            final(self).store().spend() == old(self).store().spend(),
    {
        match self.repository.set_auto_purchase_enabled(user_id, enabled) {
            Ok(()) => Ok(()),
            Err(e) => Err(AiError::Repository(e)),
        }
    }

    pub fn is_auto_purchase_enabled(&self, user_id: UserId) -> (r: Result<bool, AiError>)
        ensures
            r == Ok::<bool, AiError>(self.store().auto_purchase_on(user_id)),
    {
        match self.repository.is_auto_purchase_enabled(user_id) {
            Ok(enabled) => Ok(enabled),
            Err(e) => Err(AiError::Repository(e)),
        }
    }

    /// The audit entries about `user_id`, oldest first.
    pub fn list_actions(&self, user_id: UserId) -> (r: Result<Vec<AiAction>, AiError>)
        ensures
            r matches Ok(list) && action_views(list@) == self.store().actions().filter(
                action_of(user_id),
            ),
    {
        match self.repository.list_actions(user_id) {
            Ok(list) => Ok(list),
            Err(e) => Err(AiError::Repository(e)),
        }
    }

    fn load(&self, authorization_id: AiAuthorizationId) -> (r: Result<Authorization, AiError>)
        requires
            self.wf(),
        ensures
            self.store().authorizations().contains_key(authorization_id) ==> (r matches Ok(a)
                && a@ == self.store().authorizations()[authorization_id] && a@.id == authorization_id),
            !self.store().authorizations().contains_key(authorization_id) ==> r == Err::<
                Authorization,
                AiError,
            >(AiError::AuthorizationNotFound),
    {
        match self.repository.find_authorization(authorization_id) {
            Ok(Some(a)) => Ok(a),
            Ok(None) => Err(AiError::AuthorizationNotFound),
            Err(e) => Err(AiError::Repository(e)),
        }
    }

    pub fn repository_mut(&mut self) -> (r: &mut InMemoryAiRepository)
        ensures
            *r == old(self).store(),
            final(self).store() == *final(r),
    {
        &mut self.repository
    }

    fn persist_action(&mut self, action: AiAction) -> (r: Result<(), AiError>)
        requires
            old(self).wf(),
        ensures
            final(self).wf(),
            r is Ok,
            final(self).store().actions() == old(self).store().actions().push(action@),
            final(self).store().actions().drop_last() == old(self).store().actions(),
            final(self).store().same_except_actions(&old(self).store()),
    {
        let saved = self.repository.save_action(action);
        assert(self.store().actions().drop_last() =~= old(self).store().actions());
        match saved {
            Ok(()) => Ok(()),
            Err(e) => Err(AiError::Repository(e)),
        }
    }
}

} // verus!
