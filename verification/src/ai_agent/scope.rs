//! Scopes that an AI client may be granted, client ids, and grants.

use vstd::prelude::*;

use super::errors::AiError;
use crate::ids::{AiAuthorizationId, UserId};
use crate::text::{str_equal, trim_ws};

verus! {

/// A permission an AI client can hold. Each scope is checked on its own:
/// `OrderCreate` does not include `AutoPurchase`.
#[derive(Clone, Copy, Debug, PartialEq, Eq, Hash, PartialOrd, Ord, Structural)]
pub enum AiScope {
    CatalogRead,
    CartRead,
    CartWrite,
    CheckoutPreview,
    OrderCreate,
    OrderRead,
    AutoPurchase,
}

/// The API string of each scope.
pub open spec fn scope_name(s: AiScope) -> Seq<char> {
    match s {
        AiScope::CatalogRead => "catalog:read"@,
        AiScope::CartRead => "cart:read"@,
        AiScope::CartWrite => "cart:write"@,
        AiScope::CheckoutPreview => "checkout:preview"@,
        AiScope::OrderCreate => "order:create"@,
        AiScope::OrderRead => "order:read"@,
        AiScope::AutoPurchase => "order:auto_purchase"@,
    }
}

/// `value`, once trimmed, is the API string of some scope.
pub open spec fn is_scope_string(value: Seq<char>) -> bool {
    exists|s: AiScope| scope_name(s) == trim_ws(value)
}

/// The position of each scope in declaration order.
pub open spec fn scope_rank(s: AiScope) -> int {
    match s {
        AiScope::CatalogRead => 0,
        AiScope::CartRead => 1,
        AiScope::CartWrite => 2,
        AiScope::CheckoutPreview => 3,
        AiScope::OrderCreate => 4,
        AiScope::OrderRead => 5,
        AiScope::AutoPurchase => 6,
    }
}

/// All scopes, in declaration order.
pub open spec fn all_scopes() -> Seq<AiScope> {
    seq![
        AiScope::CatalogRead,
        AiScope::CartRead,
        AiScope::CartWrite,
        AiScope::CheckoutPreview,
        AiScope::OrderCreate,
        AiScope::OrderRead,
        AiScope::AutoPurchase,
    ]
}

impl AiScope {
    pub fn as_api_str(self) -> (r: &'static str)
        ensures
            r@ == scope_name(self),
    {
        match self {
            AiScope::CatalogRead => "catalog:read",
            AiScope::CartRead => "cart:read",
            AiScope::CartWrite => "cart:write",
            AiScope::CheckoutPreview => "checkout:preview",
            AiScope::OrderCreate => "order:create",
            AiScope::OrderRead => "order:read",
            AiScope::AutoPurchase => "order:auto_purchase",
        }
    }

    /// Parses an API scope string, ignoring surrounding white space.
    pub fn parse(value: &str) -> (r: Result<AiScope, AiError>)
        ensures
            r matches Ok(s) ==> scope_name(s) == trim_ws(value@),
            r is Err ==> r == Err::<AiScope, AiError>(AiError::UnknownScope) && forall|s: AiScope|
                scope_name(s) != trim_ws(value@),
    {
        let v = value.trim();
        let mut i: usize = 0;
        let scopes = [
            AiScope::CatalogRead,
            AiScope::CartRead,
            AiScope::CartWrite,
            AiScope::CheckoutPreview,
            AiScope::OrderCreate,
            AiScope::OrderRead,
            AiScope::AutoPurchase,
        ];
        while i < 7
            invariant
                v@ == trim_ws(value@),
                i <= 7,
                scopes@ == all_scopes(),
                forall|j: int| 0 <= j < i ==> scope_name(#[trigger] all_scopes()[j]) != v@,
            decreases 7 - i,
        {
            let s = scopes[i];
            if str_equal(v, s.as_api_str()) {
                return Ok(s);
            }
            i = i + 1;
        }
        proof {
            assert forall|s: AiScope| scope_name(s) != trim_ws(value@) by {
                assert(all_scopes()[scope_rank(s)] == s);
            }
        }
        Err(AiError::UnknownScope)
    }

    /// Parses every string; the first that is not a scope fails the whole list.
    pub fn parse_all(values: &[String]) -> (r: Result<Vec<AiScope>, AiError>)
        ensures
            r is Ok <==> forall|i: int| 0 <= i < values@.len() ==> is_scope_string(#[trigger] values@[i]@),
            r is Err ==> r == Err::<Vec<AiScope>, AiError>(AiError::UnknownScope),
            r matches Ok(scopes) ==> scopes@.len() == values@.len() && forall|i: int|
                0 <= i < values@.len() ==> scope_name(#[trigger] scopes@[i]) == trim_ws(
                    values@[i]@,
                ),
    {
        let mut out: Vec<AiScope> = Vec::new();
        let mut i: usize = 0;
        while i < values.len()
            invariant
                i <= values@.len(),
                out@.len() == i,
                forall|j: int| 0 <= j < i ==> scope_name(#[trigger] out@[j]) == trim_ws(values@[j]@),
            decreases values@.len() - i,
        {
            match AiScope::parse(values[i].as_str()) {
                Ok(s) => out.push(s),
                Err(e) => {
                    proof {
                        assert(!is_scope_string(values@[i as int]@));
                    }
                    return Err(e);
                },
            }
            i = i + 1;
        }
        proof {
            assert forall|j: int| 0 <= j < values@.len() implies is_scope_string(
                #[trigger] values@[j]@,
            ) by {
                assert(scope_name(out@[j]) == trim_ws(values@[j]@));
            }
        }
        Ok(out)
    }
}

/// The API strings of distinct scopes differ, and have no surrounding white
/// space: parsing the API string of a scope gives that scope back.
pub proof fn lemma_scope_names_round_trip(s: AiScope, t: AiScope)
    ensures
        trim_ws(scope_name(s)) == scope_name(s),
        scope_name(s) == scope_name(t) ==> s == t,
{
    reveal_strlit("catalog:read");
    reveal_strlit("cart:read");
    reveal_strlit("cart:write");
    reveal_strlit("checkout:preview");
    reveal_strlit("order:create");
    reveal_strlit("order:read");
    reveal_strlit("order:auto_purchase");
    let n = scope_name(s);
    assert(!crate::text::is_white_space(n[0]));
    assert(!crate::text::is_white_space(n.last()));
    if scope_name(s) == scope_name(t) && s != t {
        let m = scope_name(t);
        assert(n.len() == m.len());
        assert(n[n.len() - 2] == m[m.len() - 2]);
        assert(n[n.len() - 4] == m[m.len() - 4]);
        assert(n[0] == m[0]);
        assert(n[n.len() - 1] == m[m.len() - 1]);
    }
}

/// The id an AI client presents; never blank.
#[derive(Debug, PartialEq, Eq)]
pub struct AiClientId {
    value: String,
}

impl View for AiClientId {
    type V = Seq<char>;

    closed spec fn view(&self) -> Seq<char> {
        self.value@
    }
}

impl Clone for AiClientId {
    fn clone(&self) -> (r: Self)
        ensures
            r@ == self@,
    {
        AiClientId { value: self.value.clone() }
    }
}

/// A parsed client id parses back to itself: its text is already trimmed
/// and not blank.
pub proof fn lemma_client_id_round_trip(value: Seq<char>)
    requires
        trim_ws(value).len() > 0,
    ensures
        trim_ws(trim_ws(value)) == trim_ws(value),
        trim_ws(trim_ws(value)).len() > 0,
{
    crate::text::lemma_trim_idempotent(value);
}

impl AiClientId {
    /// The trimmed client id; a blank one is refused.
    pub fn parse(value: &str) -> (r: Result<AiClientId, AiError>)
        ensures
            r is Err <==> trim_ws(value@).len() == 0,
            r is Err ==> r == Err::<AiClientId, AiError>(AiError::BlankClientId),
            r matches Ok(id) ==> id@ == trim_ws(value@),
    {
        let v = value.trim();
        if v.is_empty() {
            return Err(AiError::BlankClientId);
        }
        Ok(AiClientId { value: v.to_owned() })
    }

    pub fn as_str(&self) -> (r: &str)
        ensures
            r@ == self@,
    {
        self.value.as_str()
    }
}

/// A grant of scopes by a user to an AI client, until it expires or is revoked.
#[derive(Debug, PartialEq, Eq)]
pub struct Authorization {
    id: AiAuthorizationId,
    subject_user_id: UserId,
    client_id: AiClientId,
    scopes: Vec<AiScope>,
    expires_at: i64,
    revoked_at: Option<i64>,
}

pub struct AuthorizationView {
    pub id: AiAuthorizationId,
    pub subject_user_id: UserId,
    pub client_id: Seq<char>,
    /// The granted scopes, each once, in declaration order.
    pub scopes: Seq<AiScope>,
    /// Milliseconds since the epoch at which the grant stops working.
    pub expires_at: i64,
    pub revoked_at: Option<i64>,
}

/// The scopes of `all_scopes` that `granted` holds, in declaration order.
pub open spec fn canonical_scopes(granted: Set<AiScope>) -> Seq<AiScope> {
    all_scopes().filter(|s: AiScope| granted.contains(s))
}

impl AuthorizationView {
    pub open spec fn has_scope(self, scope: AiScope) -> bool {
        self.scopes.contains(scope)
    }

    pub open spec fn is_expired(self, now: i64) -> bool {
        now >= self.expires_at
    }

    /// What `Authorization::require_scope` answers: a revoked grant first, then
    /// an expired one, then a grant without the scope, is refused.
    pub open spec fn check_scope(self, scope: AiScope, now: i64) -> Result<(), AiError> {
        if self.revoked_at is Some {
            Err(AiError::AuthorizationRevoked)
        } else if self.is_expired(now) {
            Err(AiError::AuthorizationExpired)
        } else if !self.has_scope(scope) {
            Err(AiError::MissingScope { required: scope })
        } else {
            Ok(())
        }
    }
}

impl View for Authorization {
    type V = AuthorizationView;

    closed spec fn view(&self) -> AuthorizationView {
        AuthorizationView {
            id: self.id,
            subject_user_id: self.subject_user_id,
            client_id: self.client_id@,
            scopes: self.scopes@,
            expires_at: self.expires_at,
            revoked_at: self.revoked_at,
        }
    }
}

impl Clone for Authorization {
    fn clone(&self) -> (r: Self)
        ensures
            r@ == self@,
    {
        let mut scopes: Vec<AiScope> = Vec::new();
        let mut i: usize = 0;
        while i < self.scopes.len()
            invariant
                i <= self.scopes@.len(),
                scopes@ == self.scopes@.take(i as int),
            decreases self.scopes@.len() - i,
        {
            scopes.push(self.scopes[i]);
            i = i + 1;
            assert(scopes@ =~= self.scopes@.take(i as int));
        }
        assert(scopes@ =~= self.scopes@);
        Authorization {
            id: self.id,
            subject_user_id: self.subject_user_id,
            client_id: self.client_id.clone(),
            scopes,
            expires_at: self.expires_at,
            revoked_at: self.revoked_at,
        }
    }
}

fn holds_scope(scopes: &[AiScope], scope: AiScope) -> (r: bool)
    ensures
        r == scopes@.contains(scope),
{
    let mut i: usize = 0;
    while i < scopes.len()
        invariant
            i <= scopes@.len(),
            forall|j: int| 0 <= j < i ==> scopes@[j] != scope,
        decreases scopes@.len() - i,
    {
        if scopes[i] == scope {
            assert(scopes@[i as int] == scope);
            return true;
        }
        i = i + 1;
    }
    false
}

impl Authorization {
    /// A fresh, unrevoked grant of `scopes` to `client_id` on behalf of
    /// `subject_user_id`, valid until `expires_at`.
    pub fn new(
        subject_user_id: UserId,
        client_id: AiClientId,
        scopes: &[AiScope],
        expires_at: i64,
    ) -> (r: Authorization)
        ensures
            r@.subject_user_id == subject_user_id,
            r@.client_id == client_id@,
            r@.scopes == canonical_scopes(scopes@.to_set()),
            r@.expires_at == expires_at,
            r@.revoked_at is None,
    {
        let all = [
            AiScope::CatalogRead,
            AiScope::CartRead,
            AiScope::CartWrite,
            AiScope::CheckoutPreview,
            AiScope::OrderCreate,
            AiScope::OrderRead,
            AiScope::AutoPurchase,
        ];
        let ghost granted = scopes@.to_set();
        let ghost pick = |s: AiScope| granted.contains(s);
        let mut held: Vec<AiScope> = Vec::new();
        let mut i: usize = 0;
        while i < 7
            invariant
                i <= 7,
                all@ == all_scopes(),
                granted == scopes@.to_set(),
                pick == (|s: AiScope| granted.contains(s)),
                held@ == all_scopes().take(i as int).filter(pick),
            decreases 7 - i,
        {
            proof {
                reveal(Seq::filter);
                assert(all_scopes().take(i + 1).drop_last() =~= all_scopes().take(i as int));
            }
            if holds_scope(scopes, all[i]) {
                held.push(all[i]);
            }
            i = i + 1;
        }
        proof {
            assert(all_scopes().take(7) =~= all_scopes());
        }
        Authorization {
            id: AiAuthorizationId::new(),
            subject_user_id,
            client_id,
            scopes: held,
            expires_at,
            revoked_at: None,
        }
    }

    pub fn id(&self) -> (r: AiAuthorizationId)
        ensures
            r == self@.id,
    {
        self.id
    }

    pub fn subject_user_id(&self) -> (r: UserId)
        ensures
            r == self@.subject_user_id,
    {
        self.subject_user_id
    }

    pub fn client_id(&self) -> (r: &AiClientId)
        ensures
            r@ == self@.client_id,
    {
        &self.client_id
    }

    /// The granted scopes in declaration order.
    pub fn scopes(&self) -> (r: Vec<AiScope>)
        ensures
            r@ == self@.scopes,
    {
        let mut out: Vec<AiScope> = Vec::new();
        let mut i: usize = 0;
        while i < self.scopes.len()
            invariant
                i <= self.scopes@.len(),
                out@ == self.scopes@.take(i as int),
            decreases self.scopes@.len() - i,
        {
            out.push(self.scopes[i]);
            i = i + 1;
            assert(out@ =~= self.scopes@.take(i as int));
        }
        assert(out@ =~= self.scopes@);
        out
    }

    pub fn expires_at(&self) -> (r: i64)
        ensures
            r == self@.expires_at,
    {
        self.expires_at
    }

    pub fn revoked_at(&self) -> (r: Option<i64>)
        ensures
            r == self@.revoked_at,
    {
        self.revoked_at
    }

    /// A grant stops working from its expiry instant on.
    pub fn is_expired(&self, now: i64) -> (r: bool)
        ensures
            r == self@.is_expired(now),
    {
        now >= self.expires_at
    }

    pub fn is_revoked(&self) -> (r: bool)
        ensures
            r == (self@.revoked_at is Some),
    {
        self.revoked_at.is_some()
    }

    /// Whether `scope` itself was granted; no scope implies another.
    pub fn has_scope(&self, scope: AiScope) -> (r: bool)
        ensures
            r == self@.has_scope(scope),
    {
        holds_scope(self.scopes.as_slice(), scope)
    }

    /// Succeeds only for an unrevoked, unexpired grant that holds `scope`.
    pub fn require_scope(&self, scope: AiScope, now: i64) -> (r: Result<(), AiError>)
        ensures
            r == self@.check_scope(scope, now),
    {
        if self.is_revoked() {
            return Err(AiError::AuthorizationRevoked);
        }
        if self.is_expired(now) {
            return Err(AiError::AuthorizationExpired);
        }
        if !self.has_scope(scope) {
            return Err(AiError::MissingScope { required: scope });
        }
        Ok(())
    }

    /// Revokes the grant at `revoked_at`; a grant already revoked keeps its
    /// first revocation time.
    pub fn revoke(&mut self, revoked_at: i64)
        ensures
            final(self)@ == (AuthorizationView {
                revoked_at: if old(self)@.revoked_at is Some {
                    old(self)@.revoked_at
                } else {
                    Some(revoked_at)
                },
                ..old(self)@
            }),
    {
        if self.revoked_at.is_none() {
            self.revoked_at = Some(revoked_at);
        }
    }
}

} // verus!
