//! The in-memory store of grants, policies, audit actions and spend.

use std::collections::HashMap;

use vstd::prelude::*;

use super::action::{AiAction, AiActionView};
use super::policy::PurchasePolicy;
use super::scope::{Authorization, AuthorizationView};
use crate::ids::{AiAuthorizationId, UserId};

use crate::text::copy_str;
verus! {

broadcast use vstd::std_specs::hash::group_hash_axioms;

#[derive(Clone, Copy, Debug, PartialEq, Eq, Structural)]
pub enum AiRepositoryError {
    OperationFailed,
}

/// An amount a user spent through auto-purchase, and when.
#[derive(Clone, Copy, Debug, PartialEq, Eq, Structural)]
pub struct SpendRecord {
    pub user_id: UserId,
    pub amount_minor: i64,
    pub at: i64,
}

/// `a + b`, held within the range of `i64`.
pub open spec fn saturating_sum(a: i64, b: i64) -> i64 {
    if a + b > i64::MAX {
        i64::MAX
    } else if a + b < i64::MIN {
        i64::MIN
    } else {
        (a + b) as i64
    }
}

/// `a + b`, held within the range of `i64`.
fn add_saturating(a: i64, b: i64) -> (r: i64)
    ensures
        r == saturating_sum(a, b),
{
    match a.checked_add(b) {
        Some(sum) => sum,
        None => if b > 0 {
            i64::MAX
        } else {
            i64::MIN
        },
    }
}

/// What `user` spent from `from` to `to`, both included, adding in the order
/// of the record and holding each partial sum within the range of `i64`.
pub open spec fn spent_between(records: Seq<SpendRecord>, user: UserId, from: i64, to: i64) -> i64
    decreases records.len(),
{
    if records.len() == 0 {
        0
    } else {
        let before = spent_between(records.drop_last(), user, from, to);
        let last = records.last();
        if last.user_id == user && last.at >= from && last.at <= to {
            saturating_sum(before, last.amount_minor)
        } else {
            before
        }
    }
}

/// A spend recorded for `user` at an instant inside `[from, to]` adds its
/// amount to what the user spent over that window; one outside the window,
/// or of another user, changes nothing.
pub proof fn lemma_recorded_spend_counts(records: Seq<SpendRecord>, record: SpendRecord, user: UserId, from: i64, to: i64)
    ensures
        spent_between(records.push(record), user, from, to) == if record.user_id == user && from
            <= record.at <= to {
            saturating_sum(spent_between(records, user, from, to), record.amount_minor)
        } else {
            spent_between(records, user, from, to)
        },
{
    assert(records.push(record).drop_last() =~= records);
}

/// Whether an action concerns `user`.
pub open spec fn action_of(user: UserId) -> spec_fn(AiActionView) -> bool {
    |a: AiActionView| a.subject_user_id == Some(user)
}

pub open spec fn action_views(actions: Seq<AiAction>) -> Seq<AiActionView> {
    actions.map_values(|a: AiAction| a@)
}

impl Clone for PurchasePolicy {
    fn clone(&self) -> (r: Self)
        ensures
            r.same_as(self),
    {
        let mut allowed_categories: Vec<String> = Vec::new();
        let mut i: usize = 0;
        while i < self.allowed_categories.len()
            invariant
                i <= self.allowed_categories@.len(),
                allowed_categories@ == self.allowed_categories@.take(i as int),
            decreases self.allowed_categories@.len() - i,
        {
            allowed_categories.push(self.allowed_categories[i].clone());
            i = i + 1;
            assert(allowed_categories@ =~= self.allowed_categories@.take(i as int));
        }
        assert(allowed_categories@ =~= self.allowed_categories@);
        PurchasePolicy {
            allowed_categories,
            max_order_minor: self.max_order_minor,
            max_daily_minor: self.max_daily_minor,
            max_monthly_minor: self.max_monthly_minor,
            max_shipping_minor: self.max_shipping_minor,
            allowed_seller_score: self.allowed_seller_score,
            require_price_reconfirmation: self.require_price_reconfirmation,
        }
    }
}

pub struct InMemoryAiRepository {
    authorizations: HashMap<u128, Authorization>,
    policies: HashMap<u128, PurchasePolicy>,
    auto_purchase_enabled: HashMap<u128, bool>,
    actions: Vec<AiAction>,
    spend: Vec<SpendRecord>,
}

impl InMemoryAiRepository {
    /// Grants by id.
    pub closed spec fn authorizations(&self) -> Map<AiAuthorizationId, AuthorizationView> {
        Map::new(
            |id: AiAuthorizationId| self.authorizations@.contains_key(id.value),
            |id: AiAuthorizationId| self.authorizations@[id.value]@,
        )
    }

    /// Purchase policies by user.
    pub closed spec fn policies(&self) -> Map<UserId, PurchasePolicy> {
        Map::new(
            |id: UserId| self.policies@.contains_key(id.value),
            |id: UserId| self.policies@[id.value],
        )
    }

    /// Auto-purchase switches by user.
    pub closed spec fn auto_purchase_switches(&self) -> Map<UserId, bool> {
        Map::new(
            |id: UserId| self.auto_purchase_enabled@.contains_key(id.value),
            |id: UserId| self.auto_purchase_enabled@[id.value],
        )
    }

    /// Audited actions, oldest first.
    pub closed spec fn actions(&self) -> Seq<AiActionView> {
        action_views(self.actions@)
    }

    /// Spend, oldest first.
    pub closed spec fn spend(&self) -> Seq<SpendRecord> {
        self.spend@
    }

    /// Auto-purchase is off for a user until switched on.
    pub open spec fn auto_purchase_on(&self, user: UserId) -> bool {
        self.auto_purchase_switches().contains_key(user) && self.auto_purchase_switches()[user]
    }

    /// Each grant is stored under its own id.
    pub closed spec fn wf(&self) -> bool {
        forall|k: u128| #[trigger]
            self.authorizations@.contains_key(k) ==> self.authorizations@[k]@.id.value == k
    }

    /// The views that nothing but grants changed.
    pub open spec fn same_except_authorizations(&self, other: &Self) -> bool {
        &&& self.policies() == other.policies()
        &&& self.auto_purchase_switches() == other.auto_purchase_switches()
        &&& self.actions() == other.actions()
        &&& self.spend() == other.spend()
    }

    /// The views that nothing but the audit trail changed.
    pub open spec fn same_except_actions(&self, other: &Self) -> bool {
        &&& self.authorizations() == other.authorizations()
        &&& self.policies() == other.policies()
        &&& self.auto_purchase_switches() == other.auto_purchase_switches()
        &&& self.spend() == other.spend()
    }

    pub fn new() -> (r: Self)
        ensures
            r.wf(),
            r.authorizations() == Map::<AiAuthorizationId, AuthorizationView>::empty(),
            r.policies() == Map::<UserId, PurchasePolicy>::empty(),
            r.auto_purchase_switches() == Map::<UserId, bool>::empty(),
            r.actions() == Seq::<AiActionView>::empty(),
            r.spend() == Seq::<SpendRecord>::empty(),
    {
        let r = InMemoryAiRepository {
            authorizations: HashMap::new(),
            policies: HashMap::new(),
            auto_purchase_enabled: HashMap::new(),
            actions: Vec::new(),
            spend: Vec::new(),
        };
        assert(r.authorizations() =~= Map::<AiAuthorizationId, AuthorizationView>::empty());
        assert(r.policies() =~= Map::<UserId, PurchasePolicy>::empty());
        assert(r.auto_purchase_switches() =~= Map::<UserId, bool>::empty());
        assert(r.actions() =~= Seq::<AiActionView>::empty());
        r
    }

    /// Stores `authorization` under its id.
    pub fn save_authorization(&mut self, authorization: Authorization) -> (r: Result<
        (),
        AiRepositoryError,
    >)
        requires
            old(self).wf(),
        ensures
            final(self).wf(),
            r is Ok,
            final(self).authorizations() == old(self).authorizations().insert(
                authorization@.id,
                authorization@,
            ),
            final(self).same_except_authorizations(old(self)),
    {
        let ghost av = authorization@;
        let key = authorization.id().as_u128();
        self.authorizations.insert(key, authorization);
        assert(self.authorizations() =~= old(self).authorizations().insert(av.id, av));
        assert(self.policies() =~= old(self).policies());
        assert(self.auto_purchase_switches() =~= old(self).auto_purchase_switches());
        Ok(())
    }

    /// The grant stored under `authorization_id`, if any.
    pub fn find_authorization(&self, authorization_id: AiAuthorizationId) -> (r: Result<
        Option<Authorization>,
        AiRepositoryError,
    >)
        requires
            self.wf(),
        ensures
            r matches Ok(found) && (match found {
                Some(a) => self.authorizations().contains_key(authorization_id) && a@
                    == self.authorizations()[authorization_id] && a@.id == authorization_id,
                None => !self.authorizations().contains_key(authorization_id),
            }),
    {
        match self.authorizations.get(&authorization_id.value) {
            Some(a) => Ok(Some(a.clone())),
            None => Ok(None),
        }
    }

    /// Stores the purchase policy of `user_id`.
    pub fn save_policy(&mut self, user_id: UserId, policy: PurchasePolicy) -> (r: Result<
        (),
        AiRepositoryError,
    >)
        requires
            old(self).wf(),
        ensures
            final(self).wf(),
            r is Ok,
            final(self).policies() == old(self).policies().insert(user_id, policy),
            final(self).authorizations() == old(self).authorizations(),
            final(self).auto_purchase_switches() == old(self).auto_purchase_switches(),
            final(self).actions() == old(self).actions(),
            final(self).spend() == old(self).spend(),
    {
        let ghost pv = policy;
        self.policies.insert(user_id.value, policy);
        assert(self.policies() =~= old(self).policies().insert(user_id, pv));
        assert(self.authorizations() =~= old(self).authorizations());
        assert(self.auto_purchase_switches() =~= old(self).auto_purchase_switches());
        Ok(())
    }

    /// The purchase policy of `user_id`, if any.
    pub fn find_policy(&self, user_id: UserId) -> (r: Result<Option<PurchasePolicy>, AiRepositoryError>)
        ensures
            r matches Ok(found) && (match found {
                Some(p) => self.policies().contains_key(user_id) && p.same_as(&self.policies()[user_id]),
                None => !self.policies().contains_key(user_id),
            }),
    {
        match self.policies.get(&user_id.value) {
            Some(p) => Ok(Some(p.clone())),
            None => Ok(None),
        }
    }

    /// Switches auto-purchase on or off for `user_id`.
    pub fn set_auto_purchase_enabled(&mut self, user_id: UserId, enabled: bool) -> (r: Result<
        (),
        AiRepositoryError,
    >)
        requires
            old(self).wf(),
        ensures
            final(self).wf(),
            r is Ok,
            final(self).auto_purchase_switches() == old(self).auto_purchase_switches().insert(
                user_id,
                enabled,
            ),
            final(self).authorizations() == old(self).authorizations(),
            final(self).policies() == old(self).policies(),
            final(self).actions() == old(self).actions(),
            final(self).spend() == old(self).spend(),
    {
        self.auto_purchase_enabled.insert(user_id.value, enabled);
        assert(self.auto_purchase_switches() =~= old(self).auto_purchase_switches().insert(
            user_id,
            enabled,
        ));
        assert(self.authorizations() =~= old(self).authorizations());
        assert(self.policies() =~= old(self).policies());
        Ok(())
    }

    /// Whether auto-purchase is on for `user_id`; off unless switched on.
    pub fn is_auto_purchase_enabled(&self, user_id: UserId) -> (r: Result<bool, AiRepositoryError>)
        ensures
            r == Ok::<bool, AiRepositoryError>(self.auto_purchase_on(user_id)),
    {
        match self.auto_purchase_enabled.get(&user_id.value) {
            Some(enabled) => Ok(*enabled),
            None => Ok(false),
        }
    }

    /// Appends `action` to the audit trail.
    pub fn save_action(&mut self, action: AiAction) -> (r: Result<(), AiRepositoryError>)
        requires
            old(self).wf(),
        ensures
            final(self).wf(),
            r is Ok,
            final(self).actions() == old(self).actions().push(action@),
            final(self).same_except_actions(old(self)),
    {
        let ghost av = action@;
        self.actions.push(action);
        assert(self.actions() =~= old(self).actions().push(av));
        assert(self.authorizations() =~= old(self).authorizations());
        assert(self.policies() =~= old(self).policies());
        assert(self.auto_purchase_switches() =~= old(self).auto_purchase_switches());
        Ok(())
    }

    /// The actions about `user_id`, oldest first.
    pub fn list_actions(&self, user_id: UserId) -> (r: Result<Vec<AiAction>, AiRepositoryError>)
        ensures
            r matches Ok(list) && action_views(list@) == self.actions().filter(action_of(user_id)),
    {
        let ghost all = self.actions();
        let ghost keep = action_of(user_id);
        let mut out: Vec<AiAction> = Vec::new();
        let mut i: usize = 0;
        while i < self.actions.len()
            invariant
                all == action_views(self.actions@),
                keep == action_of(user_id),
                i <= self.actions@.len(),
                action_views(out@) == all.take(i as int).filter(keep),
            decreases self.actions@.len() - i,
        {
            proof {
                reveal(Seq::filter);
                assert(all.take(i + 1).drop_last() =~= all.take(i as int));
                assert(all.take(i + 1).last() == self.actions@[i as int]@);
            }
            if self.actions[i].subject_user_id() == Some(user_id) {
                let ghost prior = out@;
                out.push(self.actions[i].clone());
                assert(action_views(out@) =~= action_views(prior).push(self.actions@[i as int]@));
            }
            i = i + 1;
        }
        assert(all.take(i as int) =~= all);
        Ok(out)
    }

    /// Records that `user_id` spent `amount_minor` at `at`.
    pub fn record_spend(&mut self, user_id: UserId, amount_minor: i64, at: i64) -> (r: Result<
        (),
        AiRepositoryError,
    >)
        requires
            old(self).wf(),
        ensures
            final(self).wf(),
            r is Ok,
            final(self).spend() == old(self).spend().push(SpendRecord { user_id, amount_minor, at }),
            final(self).authorizations() == old(self).authorizations(),
            final(self).policies() == old(self).policies(),
            final(self).auto_purchase_switches() == old(self).auto_purchase_switches(),
            final(self).actions() == old(self).actions(),
    {
        self.spend.push(SpendRecord { user_id, amount_minor, at });
        assert(self.authorizations() =~= old(self).authorizations());
        assert(self.policies() =~= old(self).policies());
        assert(self.auto_purchase_switches() =~= old(self).auto_purchase_switches());
        Ok(())
    }

    /// What `user_id` spent from `from` to `to`, both included.
    pub fn spend_between(&self, user_id: UserId, from: i64, to: i64) -> (r: Result<i64, AiRepositoryError>)
        ensures
            r == Ok::<i64, AiRepositoryError>(spent_between(self.spend(), user_id, from, to)),
    {
        let mut total: i64 = 0;
        let mut i: usize = 0;
        while i < self.spend.len()
            invariant
                i <= self.spend@.len(),
                total == spent_between(self.spend@.take(i as int), user_id, from, to),
            decreases self.spend@.len() - i,
        {
            let record = self.spend[i];
            proof {
                assert(self.spend@.take(i + 1).drop_last() =~= self.spend@.take(i as int));
                assert(self.spend@.take(i + 1).last() == record);
            }
            if record.user_id == user_id && record.at >= from && record.at <= to {
                total = add_saturating(total, record.amount_minor);
            }
            i = i + 1;
        }
        assert(self.spend@.take(i as int) =~= self.spend@);
        Ok(total)
    }
}

impl Default for InMemoryAiRepository {
    fn default() -> (r: Self)
        ensures
            r.wf(),
            r.authorizations() == Map::<AiAuthorizationId, AuthorizationView>::empty(),
            r.policies() == Map::<UserId, PurchasePolicy>::empty(),
            r.auto_purchase_switches() == Map::<UserId, bool>::empty(),
            r.actions() == Seq::<AiActionView>::empty(),
            r.spend() == Seq::<SpendRecord>::empty(),
    {
        InMemoryAiRepository::new()
    }
}

/// The text that describes each error.
pub open spec fn ai_repository_error_message(e: AiRepositoryError) -> Seq<char> {
    match e {
        AiRepositoryError::OperationFailed => "AI storage operation failed"@,
    }
}

impl AiRepositoryError {
    pub fn message(&self) -> (r: String)
        ensures
            r@ == ai_repository_error_message(*self),
    {
        match self {
            AiRepositoryError::OperationFailed => copy_str("AI storage operation failed"),
        }
    }
}

} // verus!
