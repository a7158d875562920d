//! The user's auto-purchase policy and the rule that decides each purchase.

use vstd::prelude::*;

use super::errors::AiError;

verus! {

/// Limits a user sets on purchases that an AI client makes without asking.
#[derive(Debug, PartialEq, Eq)]
pub struct PurchasePolicy {
    pub allowed_categories: Vec<String>,
    pub max_order_minor: i64,
    pub max_daily_minor: i64,
    pub max_monthly_minor: i64,
    pub max_shipping_minor: i64,
    pub allowed_seller_score: i32,
    pub require_price_reconfirmation: bool,
}

/// The facts of one intended purchase, taken from the catalog and the spend record.
#[derive(Debug, PartialEq, Eq)]
pub struct PurchaseEvaluation {
    pub category_id: String,
    pub seller_score: i32,
    pub order_total_minor: i64,
    pub shipping_minor: i64,
    pub daily_spent_minor: i64,
    pub monthly_spent_minor: i64,
    pub quoted_unit_price_minor: i64,
    pub catalog_unit_price_minor: i64,
    pub quoted_shipping_minor: i64,
    pub catalog_shipping_minor: i64,
}

pub struct PurchaseEvaluationView {
    pub category_id: Seq<char>,
    pub seller_score: i32,
    pub order_total_minor: i64,
    pub shipping_minor: i64,
    pub daily_spent_minor: i64,
    pub monthly_spent_minor: i64,
    pub quoted_unit_price_minor: i64,
    pub catalog_unit_price_minor: i64,
    pub quoted_shipping_minor: i64,
    pub catalog_shipping_minor: i64,
}

impl View for PurchaseEvaluation {
    type V = PurchaseEvaluationView;

    open spec fn view(&self) -> PurchaseEvaluationView {
        PurchaseEvaluationView {
            category_id: self.category_id@,
            seller_score: self.seller_score,
            order_total_minor: self.order_total_minor,
            shipping_minor: self.shipping_minor,
            daily_spent_minor: self.daily_spent_minor,
            monthly_spent_minor: self.monthly_spent_minor,
            quoted_unit_price_minor: self.quoted_unit_price_minor,
            catalog_unit_price_minor: self.catalog_unit_price_minor,
            quoted_shipping_minor: self.quoted_shipping_minor,
            catalog_shipping_minor: self.catalog_shipping_minor,
        }
    }
}

#[derive(Clone, Copy, Debug, PartialEq, Eq, Structural)]
pub enum PolicyReason {
    CategoryNotAllowed,
    SellerScoreTooLow,
    MaxOrderExceeded,
    MaxDailyExceeded,
    MaxMonthlyExceeded,
    MaxShippingExceeded,
    PriceChanged,
    ShippingChanged,
}

#[derive(Clone, Copy, Debug, PartialEq, Eq, Structural)]
pub enum PolicyDecision {
    Allowed,
    RequiresUserConfirmation { reason: PolicyReason },
    Blocked { reason: PolicyReason },
}

pub open spec fn reason_name(r: PolicyReason) -> Seq<char> {
    match r {
        PolicyReason::CategoryNotAllowed => "category_not_allowed"@,
        PolicyReason::SellerScoreTooLow => "seller_score_too_low"@,
        PolicyReason::MaxOrderExceeded => "max_order_exceeded"@,
        PolicyReason::MaxDailyExceeded => "max_daily_exceeded"@,
        PolicyReason::MaxMonthlyExceeded => "max_monthly_exceeded"@,
        PolicyReason::MaxShippingExceeded => "max_shipping_exceeded"@,
        PolicyReason::PriceChanged => "price_changed"@,
        PolicyReason::ShippingChanged => "shipping_changed"@,
    }
}

impl PolicyReason {
    pub fn as_str(&self) -> (r: &'static str)
        ensures
            r@ == reason_name(*self),
    {
        match self {
            PolicyReason::CategoryNotAllowed => "category_not_allowed",
            PolicyReason::SellerScoreTooLow => "seller_score_too_low",
            PolicyReason::MaxOrderExceeded => "max_order_exceeded",
            PolicyReason::MaxDailyExceeded => "max_daily_exceeded",
            PolicyReason::MaxMonthlyExceeded => "max_monthly_exceeded",
            PolicyReason::MaxShippingExceeded => "max_shipping_exceeded",
            PolicyReason::PriceChanged => "price_changed",
            PolicyReason::ShippingChanged => "shipping_changed",
        }
    }
}

/// `a` comes before `b` in the order of `String`s: by their characters'
/// code points, a proper prefix first.
pub open spec fn text_before(a: Seq<char>, b: Seq<char>) -> bool
    decreases a.len(),
{
    if a.len() == 0 {
        b.len() > 0
    } else if b.len() == 0 {
        false
    } else if a[0] != b[0] {
        a[0] < b[0]
    } else {
        text_before(a.drop_first(), b.drop_first())
    }
}

/// The texts that `c` holds.
pub open spec fn text_set(c: Seq<String>) -> Set<Seq<char>> {
    Set::new(|x: Seq<char>| exists|i: int| 0 <= i < c.len() && #[trigger] c[i]@ == x)
}

/// Each category comes before the next: sorted, and none twice.
pub open spec fn categories_sorted(c: Seq<String>) -> bool {
    forall|i: int, j: int| 0 <= i < j < c.len() ==> text_before(#[trigger] c[i]@, #[trigger] c[j]@)
}

proof fn lemma_text_before_asymmetric(a: Seq<char>, b: Seq<char>)
    ensures
        text_before(a, b) ==> !text_before(b, a),
    decreases a.len(),
{
    if a.len() > 0 && b.len() > 0 && a[0] == b[0] {
        lemma_text_before_asymmetric(a.drop_first(), b.drop_first());
    }
}

proof fn lemma_text_before_transitive(a: Seq<char>, b: Seq<char>, c: Seq<char>)
    requires
        text_before(a, b),
        text_before(b, c),
    ensures
        text_before(a, c),
    decreases a.len(),
{
    if a.len() > 0 && b.len() > 0 && c.len() > 0 && a[0] == b[0] && b[0] == c[0] {
        lemma_text_before_transitive(a.drop_first(), b.drop_first(), c.drop_first());
    }
}

proof fn lemma_text_before_total(a: Seq<char>, b: Seq<char>)
    ensures
        a == b || text_before(a, b) || text_before(b, a),
    decreases a.len(),
{
    if a.len() == 0 && b.len() == 0 {
        assert(a =~= b);
    } else if a.len() > 0 && b.len() > 0 && a[0] == b[0] {
        lemma_text_before_total(a.drop_first(), b.drop_first());
        if a.drop_first() == b.drop_first() {
            assert(a =~= seq![a[0]] + a.drop_first());
            assert(b =~= seq![b[0]] + b.drop_first());
        }
    }
}

proof fn lemma_sorted_drop_last(c: Seq<String>)
    requires
        categories_sorted(c),
        c.len() > 0,
    ensures
        categories_sorted(c.drop_last()),
        text_set(c.drop_last()) == text_set(c).remove(c.last()@),
        forall|x: Seq<char>| text_set(c).contains(x) && x != c.last()@ ==> text_before(x, c.last()@),
{
    let d = c.drop_last();
    let n = d.len() as int;
    assert forall|i: int, j: int| 0 <= i < j < d.len() implies text_before(#[trigger] d[i]@, #[trigger] d[j]@) by {
        assert(d[i] == c[i] && d[j] == c[j]);
    }
    assert forall|x: Seq<char>| text_set(c).contains(x) && x != c.last()@ implies text_before(x, c.last()@) by {
        let k = choose|k: int| 0 <= k < c.len() && #[trigger] c[k]@ == x;
        assert(k < n);
        assert(text_before(c[k]@, c[n]@));
    }
    assert(text_set(d) =~= text_set(c).remove(c.last()@)) by {
        assert forall|x: Seq<char>| text_set(d).contains(x) implies text_set(c).remove(c.last()@).contains(x) by {
            let k = choose|k: int| 0 <= k < d.len() && #[trigger] d[k]@ == x;
            assert(c[k] == d[k]);
            assert(text_before(c[k]@, c[n]@));
            lemma_text_before_asymmetric(c[k]@, c[n]@);
        }
        assert forall|x: Seq<char>| text_set(c).remove(c.last()@).contains(x) implies text_set(d).contains(x) by {
            let k = choose|k: int| 0 <= k < c.len() && #[trigger] c[k]@ == x;
            assert(k < n);
            assert(d[k] == c[k]);
        }
    }
}

/// Sorted category lists with the same categories are the same list: the
/// order in which categories were given does not matter.
pub proof fn lemma_sorted_categories_determined(a: Seq<String>, b: Seq<String>)
    requires
        categories_sorted(a),
        categories_sorted(b),
        text_set(a) == text_set(b),
    ensures
        a.len() == b.len(),
        forall|i: int| 0 <= i < a.len() ==> (#[trigger] a[i])@ == b[i]@,
    decreases a.len(),
{
    if a.len() == 0 {
        if b.len() > 0 {
            assert(text_set(b).contains(b[0]@));
        }
    } else if b.len() == 0 {
        assert(text_set(a).contains(a[0]@));
    } else {
        lemma_sorted_drop_last(a);
        lemma_sorted_drop_last(b);
        let x = a.last()@;
        let y = b.last()@;
        assert(text_set(a).contains(x));
        assert(text_set(b).contains(y));
        if x != y {
            assert(text_before(y, x));
            assert(text_before(x, y));
            lemma_text_before_asymmetric(x, y);
        }
        lemma_sorted_categories_determined(a.drop_last(), b.drop_last());
        assert forall|i: int| 0 <= i < a.len() implies (#[trigger] a[i])@ == b[i]@ by {
            if i < a.len() - 1 {
                assert(a[i] == a.drop_last()[i]);
                assert(b[i] == b.drop_last()[i]);
            }
        }
    }
}

/// Whether `a` comes before `b`.
fn text_is_before(a: &String, b: &String) -> (r: bool)
    ensures
        r == text_before(a@, b@),
{
    let x = crate::text::chars_of(a.as_str());
    let y = crate::text::chars_of(b.as_str());
    let mut i: usize = 0;
    assert(x@.skip(0) =~= x@);
    assert(y@.skip(0) =~= y@);
    while i < x.len() && i < y.len()
        invariant
            x@ == a@,
            y@ == b@,
            i <= x@.len(),
            i <= y@.len(),
            text_before(a@, b@) == text_before(x@.skip(i as int), y@.skip(i as int)),
        decreases x@.len() - i,
    {
        assert(x@.skip(i as int)[0] == x[i as int]);
        assert(y@.skip(i as int)[0] == y[i as int]);
        if x[i] != y[i] {
            return x[i] < y[i];
        }
        assert(x@.skip(i as int).drop_first() =~= x@.skip(i + 1));
        assert(y@.skip(i as int).drop_first() =~= y@.skip(i + 1));
        i = i + 1;
    }
    if i == x.len() {
        assert(x@.skip(i as int).len() == 0);
        i < y.len()
    } else {
        assert(y@.skip(i as int).len() == 0);
        false
    }
}

/// Adds `category` to the sorted categories `cats`, once.
fn insert_category(cats: &mut Vec<String>, category: String)
    requires
        categories_sorted(old(cats)@),
    ensures
        categories_sorted(final(cats)@),
        text_set(final(cats)@) == text_set(old(cats)@).insert(category@),
{
    let ghost x = category@;
    let mut i: usize = 0;
    while i < cats.len() && text_is_before(&cats[i], &category)
        invariant
            *cats == *old(cats),
            x == category@,
            i <= cats@.len(),
            categories_sorted(cats@),
            forall|k: int| 0 <= k < i ==> text_before(#[trigger] cats@[k]@, x),
        decreases cats@.len() - i,
    {
        i = i + 1;
    }
    if i < cats.len() && !text_is_before(&category, &cats[i]) {
        proof {
            lemma_text_before_total(cats@[i as int]@, x);
        }
        assert(cats@[i as int]@ == x);
        assert(text_set(cats@) =~= text_set(cats@).insert(x)) by {
            assert(text_set(cats@).contains(x));
        }
        return;
    }
    proof {
        if i < cats.len() {
            lemma_text_before_total(cats@[i as int]@, x);
        }
    }
    let ghost before = cats@;
    cats.insert(i, category);
    let ghost after = cats@;
    assert forall|a: int, b: int| 0 <= a < b < after.len() implies text_before(
        #[trigger] after[a]@,
        #[trigger] after[b]@,
    ) by {
        if b < i {
            assert(after[a] == before[a] && after[b] == before[b]);
        } else if b == i {
            assert(after[a] == before[a]);
        } else if a == i {
            assert(after[b] == before[b - 1]);
            if b - 1 > i {
                assert(text_before(before[i as int]@, before[b - 1]@));
                lemma_text_before_transitive(x, before[i as int]@, before[b - 1]@);
            }
        } else if a < i {
            assert(after[a] == before[a] && after[b] == before[b - 1]);
            assert(text_before(before[a]@, x));
            if b - 1 == i {
                lemma_text_before_transitive(before[a]@, x, before[i as int]@);
            } else {
                assert(text_before(before[i as int]@, before[b - 1]@));
                lemma_text_before_transitive(x, before[i as int]@, before[b - 1]@);
                lemma_text_before_transitive(before[a]@, x, before[b - 1]@);
            }
        } else {
            assert(after[a] == before[a - 1] && after[b] == before[b - 1]);
        }
    }
    assert(text_set(after) =~= text_set(before).insert(x)) by {
        assert forall|y: Seq<char>| text_set(after).contains(y) implies text_set(before).insert(x).contains(y) by {
            let k = choose|k: int| 0 <= k < after.len() && #[trigger] after[k]@ == y;
            if k < i {
                assert(after[k] == before[k]);
            } else if k > i {
                assert(after[k] == before[k - 1]);
            }
        }
        assert forall|y: Seq<char>| text_set(before).insert(x).contains(y) implies text_set(after).contains(y) by {
            if y == x {
                assert(after[i as int]@ == x);
            } else {
                let k = choose|k: int| 0 <= k < before.len() && #[trigger] before[k]@ == y;
                if k < i {
                    assert(after[k] == before[k]);
                } else {
                    assert(after[k + 1] == before[k]);
                }
            }
        }
    }
}

/// The categories of `given`, sorted, each once.
fn normalized_categories(given: Vec<String>) -> (r: Vec<String>)
    ensures
        categories_sorted(r@),
        text_set(r@) == text_set(given@),
{
    let mut out: Vec<String> = Vec::new();
    let mut i: usize = 0;
    assert(text_set(out@) =~= text_set(given@.take(0)));
    while i < given.len()
        invariant
            i <= given@.len(),
            categories_sorted(out@),
            text_set(out@) == text_set(given@.take(i as int)),
        decreases given@.len() - i,
    {
        let category = given[i].clone();
        insert_category(&mut out, category);
        assert(text_set(given@.take(i + 1)) =~= text_set(given@.take(i as int)).insert(given@[i as int]@)) by {
            let t1 = given@.take(i + 1);
            let t0 = given@.take(i as int);
            assert forall|y: Seq<char>| text_set(t1).contains(y) implies text_set(t0).insert(given@[i as int]@).contains(y) by {
                let k = choose|k: int| 0 <= k < t1.len() && #[trigger] t1[k]@ == y;
                if k < i {
                    assert(t0[k] == t1[k]);
                }
            }
            assert forall|y: Seq<char>| text_set(t0).insert(given@[i as int]@).contains(y) implies text_set(t1).contains(y) by {
                if y == given@[i as int]@ {
                    assert(t1[i as int] == given@[i as int]);
                } else {
                    let k = choose|k: int| 0 <= k < t0.len() && #[trigger] t0[k]@ == y;
                    assert(t1[k] == t0[k]);
                }
            }
        }
        i = i + 1;
    }
    assert(given@.take(i as int) =~= given@);
    out
}

/// Spending `additional` on top of `spent` passes `cap`, or leaves the range of `i64`.
pub open spec fn cap_exceeded(spent: i64, additional: i64, cap: i64) -> bool {
    spent + additional > cap || spent + additional < i64::MIN
}

fn exceeds_cap(spent_minor: i64, additional_minor: i64, cap_minor: i64) -> (r: bool)
    ensures
        r == cap_exceeded(spent_minor, additional_minor, cap_minor),
{
    match spent_minor.checked_add(additional_minor) {
        Some(total) => total > cap_minor,
        None => true,
    }
}

impl PurchasePolicy {
    /// The same categories and limits.
    pub open spec fn same_as(&self, other: &PurchasePolicy) -> bool {
        &&& self.allowed_categories@ == other.allowed_categories@
        &&& self.max_order_minor == other.max_order_minor
        &&& self.max_daily_minor == other.max_daily_minor
        &&& self.max_monthly_minor == other.max_monthly_minor
        &&& self.max_shipping_minor == other.max_shipping_minor
        &&& self.allowed_seller_score == other.allowed_seller_score
        &&& self.require_price_reconfirmation == other.require_price_reconfirmation
    }

    pub open spec fn allows_category(&self, category: Seq<char>) -> bool {
        exists|i: int| 0 <= i < self.allowed_categories@.len() && #[trigger] self.allowed_categories@[i]@ == category
    }

    /// The decision for `e`: the first rule that fails decides. Category,
    /// seller score and the order, daily and monthly caps block; shipping over
    /// the cap and, when reconfirmation is on, a changed price or shipping fee
    /// ask the user to confirm.
    pub open spec fn decide(&self, e: PurchaseEvaluationView) -> PolicyDecision {
        if !self.allows_category(e.category_id) {
            PolicyDecision::Blocked { reason: PolicyReason::CategoryNotAllowed }
        } else if e.seller_score < self.allowed_seller_score {
            PolicyDecision::Blocked { reason: PolicyReason::SellerScoreTooLow }
        } else if e.order_total_minor > self.max_order_minor {
            PolicyDecision::Blocked { reason: PolicyReason::MaxOrderExceeded }
        } else if cap_exceeded(e.daily_spent_minor, e.order_total_minor, self.max_daily_minor) {
            PolicyDecision::Blocked { reason: PolicyReason::MaxDailyExceeded }
        } else if cap_exceeded(e.monthly_spent_minor, e.order_total_minor, self.max_monthly_minor) {
            PolicyDecision::Blocked { reason: PolicyReason::MaxMonthlyExceeded }
        } else if e.shipping_minor > self.max_shipping_minor {
            PolicyDecision::RequiresUserConfirmation { reason: PolicyReason::MaxShippingExceeded }
        } else if self.require_price_reconfirmation && e.quoted_unit_price_minor
            != e.catalog_unit_price_minor {
            PolicyDecision::RequiresUserConfirmation { reason: PolicyReason::PriceChanged }
        } else if self.require_price_reconfirmation && e.quoted_shipping_minor
            != e.catalog_shipping_minor {
            PolicyDecision::RequiresUserConfirmation { reason: PolicyReason::ShippingChanged }
        } else {
            PolicyDecision::Allowed
        }
    }

    /// A policy over the given categories, kept sorted and each once, and the
    /// given limits; a negative limit is refused.
    pub fn new(
        allowed_categories: Vec<String>,
        max_order_minor: i64,
        max_daily_minor: i64,
        max_monthly_minor: i64,
        max_shipping_minor: i64,
        allowed_seller_score: i32,
        require_price_reconfirmation: bool,
    ) -> (r: Result<Self, AiError>)
        ensures
            r is Err <==> (max_order_minor < 0 || max_daily_minor < 0 || max_monthly_minor < 0
                || max_shipping_minor < 0),
            r is Err ==> r == Err::<Self, AiError>(AiError::InvalidPolicyAmount),
            r matches Ok(p) ==> {
                &&& categories_sorted(p.allowed_categories@)
                &&& text_set(p.allowed_categories@) == text_set(allowed_categories@)
                &&& p.max_order_minor == max_order_minor
                &&& p.max_daily_minor == max_daily_minor
                &&& p.max_monthly_minor == max_monthly_minor
                &&& p.max_shipping_minor == max_shipping_minor
                &&& p.allowed_seller_score == allowed_seller_score
                &&& p.require_price_reconfirmation == require_price_reconfirmation
            },
    {
        if max_order_minor < 0 || max_daily_minor < 0 || max_monthly_minor < 0
            || max_shipping_minor < 0 {
            return Err(AiError::InvalidPolicyAmount);
        }
        Ok(
            PurchasePolicy {
                allowed_categories: normalized_categories(allowed_categories),
                max_order_minor,
                max_daily_minor,
                max_monthly_minor,
                max_shipping_minor,
                allowed_seller_score,
                require_price_reconfirmation,
            },
        )
    }

    fn category_is_allowed(&self, category: &String) -> (r: bool)
        ensures
            r == self.allows_category(category@),
    {
        let mut i: usize = 0;
        while i < self.allowed_categories.len()
            invariant
                i <= self.allowed_categories@.len(),
                forall|j: int| 0 <= j < i ==> #[trigger] self.allowed_categories@[j]@ != category@,
            decreases self.allowed_categories@.len() - i,
        {
            if self.allowed_categories[i] == *category {
                assert(self.allowed_categories@[i as int]@ == category@);
                return true;
            }
            i = i + 1;
        }
        false
    }

    /// Decides a purchase; only this rule chooses between allowing it, asking
    /// the user, and blocking it.
    pub fn evaluate(&self, evaluation: &PurchaseEvaluation) -> (r: PolicyDecision)
        ensures
            r == self.decide(evaluation@),
    {
        if !self.category_is_allowed(&evaluation.category_id) {
            return PolicyDecision::Blocked { reason: PolicyReason::CategoryNotAllowed };
        }
        if evaluation.seller_score < self.allowed_seller_score {
            return PolicyDecision::Blocked { reason: PolicyReason::SellerScoreTooLow };
        }
        if evaluation.order_total_minor > self.max_order_minor {
            return PolicyDecision::Blocked { reason: PolicyReason::MaxOrderExceeded };
        }
        if exceeds_cap(evaluation.daily_spent_minor, evaluation.order_total_minor, self.max_daily_minor) {
            return PolicyDecision::Blocked { reason: PolicyReason::MaxDailyExceeded };
        }
        if exceeds_cap(
            evaluation.monthly_spent_minor,
            evaluation.order_total_minor,
            self.max_monthly_minor,
        ) {
            return PolicyDecision::Blocked { reason: PolicyReason::MaxMonthlyExceeded };
        }
        if evaluation.shipping_minor > self.max_shipping_minor {
            return PolicyDecision::RequiresUserConfirmation {
                reason: PolicyReason::MaxShippingExceeded,
            };
        }
        if self.require_price_reconfirmation && evaluation.quoted_unit_price_minor
            != evaluation.catalog_unit_price_minor {
            return PolicyDecision::RequiresUserConfirmation { reason: PolicyReason::PriceChanged };
        }
        if self.require_price_reconfirmation && evaluation.quoted_shipping_minor
            != evaluation.catalog_shipping_minor {
            return PolicyDecision::RequiresUserConfirmation { reason: PolicyReason::ShippingChanged };
        }
        PolicyDecision::Allowed
    }
}

/// The result that a decision stands for.
pub open spec fn decision_result(d: PolicyDecision) -> Result<(), AiError> {
    match d {
        PolicyDecision::Allowed => Ok(()),
        PolicyDecision::RequiresUserConfirmation { reason } => Err(
            AiError::RequiresUserConfirmation { reason },
        ),
        PolicyDecision::Blocked { reason } => Err(AiError::PolicyBlocked { reason }),
    }
}

impl PolicyDecision {
    pub fn into_result(self) -> (r: Result<(), AiError>)
        ensures
            r == decision_result(self),
    {
        match self {
            PolicyDecision::Allowed => Ok(()),
            PolicyDecision::RequiresUserConfirmation { reason } => Err(
                AiError::RequiresUserConfirmation { reason },
            ),
            PolicyDecision::Blocked { reason } => Err(AiError::PolicyBlocked { reason }),
        }
    }
}

/// A purchase is allowed only inside every limit of the policy: an allowed
/// category, a seller score at least the minimum, an order total within the
/// order cap, daily and monthly spend including this order within their caps,
/// shipping within its cap, and, when reconfirmation is on, the quoted price
/// and shipping fee equal to the catalog's.
pub proof fn lemma_allowed_respects_every_limit(policy: PurchasePolicy, e: PurchaseEvaluationView)
    requires
        policy.decide(e) == PolicyDecision::Allowed,
    ensures
        policy.allows_category(e.category_id),
        e.seller_score >= policy.allowed_seller_score,
        e.order_total_minor <= policy.max_order_minor,
        e.daily_spent_minor + e.order_total_minor <= policy.max_daily_minor,
        e.monthly_spent_minor + e.order_total_minor <= policy.max_monthly_minor,
        e.shipping_minor <= policy.max_shipping_minor,
        policy.require_price_reconfirmation ==> e.quoted_unit_price_minor
            == e.catalog_unit_price_minor && e.quoted_shipping_minor == e.catalog_shipping_minor,
{
}

/// Spending more never turns a refused purchase into an allowed one: with a
/// non-negative order total, a purchase that is not allowed stays not allowed
/// when the amounts already spent today and this month are larger.
pub proof fn lemma_more_spend_never_unblocks(
    policy: PurchasePolicy,
    e: PurchaseEvaluationView,
    more: PurchaseEvaluationView,
)
    requires
        e.order_total_minor >= 0,
        policy.decide(e) != PolicyDecision::Allowed,
        more.daily_spent_minor >= e.daily_spent_minor,
        more.monthly_spent_minor >= e.monthly_spent_minor,
        more.category_id == e.category_id,
        more.seller_score == e.seller_score,
        more.order_total_minor == e.order_total_minor,
        more.shipping_minor == e.shipping_minor,
        more.quoted_unit_price_minor == e.quoted_unit_price_minor,
        more.catalog_unit_price_minor == e.catalog_unit_price_minor,
        more.quoted_shipping_minor == e.quoted_shipping_minor,
        more.catalog_shipping_minor == e.catalog_shipping_minor,
    ensures
        policy.decide(more) != PolicyDecision::Allowed,
{
}

} // verus!
