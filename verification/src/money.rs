//! Currency codes and non-negative amounts of money in minor units.

use vstd::prelude::*;

use crate::text::copy_str;
verus! {

/// A three-letter upper-case ASCII currency code, such as `USD`.
pub open spec fn is_currency_code(s: Seq<char>) -> bool {
    &&& s.len() == 3
    &&& forall|i: int| 0 <= i < 3 ==> 'A' <= #[trigger] s[i] && s[i] <= 'Z'
}

#[derive(Clone, Copy, Debug, PartialEq, Eq, Structural)]
pub struct CurrencyCode {
    first: char,
    second: char,
    third: char,
}

#[derive(Clone, Copy, Debug, PartialEq, Eq, Structural)]
pub enum CurrencyCodeError {
    Invalid,
}

impl View for CurrencyCode {
    type V = Seq<char>;

    closed spec fn view(&self) -> Seq<char> {
        seq![self.first, self.second, self.third]
    }
}

impl CurrencyCode {
    /// Parses a currency code; only three upper-case ASCII letters are accepted.
    pub fn parse(value: &str) -> (r: Result<CurrencyCode, CurrencyCodeError>)
        ensures
            r is Ok <==> is_currency_code(value@),
            r matches Ok(code) ==> code@ == value@,
    {
        let chars = crate::text::chars_of(value);
        if chars.len() != 3 {
            return Err(CurrencyCodeError::Invalid);
        }
        let mut i: usize = 0;
        while i < 3
            invariant
                chars@ == value@,
                chars@.len() == 3,
                i <= 3,
                forall|j: int| 0 <= j < i ==> 'A' <= #[trigger] chars@[j] && chars@[j] <= 'Z',
            decreases 3 - i,
        {
            let c = chars[i];
            if !('A' <= c && c <= 'Z') {
                return Err(CurrencyCodeError::Invalid);
            }
            i = i + 1;
        }
        let code = CurrencyCode { first: chars[0], second: chars[1], third: chars[2] };
        assert(code@ == value@);
        Ok(code)
    }

    /// Two codes are equal exactly when they spell the same letters.
    pub proof fn lemma_view_injective(a: CurrencyCode, b: CurrencyCode)
        ensures
            a@ == b@ <==> a == b,
    {
        if a@ == b@ {
            assert(a@[0] == b@[0] && a@[1] == b@[1] && a@[2] == b@[2]);
        }
    }

    /// The code as a string.
    pub fn as_string(&self) -> (r: String)
        ensures
            r@ == self@,
    {
        let mut s = String::new();
        s.push(self.first);
        s.push(self.second);
        s.push(self.third);
        assert(s@ =~= self@);
        s
    }
}

/// An amount of money: a count of minor units (cents) in one currency.
#[derive(Clone, Copy, Debug, PartialEq, Eq, Structural)]
pub struct Money {
    minor: i64,
    currency: CurrencyCode,
}

pub struct MoneyView {
    pub minor: int,
    pub currency: CurrencyCode,
}

#[derive(Clone, Copy, Debug, PartialEq, Eq, Structural)]
pub enum MoneyError {
    NegativeAmount,
    CurrencyMismatch,
    Overflow,
}

impl View for Money {
    type V = MoneyView;

    closed spec fn view(&self) -> MoneyView {
        MoneyView { minor: self.minor as int, currency: self.currency }
    }
}

impl Money {
    /// An amount is well formed when it is not negative.
    pub closed spec fn wf(&self) -> bool {
        self.minor >= 0
    }

    /// Two amounts are equal exactly when their views are.
    pub proof fn lemma_view_injective(a: Money, b: Money)
        ensures
            a@ == b@ <==> a == b,
    {
    }

    pub proof fn lemma_wf(m: Money)
        ensures
            m.wf() <==> m@.minor >= 0,
            m@.minor <= i64::MAX,
    {
    }

    /// Money of `minor` units; negative amounts are refused.
    pub fn new(minor: i64, currency: CurrencyCode) -> (r: Result<Money, MoneyError>)
        ensures
            r is Ok <==> minor >= 0,
            r is Err ==> r == Err::<Money, MoneyError>(MoneyError::NegativeAmount),
            r matches Ok(m) ==> m@ == (MoneyView { minor: minor as int, currency }) && m.wf(),
    {
        if minor < 0 {
            Err(MoneyError::NegativeAmount)
        } else {
            Ok(Money { minor, currency })
        }
    }

    pub fn minor(&self) -> (r: i64)
        ensures
            r == self@.minor,
    {
        self.minor
    }

    pub fn currency(&self) -> (r: CurrencyCode)
        ensures
            r == self@.currency,
    {
        self.currency
    }

    /// The sum of two amounts of one currency.
    pub fn checked_add(self, other: Money) -> (r: Result<Money, MoneyError>)
        ensures
            self@.currency != other@.currency ==> r == Err::<Money, MoneyError>(
                MoneyError::CurrencyMismatch,
            ),
            self@.currency == other@.currency && self@.minor + other@.minor > i64::MAX ==> r
                == Err::<Money, MoneyError>(MoneyError::Overflow),
            self@.currency == other@.currency && self@.minor + other@.minor < i64::MIN ==> r
                == Err::<Money, MoneyError>(MoneyError::Overflow),
            r is Ok <==> (self@.currency == other@.currency && i64::MIN <= self@.minor + other@.minor
                <= i64::MAX),
            r matches Ok(m) ==> m@ == (MoneyView {
                minor: self@.minor + other@.minor,
                currency: self@.currency,
            }),
            self.wf() && other.wf() && r is Ok ==> r->Ok_0.wf(),
    {
        if self.currency != other.currency {
            return Err(MoneyError::CurrencyMismatch);
        }
        match self.minor.checked_add(other.minor) {
            Some(minor) => Ok(Money { minor, currency: self.currency }),
            None => Err(MoneyError::Overflow),
        }
    }

    /// The amount taken `quantity` times.
    pub fn checked_mul(self, quantity: u64) -> (r: Result<Money, MoneyError>)
        ensures
            self@.minor * quantity > i64::MAX || self@.minor * quantity < i64::MIN ==> r
                == Err::<Money, MoneyError>(MoneyError::Overflow),
            r is Ok <==> i64::MIN <= self@.minor * quantity <= i64::MAX,
            r matches Ok(m) ==> m@ == (MoneyView {
                minor: self@.minor * quantity,
                currency: self@.currency,
            }),
            self.wf() && r is Ok ==> r->Ok_0.wf(),
    {
        let m = self.minor as i128;
        let q = quantity as i128;
        assert(-0x8000_0000_0000_0000_0000_0000_0000_0000 <= m * q <= 0x7fff_ffff_ffff_ffff_ffff_ffff_ffff_ffff)
            by (nonlinear_arith)
            requires
                -0x8000_0000_0000_0000 <= m <= 0x7fff_ffff_ffff_ffff,
                0 <= q <= 0xffff_ffff_ffff_ffff,
        {
            assert(-0x8000_0000_0000_0000 * q <= m * q <= 0x7fff_ffff_ffff_ffff * q);
        }
        let wide = m * q;
        if wide > i64::MAX as i128 || wide < i64::MIN as i128 {
            return Err(MoneyError::Overflow);
        }
        assert(self.minor >= 0 ==> wide >= 0) by (nonlinear_arith)
            requires
                wide == self.minor * quantity,
        ;
        Ok(Money { minor: wide as i64, currency: self.currency })
    }
}

/// The text that describes each error.
pub open spec fn money_error_message(e: MoneyError) -> Seq<char> {
    match e {
        MoneyError::NegativeAmount => "money amount cannot be negative"@,
        MoneyError::CurrencyMismatch => "money currencies do not match"@,
        MoneyError::Overflow => "money amount overflowed"@,
    }
}

impl MoneyError {
    pub fn message(&self) -> (r: String)
        ensures
            r@ == money_error_message(*self),
    {
        match self {
            MoneyError::NegativeAmount => copy_str("money amount cannot be negative"),
            MoneyError::CurrencyMismatch => copy_str("money currencies do not match"),
            MoneyError::Overflow => copy_str("money amount overflowed"),
        }
    }
}

/// The text that describes each error.
pub open spec fn currency_code_error_message(e: CurrencyCodeError) -> Seq<char> {
    match e {
        CurrencyCodeError::Invalid => "currency code must be three upper-case ASCII letters"@,
    }
}

impl CurrencyCodeError {
    pub fn message(&self) -> (r: String)
        ensures
            r@ == currency_code_error_message(*self),
    {
        match self {
            CurrencyCodeError::Invalid => copy_str("currency code must be three upper-case ASCII letters"),
        }
    }
}

} // verus!
