//! The domain's value types. Each validated type can only hold values that
//! pass its check: they are built by parsing or checking and keep their
//! invariant for their whole life.

use super::amount::Amount;
use super::text::{chars_of, parse_i16, parse_i16_spec, string_from_chars, trim, trim_chars, lemma_trim_idempotent};
use vstd::prelude::*;

verus! {

/// A day of the month that exists in every month: 1 to 28.
#[derive(Debug, Clone, Copy, PartialEq, Eq, Structural)]
pub struct DayOfMonth(i16);

impl DayOfMonth {
    #[verifier::type_invariant]
    spec fn inv(self) -> bool {
        Self::accepts(self.0)
    }

    /// The values the type admits.
    pub open spec fn accepts(v: i16) -> bool {
        1 <= v <= 28
    }

    /// The number held.
    pub closed spec fn value(self) -> i16 {
        self.0
    }

    /// The number held.
    pub fn as_i16(&self) -> (r: i16)
        ensures
            r == self.value(),
            Self::accepts(r),
    {
        proof {
            use_type_invariant(self);
        }
        self.0
    }

    /// Checks a number (`TryFrom<i16>`).
    pub fn try_from(val: i16) -> (r: Result<Self, &'static str>)
        ensures
            match r {
                Ok(x) => Self::accepts(val) && x.value() == val,
                Err(e) => !Self::accepts(val) && e@ == "Day must be between 1 and 28 (limited by February)"@,
            },
    {
        if 1 <= val && val <= 28 {
            Ok(DayOfMonth(val))
        } else {
            Err("Day must be between 1 and 28 (limited by February)")
        }
    }

    /// Reads a decimal number and checks it (`FromStr`).
    pub fn from_str(s: &str) -> (r: Result<Self, &'static str>)
        ensures
            match parse_i16_spec(s@) {
                None => r is Err && r->Err_0@ == "Invalid number format"@,
                Some(v) => match r {
                    Ok(x) => Self::accepts(v) && x.value() == v,
                    Err(e) => !Self::accepts(v) && e@ == "Day must be between 1 and 28 (limited by February)"@,
                },
            },
    {
        let chars = chars_of(s);
        match parse_i16(&chars) {
            None => Err("Invalid number format"),
            Some(v) => Self::try_from(v),
        }
    }
}

/// The number of installments of a purchase: at least one.
#[derive(Debug, Clone, Copy, PartialEq, Eq, Structural)]
pub struct InstallmentCount(i16);

impl InstallmentCount {
    #[verifier::type_invariant]
    spec fn inv(self) -> bool {
        Self::accepts(self.0)
    }

    /// The values the type admits.
    pub open spec fn accepts(v: i16) -> bool {
        v > 0
    }

    /// The number held.
    pub closed spec fn value(self) -> i16 {
        self.0
    }

    /// The number held.
    pub fn get(&self) -> (r: i16)
        ensures
            r == self.value(),
            Self::accepts(r),
    {
        proof {
            use_type_invariant(self);
        }
        self.0
    }

    /// Checks a number (`TryFrom<i16>`).
    pub fn try_from(val: i16) -> (r: Result<Self, &'static str>)
        ensures
            match r {
                Ok(x) => Self::accepts(val) && x.value() == val,
                Err(e) => !Self::accepts(val) && e@ == "Installments number must be greater than zero"@,
            },
    {
        if val > 0 {
            Ok(InstallmentCount(val))
        } else {
            Err("Installments number must be greater than zero")
        }
    }

    /// Reads a decimal number and checks it (`FromStr`).
    pub fn from_str(s: &str) -> (r: Result<Self, &'static str>)
        ensures
            match parse_i16_spec(s@) {
                None => r is Err && r->Err_0@ == "Invalid number format"@,
                Some(v) => match r {
                    Ok(x) => Self::accepts(v) && x.value() == v,
                    Err(e) => !Self::accepts(v) && e@ == "Installments number must be greater than zero"@,
                },
            },
    {
        let chars = chars_of(s);
        match parse_i16(&chars) {
            None => Err("Invalid number format"),
            Some(v) => Self::try_from(v),
        }
    }
}

/// The position of an installment in its series, counted from one.
#[derive(Debug, Clone, Copy, PartialEq, Eq, Structural)]
pub struct InstallmentNumber(i16);

impl InstallmentNumber {
    #[verifier::type_invariant]
    spec fn inv(self) -> bool {
        Self::accepts(self.0)
    }

    /// The values the type admits.
    pub open spec fn accepts(v: i16) -> bool {
        v > 0
    }

    /// The number held.
    pub closed spec fn value(self) -> i16 {
        self.0
    }

    /// The number held.
    pub fn get(&self) -> (r: i16)
        ensures
            r == self.value(),
            Self::accepts(r),
    {
        proof {
            use_type_invariant(self);
        }
        self.0
    }

    /// Checks a number (`TryFrom<i16>`).
    pub fn try_from(val: i16) -> (r: Result<Self, &'static str>)
        ensures
            match r {
                Ok(x) => Self::accepts(val) && x.value() == val,
                Err(e) => !Self::accepts(val) && e@ == "Installments number must be greater than zero"@,
            },
    {
        if val > 0 {
            Ok(InstallmentNumber(val))
        } else {
            Err("Installments number must be greater than zero")
        }
    }

    /// Reads a decimal number and checks it (`FromStr`).
    pub fn from_str(s: &str) -> (r: Result<Self, &'static str>)
        ensures
            match parse_i16_spec(s@) {
                None => r is Err && r->Err_0@ == "Invalid number format"@,
                Some(v) => match r {
                    Ok(x) => Self::accepts(v) && x.value() == v,
                    Err(e) => !Self::accepts(v) && e@ == "Installments number must be greater than zero"@,
                },
            },
    {
        let chars = chars_of(s);
        match parse_i16(&chars) {
            None => Err("Invalid number format"),
            Some(v) => Self::try_from(v),
        }
    }
}

/// A month of the year: 1 to 12.
#[derive(Debug, Clone, Copy, PartialEq, Eq, Structural)]
pub struct Month(i16);

impl Month {
    #[verifier::type_invariant]
    spec fn inv(self) -> bool {
        Self::accepts(self.0)
    }

    /// The values the type admits.
    pub open spec fn accepts(v: i16) -> bool {
        1 <= v <= 12
    }

    /// The number held.
    pub closed spec fn value(self) -> i16 {
        self.0
    }

    /// The number held.
    pub fn as_i16(&self) -> (r: i16)
        ensures
            r == self.value(),
            Self::accepts(r),
    {
        proof {
            use_type_invariant(self);
        }
        self.0
    }

    /// Checks a number (`TryFrom<i16>`).
    pub fn try_from(val: i16) -> (r: Result<Self, &'static str>)
        ensures
            match r {
                Ok(x) => Self::accepts(val) && x.value() == val,
                Err(e) => !Self::accepts(val) && e@ == "Month must be between 1 and 12"@,
            },
    {
        if 1 <= val && val <= 12 {
            Ok(Month(val))
        } else {
            Err("Month must be between 1 and 12")
        }
    }

    /// Reads a decimal number and checks it (`FromStr`).
    pub fn from_str(s: &str) -> (r: Result<Self, &'static str>)
        ensures
            match parse_i16_spec(s@) {
                None => r is Err && r->Err_0@ == "Invalid number format"@,
                Some(v) => match r {
                    Ok(x) => Self::accepts(v) && x.value() == v,
                    Err(e) => !Self::accepts(v) && e@ == "Month must be between 1 and 12"@,
                },
            },
    {
        let chars = chars_of(s);
        match parse_i16(&chars) {
            None => Err("Invalid number format"),
            Some(v) => Self::try_from(v),
        }
    }
}

/// A year from 2000 on.
#[derive(Debug, Clone, Copy, PartialEq, Eq, Structural)]
pub struct Year(i16);

impl Year {
    #[verifier::type_invariant]
    spec fn inv(self) -> bool {
        Self::accepts(self.0)
    }

    /// The values the type admits.
    pub open spec fn accepts(v: i16) -> bool {
        v >= 2000
    }

    /// The number held.
    pub closed spec fn value(self) -> i16 {
        self.0
    }

    /// The number held.
    pub fn as_i16(&self) -> (r: i16)
        ensures
            r == self.value(),
            Self::accepts(r),
    {
        proof {
            use_type_invariant(self);
        }
        self.0
    }

    /// Checks a number (`TryFrom<i16>`).
    pub fn try_from(val: i16) -> (r: Result<Self, &'static str>)
        ensures
            match r {
                Ok(x) => Self::accepts(val) && x.value() == val,
                Err(e) => !Self::accepts(val) && e@ == "Year must be greater than or equal to 2000"@,
            },
    {
        if val >= 2000 {
            Ok(Year(val))
        } else {
            Err("Year must be greater than or equal to 2000")
        }
    }

    /// Reads a decimal number and checks it (`FromStr`).
    pub fn from_str(s: &str) -> (r: Result<Self, &'static str>)
        ensures
            match parse_i16_spec(s@) {
                None => r is Err && r->Err_0@ == "Invalid number format"@,
                Some(v) => match r {
                    Ok(x) => Self::accepts(v) && x.value() == v,
                    Err(e) => !Self::accepts(v) && e@ == "Year must be greater than or equal to 2000"@,
                },
            },
    {
        let chars = chars_of(s);
        match parse_i16(&chars) {
            None => Err("Invalid number format"),
            Some(v) => Self::try_from(v),
        }
    }
}

/// An amount greater than zero.
#[derive(Debug, Clone, Copy)]
pub struct PositiveAmount(Amount);

impl PositiveAmount {
    #[verifier::type_invariant]
    spec fn inv(self) -> bool {
        Self::accepts(self.0)
    }

    /// The amounts the type admits.
    pub open spec fn accepts(a: Amount) -> bool {
        Self::accepts_mantissa(a.m())
    }

    /// The mantissas of the amounts the type admits (the sign decides).
    pub open spec fn accepts_mantissa(m: int) -> bool {
        m > 0
    }

    /// The amount held.
    pub closed spec fn value(self) -> Amount {
        self.0
    }

    /// The amount held.
    pub fn as_decimal(&self) -> (r: Amount)
        ensures
            r == self.value(),
            Self::accepts(r),
    {
        proof {
            use_type_invariant(self);
        }
        self.0
    }

    /// Checks an amount (`TryFrom<Decimal>`).
    pub fn try_from(dec: Amount) -> (r: Result<Self, &'static str>)
        ensures
            match r {
                Ok(x) => Self::accepts(dec) && x.value() == dec,
                Err(e) => !Self::accepts(dec) && e@ == "Value must be greater than zero"@,
            },
    {
        if dec.is_positive() {
            Ok(PositiveAmount(dec))
        } else {
            Err("Value must be greater than zero")
        }
    }

    /// Reads a decimal amount and checks it (`FromStr`).
    pub fn from_str(s: &str) -> (r: Result<Self, &'static str>)
        ensures
            match super::amount::decimal_from_str(s@) {
                None => r is Err && r->Err_0@ == "Invalid number format"@,
                Some(p) => if Self::accepts_mantissa(p.0) {
                    r is Ok && r->Ok_0.value().parts() == p
                } else {
                    r is Err && r->Err_0@ == "Value must be greater than zero"@
                },
            },
    {
        match Amount::parse(s) {
            None => Err("Invalid number format"),
            Some(dec) => Self::try_from(dec),
        }
    }

    /// Whether two amounts have the same value (`==` on the decimals).
    pub fn same_value(&self, other: &Self) -> (r: bool)
        ensures
            r == (self.value().scaled() == other.value().scaled()),
    {
        self.as_decimal().same_value(&other.as_decimal())
    }
}

/// An amount of zero or more.
#[derive(Debug, Clone, Copy)]
pub struct NonNegativeAmount(Amount);

impl NonNegativeAmount {
    #[verifier::type_invariant]
    spec fn inv(self) -> bool {
        Self::accepts(self.0)
    }

    /// The amounts the type admits.
    pub open spec fn accepts(a: Amount) -> bool {
        Self::accepts_mantissa(a.m())
    }

    /// The mantissas of the amounts the type admits (the sign decides).
    pub open spec fn accepts_mantissa(m: int) -> bool {
        m >= 0
    }

    /// The amount held.
    pub closed spec fn value(self) -> Amount {
        self.0
    }

    /// The amount held.
    pub fn as_decimal(&self) -> (r: Amount)
        ensures
            r == self.value(),
            Self::accepts(r),
    {
        proof {
            use_type_invariant(self);
        }
        self.0
    }

    /// Checks an amount (`TryFrom<Decimal>`).
    pub fn try_from(dec: Amount) -> (r: Result<Self, &'static str>)
        ensures
            match r {
                Ok(x) => Self::accepts(dec) && x.value() == dec,
                Err(e) => !Self::accepts(dec) && e@ == "Value cannot be negative"@,
            },
    {
        if dec.is_non_negative() {
            Ok(NonNegativeAmount(dec))
        } else {
            Err("Value cannot be negative")
        }
    }

    /// Reads a decimal amount and checks it (`FromStr`).
    pub fn from_str(s: &str) -> (r: Result<Self, &'static str>)
        ensures
            match super::amount::decimal_from_str(s@) {
                None => r is Err && r->Err_0@ == "Invalid number format"@,
                Some(p) => if Self::accepts_mantissa(p.0) {
                    r is Ok && r->Ok_0.value().parts() == p
                } else {
                    r is Err && r->Err_0@ == "Value cannot be negative"@
                },
            },
    {
        match Amount::parse(s) {
            None => Err("Invalid number format"),
            Some(dec) => Self::try_from(dec),
        }
    }

    /// Whether two amounts have the same value (`==` on the decimals).
    pub fn same_value(&self, other: &Self) -> (r: bool)
        ensures
            r == (self.value().scaled() == other.value().scaled()),
    {
        self.as_decimal().same_value(&other.as_decimal())
    }
}

/// The kind of a transaction.
#[derive(Debug, Clone, Copy, PartialEq, Eq, Structural)]
pub enum TransactionType {
    Income,
    Expense,
    Transfer,
}

/// Whether a transaction has taken effect.
#[derive(Debug, Clone, Copy, PartialEq, Eq, Structural)]
pub enum TransactionStatus {
    Pending,
    Cleared,
}

/// The state of a credit card invoice.
#[derive(Debug, Clone, Copy, PartialEq, Eq, Structural)]
pub enum InvoiceStatus {
    Open,
    Closed,
    Paid,
}

/// The kind of a bank account.
#[derive(Debug, Clone, Copy, PartialEq, Eq, Structural)]
pub enum AccountType {
    Checking,
    Savings,
}

/// The period a budget limit applies to.
#[derive(Debug, Clone, Copy, PartialEq, Eq, Structural)]
pub enum BudgetPeriod {
    Weekly,
    Monthly,
    Yearly,
}

/// How often a recurring transaction repeats.
#[derive(Debug, Clone, Copy, PartialEq, Eq, Structural)]
pub enum RecurrenceFrequency {
    Daily,
    Weekly,
    Monthly,
    Yearly,
}

/// The kind of a category.
#[derive(Debug, Clone, Copy, PartialEq, Eq, Structural)]
pub enum CategoryType {
    Income,
    Expense,
}

/// A text that is not empty and has no leading or trailing white space.
#[derive(Debug)]
pub struct NonEmptyString(String);

impl Clone for NonEmptyString {
    fn clone(&self) -> (r: Self)
        ensures
            r.view() == self.view(),
    {
        proof {
            use_type_invariant(self);
        }
        NonEmptyString(self.0.clone())
    }
}

impl NonEmptyString {
    #[verifier::type_invariant]
    spec fn inv(self) -> bool {
        Self::accepts(self.0@)
    }

    /// The texts the type admits: non-empty and already trimmed.
    pub open spec fn accepts(s: Seq<char>) -> bool {
        s.len() > 0 && trim(s) == s
    }

    /// The text held.
    pub closed spec fn view(self) -> Seq<char> {
        self.0@
    }

    /// The text held.
    pub fn as_str(&self) -> (r: &str)
        ensures
            r@ == self.view(),
            Self::accepts(r@),
    {
        proof {
            use_type_invariant(self);
        }
        self.0.as_str()
    }

    /// Trims the characters and keeps the result when it is not empty.
    pub fn from_chars(s: &Vec<char>) -> (r: Result<Self, &'static str>)
        ensures
            match r {
                Ok(x) => trim(s@).len() > 0 && x.view() == trim(s@),
                Err(e) => trim(s@).len() == 0 && e@ == "String cannot be empty or have only spaces"@,
            },
    {
        let t = trim_chars(s);
        if t.len() == 0 {
            Err("String cannot be empty or have only spaces")
        } else {
            proof {
                lemma_trim_idempotent(s@);
            }
            Ok(NonEmptyString(string_from_chars(t.as_slice())))
        }
    }

    /// Trims the text and keeps the result when it is not empty (`FromStr`).
    pub fn from_str(s: &str) -> (r: Result<Self, &'static str>)
        ensures
            match r {
                Ok(x) => trim(s@).len() > 0 && x.view() == trim(s@),
                Err(e) => trim(s@).len() == 0 && e@ == "String cannot be empty or have only spaces"@,
            },
    {
        let chars = chars_of(s);
        Self::from_chars(&chars)
    }

    /// Whether two texts are equal.
    pub fn equals(&self, other: &Self) -> (r: bool)
        ensures
            r == (self.view() == other.view()),
    {
        self.0 == other.0
    }
}

/// Where a transaction's money moves: a bank account or a credit card.
#[derive(Debug, Clone, Copy, PartialEq, Eq, Structural)]
pub enum TransactionSource {
    Account { account_id: i32 },
    CreditCard { credit_card_id: i32 },
}

impl TransactionSource {
    /// The account and credit card columns that store the source: exactly
    /// one of them is set.
    pub open spec fn columns(self) -> (Option<i32>, Option<i32>) {
        match self {
            TransactionSource::Account { account_id } => (Some(account_id), None),
            TransactionSource::CreditCard { credit_card_id } => (None, Some(credit_card_id)),
        }
    }

    /// The account and credit card columns that store the source.
    pub fn to_columns(&self) -> (r: (Option<i32>, Option<i32>))
        ensures
            r == self.columns(),
    {
        match self {
            TransactionSource::Account { account_id } => (Some(*account_id), None),
            TransactionSource::CreditCard { credit_card_id } => (None, Some(*credit_card_id)),
        }
    }

    /// The source stored in an account column and a credit card column, when
    /// exactly one of them is set.
    pub open spec fn from_columns_spec(account_id: Option<i32>, credit_card_id: Option<i32>) -> Option<
        TransactionSource,
    > {
        match (account_id, credit_card_id) {
            (Some(id), None) => Some(TransactionSource::Account { account_id: id }),
            (None, Some(id)) => Some(TransactionSource::CreditCard { credit_card_id: id }),
            _ => None,
        }
    }

    /// The source stored in the two columns, when exactly one is set.
    pub fn from_columns(account_id: Option<i32>, credit_card_id: Option<i32>) -> (r: Option<
        TransactionSource,
    >)
        ensures
            r == Self::from_columns_spec(account_id, credit_card_id),
    {
        match (account_id, credit_card_id) {
            (Some(id), None) => Some(TransactionSource::Account { account_id: id }),
            (None, Some(id)) => Some(TransactionSource::CreditCard { credit_card_id: id }),
            _ => None,
        }
    }
}

/// Storing a source in its two columns and reading it back gives the same
/// source.
pub proof fn lemma_source_columns_round_trip(src: TransactionSource)
    ensures
        TransactionSource::from_columns_spec(src.columns().0, src.columns().1) == Some(src),
{
}

} // verus!
