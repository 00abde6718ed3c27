//! Credit cards.

use super::date::Timestamp;
use super::types::{DayOfMonth, NonEmptyString, NonNegativeAmount};
use vstd::prelude::*;

verus! {

/// A stored credit card.
#[derive(Debug)]
pub struct CreditCard {
    pub id: i32,
    pub account_id: i32,
    pub name: NonEmptyString,
    pub credit_limit: NonNegativeAmount,
    pub billing_day: i16,
    pub due_day: i16,
    pub active: bool,
    pub created_at: Timestamp,
    pub updated_at: Timestamp,
}

/// A credit card to be recorded.
#[derive(Debug)]
pub struct NewCreditCard {
    pub account_id: i32,
    pub name: NonEmptyString,
    pub credit_limit: NonNegativeAmount,
    pub billing_day: DayOfMonth,
    pub due_day: DayOfMonth,
    pub active: bool,
}

} // verus!
