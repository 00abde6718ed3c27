//! Bank accounts.

use super::amount::Amount;
use super::date::Timestamp;
use super::types::{AccountType, NonEmptyString};
use vstd::prelude::*;

verus! {

/// A stored bank account.
#[derive(Debug)]
pub struct Account {
    pub id: i32,
    pub name: NonEmptyString,
    pub account_type: AccountType,
    pub has_debit_card: bool,
    pub active: bool,
    pub created_at: Timestamp,
    pub updated_at: Timestamp,
}

/// An account to be recorded.
#[derive(Debug)]
pub struct NewAccount {
    pub name: NonEmptyString,
    pub account_type: AccountType,
    pub has_debit_card: bool,
    pub active: bool,
}

/// The balance of an account: the sum of its cleared movements.
#[derive(Debug)]
pub struct AccountBalance {
    pub account_id: i32,
    pub balance: Amount,
}

impl AccountBalance {
    /// The balance from the sum found, zero when the account has no cleared
    /// movement.
    pub fn from_sum(account_id: i32, sum: Option<Amount>) -> (r: AccountBalance)
        ensures
            r.account_id == account_id,
            match sum {
                Some(a) => r.balance == a,
                None => r.balance.m() == 0 && r.balance.s() == 0,
            },
    {
        let balance = match sum {
            Some(a) => a,
            None => Amount::zero(),
        };
        AccountBalance { account_id, balance }
    }
}

} // verus!
