//! `account` commands.

use crate::models::account::NewAccount;
use crate::models::types::{AccountType, NonEmptyString};
use vstd::prelude::*;

verus! {

/// Errors of the account commands.
#[derive(Debug)]
pub enum AccountError {
    Database(sqlx::Error),
    Json(serde_json::Error),
}

/// The account subcommands.
#[derive(Debug)]
pub enum AccountCmd {
    Add(AddAccountArgs),
    List { limit: Option<usize> },
    Balance { id: i32 },
    Update(UpdateAccountArgs),
    Delete { id: i32 },
}

/// Arguments of `account add`.
#[derive(Debug)]
pub struct AddAccountArgs {
    pub name: NonEmptyString,
    pub account_type: AccountType,
    pub no_debit_card: bool,
    pub inactive: bool,
}

/// Arguments of `account update`; an absent field keeps the stored value.
#[derive(Debug)]
pub struct UpdateAccountArgs {
    pub id: i32,
    pub name: Option<NonEmptyString>,
    pub account_type: Option<AccountType>,
    pub no_debit_card: Option<bool>,
    pub inactive: Option<bool>,
}

impl NewAccount {
    /// The account that `account add` records: the flags of the command
    /// line are negated into the stored ones.
    pub fn try_from(args: AddAccountArgs) -> (r: Result<NewAccount, AccountError>)
        ensures
            r matches Ok(a) && a.name.view() == args.name.view() && a.account_type
                == args.account_type && a.has_debit_card == !args.no_debit_card && a.active
                == !args.inactive,
    {
        Ok(
            NewAccount {
                name: args.name,
                account_type: args.account_type,
                has_debit_card: !args.no_debit_card,
                active: !args.inactive,
            },
        )
    }
}

} // verus!
