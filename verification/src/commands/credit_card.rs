//! `credit-card` commands.

use crate::models::credit_card::NewCreditCard;
use crate::models::types::{DayOfMonth, NonEmptyString, NonNegativeAmount};
use vstd::prelude::*;

verus! {

/// Errors of the credit card commands.
#[derive(Debug)]
pub enum CreditCardError {
    Database(sqlx::Error),
    Json(serde_json::Error),
}

/// The credit card subcommands.
#[derive(Debug)]
pub enum CreditCardCmd {
    Add(AddCreditCardArgs),
    List { limit: Option<usize> },
    Update(UpdateCreditCardArgs),
    Delete { id: i32 },
}

/// Arguments of `credit-card add`.
#[derive(Debug)]
pub struct AddCreditCardArgs {
    pub account_id: i32,
    pub name: NonEmptyString,
    pub credit_limit: NonNegativeAmount,
    pub billing_day: DayOfMonth,
    pub due_day: DayOfMonth,
    pub inactive: bool,
}

/// Arguments of `credit-card update`; an absent field keeps the stored
/// value.
#[derive(Debug)]
pub struct UpdateCreditCardArgs {
    pub id: i32,
    pub name: Option<NonEmptyString>,
    pub credit_limit: Option<NonNegativeAmount>,
    pub billing_day: Option<DayOfMonth>,
    pub due_day: Option<DayOfMonth>,
    pub inactive: Option<bool>,
}

impl NewCreditCard {
    /// The card that `credit-card add` records.
    pub fn try_from(args: AddCreditCardArgs) -> (r: Result<NewCreditCard, CreditCardError>)
        ensures
            r matches Ok(c) && c.account_id == args.account_id && c.name.view()
                == args.name.view() && c.credit_limit.value() == args.credit_limit.value()
                && c.billing_day.value() == args.billing_day.value() && c.due_day.value()
                == args.due_day.value() && c.active == !args.inactive,
    {
        Ok(
            NewCreditCard {
                account_id: args.account_id,
                name: args.name,
                credit_limit: args.credit_limit,
                billing_day: args.billing_day,
                due_day: args.due_day,
                active: !args.inactive,
            },
        )
    }
}

} // verus!
