//! `recurrence` commands.

use crate::models::date::Date;
use crate::models::recurrence::{NewRecurrence, UpdateRecurrencePayload};
use crate::models::types::{
    NonEmptyString, PositiveAmount, RecurrenceFrequency, TransactionSource, TransactionType,
};
use vstd::prelude::*;

verus! {

/// Arguments of `recurrence add`; exactly one of `account_id` and
/// `credit_card_id` is expected.
#[derive(Debug)]
pub struct AddRecurrenceArgs {
    pub category_id: i32,
    pub account_id: Option<i32>,
    pub credit_card_id: Option<i32>,
    pub transaction_type: TransactionType,
    pub amount: PositiveAmount,
    pub description: NonEmptyString,
    pub frequency: RecurrenceFrequency,
    pub start_date: Date,
    pub end_date: Option<Date>,
}

/// Arguments of `recurrence update`; an absent field keeps the stored value.
#[derive(Debug)]
pub struct UpdateRecurrenceArgs {
    pub id: i32,
    pub category_id: Option<i32>,
    pub account_id: Option<i32>,
    pub credit_card_id: Option<i32>,
    pub transaction_type: Option<TransactionType>,
    pub amount: Option<PositiveAmount>,
    pub description: Option<NonEmptyString>,
    pub frequency: Option<RecurrenceFrequency>,
    pub start_date: Option<Date>,
}

/// The recurrence subcommands.
#[derive(Debug)]
pub enum RecurrenceCmd {
    Add(AddRecurrenceArgs),
    List,
    Update(UpdateRecurrenceArgs),
    Delete { id: i32 },
    Sync { date: Option<Date> },
}

/// The source the arguments name: the account when one is given, otherwise
/// the credit card.
pub open spec fn source_of_args(account_id: Option<i32>, credit_card_id: Option<i32>) -> TransactionSource {
    match account_id {
        Some(id) => TransactionSource::Account { account_id: id },
        None => TransactionSource::CreditCard { credit_card_id: credit_card_id.unwrap() },
    }
}

impl NewRecurrence {
    /// The recurrence that `recurrence add` records. The account wins when
    /// both an account and a card are given.
    pub fn from_args(args: AddRecurrenceArgs) -> (r: NewRecurrence)
        requires
            args.account_id is Some || args.credit_card_id is Some,
        ensures
            r.category_id == args.category_id,
            r.source == source_of_args(args.account_id, args.credit_card_id),
            r.transaction_type == args.transaction_type,
            r.amount.value() == args.amount.value(),
            r.description.view() == args.description.view(),
            r.frequency == args.frequency,
            r.start_date == args.start_date,
            r.end_date == args.end_date,
    {
        let source = match args.account_id {
            Some(id) => TransactionSource::Account { account_id: id },
            None => TransactionSource::CreditCard { credit_card_id: args.credit_card_id.unwrap() },
        };
        NewRecurrence {
            category_id: args.category_id,
            source,
            transaction_type: args.transaction_type,
            amount: args.amount,
            description: args.description,
            frequency: args.frequency,
            start_date: args.start_date,
            end_date: args.end_date,
        }
    }
}

impl UpdateRecurrencePayload {
    /// The changes that `recurrence update` asks for, with the recurrence's
    /// id; the end date is never changed from the command line.
    pub fn from_args(args: UpdateRecurrenceArgs) -> (r: (i32, UpdateRecurrencePayload))
        ensures
            r.0 == args.id,
            r.1.category_id == args.category_id,
            r.1.account_id == args.account_id,
            r.1.credit_card_id == args.credit_card_id,
            r.1.transaction_type == args.transaction_type,
            r.1.amount is Some <==> args.amount is Some,
            args.amount matches Some(a) ==> r.1.amount.unwrap().value() == a.value(),
            r.1.description is Some <==> args.description is Some,
            args.description matches Some(d) ==> r.1.description.unwrap().view() == d.view(),
            r.1.frequency == args.frequency,
            r.1.start_date == args.start_date,
            r.1.end_date is None,
    {
        (
            args.id,
            UpdateRecurrencePayload {
                category_id: args.category_id,
                account_id: args.account_id,
                credit_card_id: args.credit_card_id,
                transaction_type: args.transaction_type,
                amount: args.amount,
                description: args.description,
                frequency: args.frequency,
                start_date: args.start_date,
                end_date: None,
            },
        )
    }
}

} // verus!
