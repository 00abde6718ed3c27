//! `transaction` commands.

use crate::models::date::Date;
use crate::models::transaction::NewTransaction;
use crate::models::types::{NonEmptyString, PositiveAmount, TransactionSource, TransactionType};
use vstd::prelude::*;

verus! {

/// Errors of the transaction commands.
#[derive(Debug)]
pub enum TransactionError {
    /// Neither an account nor a credit card was given.
    MissingSource,
    Database(sqlx::Error),
    Json(serde_json::Error),
}

impl TransactionError {
    /// The message of [`TransactionError::MissingSource`].
    pub fn missing_source_message() -> (r: &'static str)
        ensures
            r@ == missing_source_message_spec(),
    {
        "Conta ou cartão de crédito deve ser informado"
    }
}

/// The text of [`TransactionError::missing_source_message`].
pub open spec fn missing_source_message_spec() -> Seq<char> {
    "Conta ou cartão de crédito deve ser informado"@
}

/// The transaction subcommands.
#[derive(Debug)]
pub enum TransactionCmd {
    Add(AddTransactionArgs),
    List { limit: Option<usize> },
    Show { id: i32 },
    Update(UpdateTransactionArgs),
    Delete { id: i32 },
}

/// Arguments of `transaction add`.
#[derive(Debug)]
pub struct AddTransactionArgs {
    pub account_id: Option<i32>,
    pub credit_card_id: Option<i32>,
    pub category_id: i32,
    pub transaction_type: TransactionType,
    pub amount: PositiveAmount,
    /// The day of the movement; today when absent.
    pub date: Option<Date>,
    pub description: NonEmptyString,
}

/// Arguments of `transaction update`; an absent field keeps the stored
/// value.
#[derive(Debug)]
pub struct UpdateTransactionArgs {
    pub id: i32,
    pub account_id: Option<i32>,
    pub credit_card_id: Option<i32>,
    pub category_id: Option<i32>,
    pub transaction_type: Option<TransactionType>,
    pub amount: Option<PositiveAmount>,
    pub date: Option<Date>,
    pub description: Option<NonEmptyString>,
}

/// `t` is the transaction that `transaction add` records from `args`, dated
/// `today` when the arguments give no date: the account is preferred over
/// the card, and it is a plain movement (no installment, no tag).
pub open spec fn transaction_from_args(args: AddTransactionArgs, t: NewTransaction, today: Date) -> bool {
    &&& t.category_id == Some(args.category_id)
    &&& t.source == match args.account_id {
        Some(id) => TransactionSource::Account { account_id: id },
        None => TransactionSource::CreditCard { credit_card_id: args.credit_card_id.unwrap() },
    }
    &&& t.transaction_type == args.transaction_type
    &&& t.amount.value() == args.amount.value()
    &&& t.date == match args.date {
        Some(d) => d,
        None => today,
    }
    &&& t.description.view() == args.description.view()
    &&& t.installment_id is None
    &&& t.installment_number is None
    &&& t.tags@.len() == 0
}

impl NewTransaction {
    /// The transaction that `transaction add` records, dated `today` when
    /// the arguments give no date; `MissingSource` when neither an account
    /// nor a card is given.
    pub fn from_args_on(args: AddTransactionArgs, today: Date) -> (r: Result<NewTransaction, TransactionError>)
        ensures
            r is Err <==> (args.account_id is None && args.credit_card_id is None),
            r is Err ==> r->Err_0 is MissingSource,
            r matches Ok(t) ==> transaction_from_args(args, t, today),
    {
        let date = match args.date {
            Some(d) => d,
            None => today,
        };
        let source = match args.account_id {
            Some(id) => TransactionSource::Account { account_id: id },
            None => match args.credit_card_id {
                Some(id) => TransactionSource::CreditCard { credit_card_id: id },
                None => {
                    return Err(TransactionError::MissingSource);
                },
            },
        };
        Ok(
            NewTransaction {
                category_id: Some(args.category_id),
                source,
                transaction_type: args.transaction_type,
                amount: args.amount,
                date,
                description: args.description,
                installment_id: None,
                installment_number: None,
                tags: Vec::new(),
            },
        )
    }

    /// The transaction that `transaction add` records (`TryFrom`), dated
    /// today (local time) when the arguments give no date.
    pub fn try_from(args: AddTransactionArgs) -> (r: Result<NewTransaction, TransactionError>)
        ensures
            r is Err <==> (args.account_id is None && args.credit_card_id is None),
            r is Err ==> r->Err_0 is MissingSource,
            r matches Ok(t) ==> exists|today: Date| today.wf() && transaction_from_args(args, t, today),
    {
        let today = Date::today_local();
        let r = Self::from_args_on(args, today);
        match &r {
            Ok(t) => {
                assert(today.wf() && transaction_from_args(args, *t, today));
            },
            Err(_) => {},
        }
        r
    }
}

} // verus!
