//! `installment` commands.

use crate::models::amount::decimal_from_str;
use crate::models::date::{naive_date_from_str, Date};
use crate::models::error::ModelError;
use crate::models::installment::NewInstallment;
use crate::models::text::trim;
use crate::models::types::{InstallmentCount, InstallmentNumber, NonEmptyString, PositiveAmount};
use vstd::prelude::*;

verus! {

/// The installment subcommands.
#[derive(Debug)]
pub enum InstallmentCmd {
    /// Adds a new installment purchase.
    Add(AddInstallmentArgs),
    /// Lists the installment purchases.
    List { limit: Option<usize> },
    /// Shows an installment purchase and its transactions.
    Show { id: i32 },
    /// Sets the amount of one installment.
    Adjust(AdjustInstallmentArgs),
    /// Deletes an installment purchase.
    Delete { id: i32 },
}

/// Errors of the installment commands.
#[derive(Debug)]
pub enum InstallmentError {
    Database(sqlx::Error),
    Model(ModelError),
    /// An argument could not be read; the text says why.
    Parse(String),
}

/// Arguments of `installment add`.
#[derive(Debug)]
pub struct AddInstallmentArgs {
    /// The credit card charged.
    pub card_id: i32,
    pub category_id: Option<i32>,
    /// What was bought.
    pub description: String,
    /// The total of the purchase, as written.
    pub total_amount: String,
    pub installments_count: InstallmentCount,
    /// The purchase date (`YYYY-MM-DD`); today when absent.
    pub date: Option<String>,
}

/// Arguments of `installment adjust`.
#[derive(Debug)]
pub struct AdjustInstallmentArgs {
    /// The installment purchase.
    pub id: i32,
    /// Which installment to change (1, 2, 3, ...).
    pub number: InstallmentNumber,
    /// The new exact amount of that installment, as written.
    pub amount: String,
}

/// The text of the error that refuses the arguments of `installment add`,
/// or `None` when they are accepted. Checked in order: description, total,
/// date.
pub open spec fn add_installment_error(args: AddInstallmentArgs) -> Option<Seq<char>> {
    if trim(args.description@).len() == 0 {
        Some("String cannot be empty or have only spaces"@)
    } else if decimal_from_str(args.total_amount@) is None {
        Some("Invalid number format"@)
    } else if decimal_from_str(args.total_amount@).unwrap().0 <= 0 {
        Some("Value must be greater than zero"@)
    } else {
        match args.date {
            Some(d) => match naive_date_from_str(d@) {
                Err(e) => Some(e),
                Ok(_) => None,
            },
            None => None,
        }
    }
}

/// `n` is the purchase that the accepted arguments `args` describe, with
/// `today` as the date when none is given.
pub open spec fn installment_from_args(args: AddInstallmentArgs, n: NewInstallment, today: Date) -> bool {
    &&& n.credit_card_id == args.card_id
    &&& n.category_id == args.category_id
    &&& n.description.view() == trim(args.description@)
    &&& decimal_from_str(args.total_amount@) == Some(n.total_amount.value().parts())
    &&& n.installments_count.value() == args.installments_count.value()
    &&& n.date.wf()
    &&& match args.date {
        Some(d) => naive_date_from_str(d@) == Ok::<(int, int, int), Seq<char>>(
            (n.date.year as int, n.date.month as int, n.date.day as int),
        ),
        None => n.date == today,
    }
}

/// A `Parse` error with the given text.
fn parse_error(msg: &str) -> (r: InstallmentError)
    ensures
        r matches InstallmentError::Parse(m) && m@ == msg@,
{
    InstallmentError::Parse(msg.to_owned())
}

impl NewInstallment {
    /// The purchase that `installment add` records, dated `today` when the
    /// arguments give no date.
    pub fn from_args_on(args: AddInstallmentArgs, today: Date) -> (r: Result<NewInstallment, InstallmentError>)
        requires
            today.wf(),
        ensures
            r is Err <==> add_installment_error(args) is Some,
            r matches Err(e) ==> e matches InstallmentError::Parse(m) && m@ == add_installment_error(
                args,
            )->Some_0,
            r matches Ok(n) ==> installment_from_args(args, n, today),
    {
        let description = match NonEmptyString::from_str(args.description.as_str()) {
            Ok(d) => d,
            Err(e) => {
                return Err(parse_error(e));
            },
        };
        let total_amount = match PositiveAmount::from_str(args.total_amount.as_str()) {
            Ok(a) => a,
            Err(e) => {
                return Err(parse_error(e));
            },
        };
        let date = match &args.date {
            Some(d) => match Date::parse(d.as_str()) {
                Ok(parsed) => parsed,
                Err(e) => {
                    return Err(InstallmentError::Parse(e));
                },
            },
            None => today,
        };
        Ok(
            NewInstallment {
                credit_card_id: args.card_id,
                category_id: args.category_id,
                description,
                total_amount,
                installments_count: args.installments_count,
                date,
            },
        )
    }

    /// The purchase that `installment add` records (`TryFrom`), dated today
    /// (UTC) when the arguments give no date.
    pub fn try_from(args: AddInstallmentArgs) -> (r: Result<NewInstallment, InstallmentError>)
        ensures
            r is Err <==> add_installment_error(args) is Some,
            r matches Err(e) ==> e matches InstallmentError::Parse(m) && m@ == add_installment_error(
                args,
            )->Some_0,
            r matches Ok(n) ==> exists|today: Date| installment_from_args(args, n, today),
    {
        let today = Date::today_utc();
        let r = Self::from_args_on(args, today);
        match &r {
            Ok(n) => {
                assert(installment_from_args(args, *n, today));
            },
            Err(_) => {},
        }
        r
    }
}

} // verus!
