//! Budget handlers.

use crate::models::date::Date;
use crate::models::error::ModelError;
use vstd::prelude::*;

verus! {

/// Errors of the budget commands.
#[derive(Debug)]
pub enum BudgetError {
    Database(sqlx::Error),
    Model(ModelError),
}

/// The date the budgets are reported for: the one given, or today in local
/// time.
pub fn reference_date(date: Option<Date>) -> (r: Date)
    ensures
        date matches Some(d) ==> r == d,
        date is None ==> r.wf(),
{
    match date {
        Some(d) => d,
        None => Date::today_local(),
    }
}

} // verus!
