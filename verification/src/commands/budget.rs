//! `budget` commands.

use crate::models::date::Date;
use crate::models::types::{BudgetPeriod, PositiveAmount};
use vstd::prelude::*;

verus! {

/// The budget subcommands.
#[derive(Debug)]
pub enum BudgetCmd {
    Add { category_id: Option<i32>, tag_id: Option<i32>, limit: PositiveAmount, period: BudgetPeriod },
    List { date: Option<Date> },
    Delete { id: i32 },
}

} // verus!
