//! `overview` command.

use crate::models::date::Date;
use vstd::prelude::*;

verus! {

/// Arguments of `overview`: the reference date for budgets, today when
/// absent.
#[derive(Debug)]
pub struct OverviewCmd {
    pub date: Option<Date>,
}

} // verus!
