//! `invoice` commands.

use crate::models::types::{Month, Year};
use vstd::prelude::*;

verus! {

/// Errors of the invoice commands.
#[derive(Debug)]
pub enum InvoiceError {
    Database(sqlx::Error),
}

/// The invoice subcommands.
#[derive(Debug)]
pub enum InvoiceCmd {
    View { credit_card_id: i32, limit: Option<usize> },
    Close { credit_card_id: i32, month: Month, year: Year },
    Reopen { credit_card_id: i32, month: Month, year: Year },
    Pay { credit_card_id: i32, month: Month, year: Year, account_id: i32 },
}

} // verus!
