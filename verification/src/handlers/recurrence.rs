//! Recurrence handlers.

use crate::models::error::ModelError;
use vstd::prelude::*;

verus! {

/// Errors of the recurrence commands.
#[derive(Debug)]
pub enum RecurrenceError {
    Database(sqlx::Error),
    Model(ModelError),
}

} // verus!
