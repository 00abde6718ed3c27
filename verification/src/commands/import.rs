//! `import` command.

use crate::models::error::ModelError;
use vstd::prelude::*;

verus! {

/// Errors of a CSV import.
#[derive(Debug)]
pub enum ImportError {
    Io(std::io::Error),
    Csv(csv::Error),
    Database(sqlx::Error),
    Model(ModelError),
    /// A row was refused; the text says why.
    Handler(String),
}

/// Arguments of `import`.
#[derive(Debug)]
pub struct ImportCommand {
    /// Path to the transactions CSV file to be imported.
    pub file: std::path::PathBuf,
    /// Only report what would be done, without changing the database.
    pub dry_run: bool,
}

} // verus!
