//! The errors the domain reports, and the outside error types they carry.

use vstd::prelude::*;

verus! {

/// `sqlx::Error`, carried as it is: the storage layer reports it.
#[verifier::external_type_specification]
#[verifier::external_body]
pub struct ExSqlxError(sqlx::Error);

/// `serde_json::Error`, carried as it is.
#[verifier::external_type_specification]
#[verifier::external_body]
pub struct ExSerdeJsonError(serde_json::Error);

/// `std::io::Error`, carried as it is.
#[verifier::external_type_specification]
#[verifier::external_body]
pub struct ExIoError(std::io::Error);

/// `csv::Error`, carried as it is.
#[verifier::external_type_specification]
#[verifier::external_body]
pub struct ExCsvError(csv::Error);

/// `toml::de::Error`, carried as it is.
#[verifier::external_type_specification]
#[verifier::external_body]
pub struct ExTomlError(toml::de::Error);

/// `std::path::PathBuf`, carried as it is.
#[verifier::external_type_specification]
#[verifier::external_body]
pub struct ExPathBuf(std::path::PathBuf);

/// Errors of the domain models.
#[derive(Debug)]
pub enum ModelError {
    /// The storage layer failed.
    Database(sqlx::Error),
    /// The row asked for does not exist.
    NotFound,
    /// A business rule refused the operation; the text says which.
    BusinessLogic(String),
}

/// A `BusinessLogic` error with the given text.
pub fn business_error(msg: &str) -> (r: ModelError)
    ensures
        r is BusinessLogic && r->BusinessLogic_0@ == msg@,
{
    ModelError::BusinessLogic(msg.to_owned())
}

} // verus!
