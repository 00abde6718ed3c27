//! Moneta: personal finances — the verified core.
//!
//! The library holds the domain rules of the application: validated value
//! types, calendar arithmetic, installment apportionment, invoice periods,
//! recurrence scheduling, CSV record parsing and de-duplication, and the
//! guards and merges applied before any row is written. Storage and the
//! command line live outside the library.

pub mod models;
pub mod config;
pub mod commands;
pub mod handlers;
