//! Domain models, value types and the rules that govern them.

pub mod account;
pub mod amount;
pub mod budget;
pub mod category;
pub mod credit_card;
pub mod date;
pub mod error;
pub mod import;
pub mod installment;
pub mod invoice;
pub mod overview;
pub mod recurrence;
pub mod tag;
pub mod text;
pub mod transaction;
pub mod types;
