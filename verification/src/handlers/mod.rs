//! What the commands do, apart from storage: the decisions taken between
//! reading and writing rows.

pub mod account;
pub mod budget;
pub mod category;
pub mod credit_card;
pub mod import;
pub mod installment;
pub mod recurrence;
pub mod transaction;
