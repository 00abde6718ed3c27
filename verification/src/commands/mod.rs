//! The commands of the command line: their arguments, their errors, and
//! how arguments become the records the models write.

pub mod account;
pub mod budget;
pub mod category;
pub mod credit_card;
pub mod import;
pub mod installment;
pub mod invoice;
pub mod overview;
pub mod recurrence;
pub mod transaction;
