//! Tags attached to transactions.

use super::date::Timestamp;
use super::types::NonEmptyString;
use vstd::prelude::*;

verus! {

/// A stored tag.
#[derive(Debug)]
pub struct Tag {
    pub id: i32,
    pub name: NonEmptyString,
    pub created_at: Timestamp,
}

/// The link between a transaction and one of its tags.
#[derive(Debug, Clone, Copy, PartialEq, Eq, Structural)]
pub struct TransactionTag {
    pub transaction_id: i32,
    pub tag_id: i32,
}

} // verus!
