//! Categories of income and expense.

use super::date::Timestamp;
use super::types::{CategoryType, NonEmptyString};
use vstd::prelude::*;

verus! {

/// A stored category.
#[derive(Debug)]
pub struct Category {
    pub id: i32,
    pub name: NonEmptyString,
    pub category_type: CategoryType,
    pub active: bool,
    pub created_at: Timestamp,
    pub updated_at: Timestamp,
}

/// A category to be recorded.
#[derive(Debug)]
pub struct NewCategory {
    pub name: NonEmptyString,
    pub category_type: CategoryType,
    pub active: bool,
}

} // verus!
