//! `category` commands.

use crate::models::category::NewCategory;
use crate::models::types::{CategoryType, NonEmptyString};
use vstd::prelude::*;

verus! {

/// Errors of the category commands.
#[derive(Debug)]
pub enum CategoryError {
    Database(sqlx::Error),
    Json(serde_json::Error),
}

/// The category subcommands.
#[derive(Debug)]
pub enum CategoryCmd {
    Add(AddCategoryArgs),
    List { limit: Option<usize> },
    Update(UpdateCategoryArgs),
    Delete { id: i32 },
}

/// Arguments of `category add`.
#[derive(Debug)]
pub struct AddCategoryArgs {
    pub name: NonEmptyString,
    pub category_type: CategoryType,
    pub inactive: bool,
}

/// Arguments of `category update`; an absent field keeps the stored value.
#[derive(Debug)]
pub struct UpdateCategoryArgs {
    pub id: i32,
    pub name: Option<NonEmptyString>,
    pub category_type: Option<CategoryType>,
    pub inactive: Option<bool>,
}

impl NewCategory {
    /// The category that `category add` records.
    pub fn try_from(args: AddCategoryArgs) -> (r: Result<NewCategory, CategoryError>)
        ensures
            r matches Ok(c) && c.name.view() == args.name.view() && c.category_type
                == args.category_type && c.active == !args.inactive,
    {
        Ok(
            NewCategory {
                name: args.name,
                category_type: args.category_type,
                active: !args.inactive,
            },
        )
    }
}

} // verus!
