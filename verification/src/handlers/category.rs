//! Category handlers.

use crate::commands::category::UpdateCategoryArgs;
use crate::models::category::Category;
use vstd::prelude::*;

verus! {

/// The stored category `ctg` with the changes of `category update` applied:
/// each given field replaces the stored one; the rest is kept.
pub fn apply_update(ctg: Category, args: UpdateCategoryArgs) -> (r: Category)
    ensures
        r.id == ctg.id,
        r.name.view() == match args.name {
            Some(n) => n.view(),
            None => ctg.name.view(),
        },
        r.category_type == match args.category_type {
            Some(t) => t,
            None => ctg.category_type,
        },
        r.active == match args.inactive {
            Some(b) => !b,
            None => ctg.active,
        },
        r.created_at == ctg.created_at,
        r.updated_at == ctg.updated_at,
{
    let mut ctg = ctg;
    if let Some(name) = args.name {
        ctg.name = name;
    }
    if let Some(category_type) = args.category_type {
        ctg.category_type = category_type;
    }
    if let Some(inactive) = args.inactive {
        ctg.active = !inactive;
    }
    ctg
}

} // verus!
