//! Account handlers.

use crate::commands::account::UpdateAccountArgs;
use crate::models::account::Account;
use vstd::prelude::*;

verus! {

/// The stored account `acc` with the changes of `account update` applied:
/// each given field replaces the stored one, the command-line flags being
/// negated; the rest is kept.
pub fn apply_update(acc: Account, args: UpdateAccountArgs) -> (r: Account)
    ensures
        r.id == acc.id,
        r.name.view() == match args.name {
            Some(n) => n.view(),
            None => acc.name.view(),
        },
        r.account_type == match args.account_type {
            Some(t) => t,
            None => acc.account_type,
        },
        r.has_debit_card == match args.no_debit_card {
            Some(b) => !b,
            None => acc.has_debit_card,
        },
        r.active == match args.inactive {
            Some(b) => !b,
            None => acc.active,
        },
        r.created_at == acc.created_at,
        r.updated_at == acc.updated_at,
{
    let mut acc = acc;
    if let Some(name) = args.name {
        acc.name = name;
    }
    if let Some(account_type) = args.account_type {
        acc.account_type = account_type;
    }
    if let Some(no_debit_card) = args.no_debit_card {
        acc.has_debit_card = !no_debit_card;
    }
    if let Some(inactive) = args.inactive {
        acc.active = !inactive;
    }
    acc
}

} // verus!
