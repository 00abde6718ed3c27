//! Credit card handlers.

use crate::commands::credit_card::UpdateCreditCardArgs;
use crate::models::credit_card::CreditCard;
use vstd::prelude::*;

verus! {

/// The stored card `card` with the changes of `credit-card update` applied:
/// each given field replaces the stored one; the rest is kept.
pub fn apply_update(card: CreditCard, args: UpdateCreditCardArgs) -> (r: CreditCard)
    ensures
        r.id == card.id,
        r.account_id == card.account_id,
        r.name.view() == match args.name {
            Some(n) => n.view(),
            None => card.name.view(),
        },
        r.credit_limit.value() == match args.credit_limit {
            Some(l) => l.value(),
            None => card.credit_limit.value(),
        },
        r.billing_day == match args.billing_day {
            Some(d) => d.value(),
            None => card.billing_day,
        },
        r.due_day == match args.due_day {
            Some(d) => d.value(),
            None => card.due_day,
        },
        r.active == match args.inactive {
            Some(b) => !b,
            None => card.active,
        },
        r.created_at == card.created_at,
        r.updated_at == card.updated_at,
{
    let mut card = card;
    if let Some(name) = args.name {
        card.name = name;
    }
    if let Some(credit_limit) = args.credit_limit {
        card.credit_limit = credit_limit;
    }
    if let Some(billing_day) = args.billing_day {
        card.billing_day = billing_day.as_i16();
    }
    if let Some(due_day) = args.due_day {
        card.due_day = due_day.as_i16();
    }
    if let Some(inactive) = args.inactive {
        card.active = !inactive;
    }
    card
}

} // verus!
