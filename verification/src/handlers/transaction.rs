//! Transaction handlers.

use crate::commands::transaction::UpdateTransactionArgs;
use crate::models::transaction::UpdateTransactionPayload;
use vstd::prelude::*;

verus! {

/// The id and the changes that `transaction update` asks for.
pub fn update_payload(args: UpdateTransactionArgs) -> (r: (i32, UpdateTransactionPayload))
    ensures
        r.0 == args.id,
        r.1.account_id == args.account_id,
        r.1.credit_card_id == args.credit_card_id,
        r.1.category_id == args.category_id,
        r.1.transaction_type == args.transaction_type,
        r.1.amount is Some <==> args.amount is Some,
        args.amount matches Some(a) ==> r.1.amount.unwrap().value() == a.value(),
        r.1.date == args.date,
        r.1.description is Some <==> args.description is Some,
        args.description matches Some(d) ==> r.1.description.unwrap().view() == d.view(),
{
    (
        args.id,
        UpdateTransactionPayload {
            account_id: args.account_id,
            credit_card_id: args.credit_card_id,
            category_id: args.category_id,
            transaction_type: args.transaction_type,
            amount: args.amount,
            date: args.date,
            description: args.description,
        },
    )
}

} // verus!
