//! Installment handlers.

use crate::commands::installment::{AdjustInstallmentArgs, InstallmentError};
use crate::models::amount::decimal_from_str;
use crate::models::types::PositiveAmount;
use vstd::prelude::*;

verus! {

/// The new amount that `installment adjust` asks for, read and checked; a
/// `Parse` error with the reason otherwise.
pub fn adjust_amount(args: &AdjustInstallmentArgs) -> (r: Result<PositiveAmount, InstallmentError>)
    ensures
        match decimal_from_str(args.amount@) {
            None => r matches Err(InstallmentError::Parse(m)) && m@ == "Invalid number format"@,
            Some(p) => if p.0 > 0 {
                r matches Ok(a) && a.value().parts() == p
            } else {
                r matches Err(InstallmentError::Parse(m)) && m@
                    == "Value must be greater than zero"@
            },
        },
{
    match PositiveAmount::from_str(args.amount.as_str()) {
        Ok(a) => Ok(a),
        Err(e) => Err(InstallmentError::Parse(e.to_owned())),
    }
}

} // verus!
