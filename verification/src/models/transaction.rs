//! Transactions: the rows that move money, and the rules checked before one
//! is written, changed or removed.

use super::date::{Date, Timestamp};
use super::types::{
    InvoiceStatus, NonEmptyString, PositiveAmount, TransactionSource,
    TransactionStatus, TransactionType,
};
use vstd::prelude::*;

verus! {

/// A stored transaction.
#[derive(Debug)]
pub struct Transaction {
    pub id: i32,
    pub category_id: Option<i32>,
    pub source: TransactionSource,
    pub invoice_id: Option<i32>,
    pub installment_id: Option<i32>,
    pub recurrence_id: Option<i32>,
    pub transaction_type: TransactionType,
    pub amount: PositiveAmount,
    pub date: Date,
    pub description: NonEmptyString,
    pub installment_number: Option<i16>,
    pub status: TransactionStatus,
    pub tags: Vec<String>,
    pub created_at: Timestamp,
    pub updated_at: Timestamp,
}

/// A transaction to be inserted.
#[derive(Debug)]
pub struct NewTransaction {
    pub category_id: Option<i32>,
    pub source: TransactionSource,
    pub transaction_type: TransactionType,
    pub amount: PositiveAmount,
    pub date: Date,
    pub description: NonEmptyString,
    pub installment_id: Option<i32>,
    pub installment_number: Option<i16>,
    pub tags: Vec<NonEmptyString>,
}

/// The changes asked for a transaction; `None` keeps the current value.
#[derive(Debug)]
pub struct UpdateTransactionPayload {
    pub account_id: Option<i32>,
    pub credit_card_id: Option<i32>,
    pub category_id: Option<i32>,
    pub transaction_type: Option<TransactionType>,
    pub amount: Option<PositiveAmount>,
    pub date: Option<Date>,
    pub description: Option<NonEmptyString>,
}

/// Why a transaction may not be written, changed or removed.
#[derive(Debug, Clone, Copy, PartialEq, Eq, Structural)]
pub enum TransactionRuleError {
    /// The transaction does not exist.
    RowNotFound,
    /// It belongs to an installment purchase, which is removed as a whole.
    InstallmentDelete,
    /// It belongs to an installment purchase, whose parts are adjusted instead.
    InstallmentUpdate,
    /// Its credit card invoice is closed or paid and takes no new transaction.
    InvoiceClosedOnInsert,
    /// Its credit card invoice is closed or paid, so it cannot be removed.
    InvoiceClosedOnDelete,
    /// Its credit card invoice is closed or paid, so it cannot be changed.
    InvoiceClosedOnUpdate,
    /// The invoice it would move to is closed or paid.
    TargetInvoiceClosed,
}

impl TransactionRuleError {
    /// The message reported for the refusal.
    pub open spec fn message_spec(self) -> Seq<char> {
        match self {
            TransactionRuleError::RowNotFound => "no rows returned by a query that expected to return at least one row"@,
            TransactionRuleError::InstallmentDelete => "Esta transação pertence a um parcelamento. Utilize 'moneta installment delete' para apagá-la."@,
            TransactionRuleError::InstallmentUpdate => "Esta transação pertence a um parcelamento. Utilize 'moneta installment adjust' para modificar o valor."@,
            TransactionRuleError::InvoiceClosedOnInsert => "Não é possível adicionar transação a uma fatura fechada ou paga."@,
            TransactionRuleError::InvoiceClosedOnDelete => "Não é possível deletar transação de uma fatura fechada ou paga."@,
            TransactionRuleError::InvoiceClosedOnUpdate => "Não é possível alterar transação de uma fatura fechada ou paga."@,
            TransactionRuleError::TargetInvoiceClosed => "A fatura de destino já está fechada ou paga."@,
        }
    }

    /// The message reported for the refusal.
    pub fn message(&self) -> (r: &'static str)
        ensures
            r@ == self.message_spec(),
    {
        match self {
            TransactionRuleError::RowNotFound => "no rows returned by a query that expected to return at least one row",
            TransactionRuleError::InstallmentDelete => "Esta transação pertence a um parcelamento. Utilize 'moneta installment delete' para apagá-la.",
            TransactionRuleError::InstallmentUpdate => "Esta transação pertence a um parcelamento. Utilize 'moneta installment adjust' para modificar o valor.",
            TransactionRuleError::InvoiceClosedOnInsert => "Não é possível adicionar transação a uma fatura fechada ou paga.",
            TransactionRuleError::InvoiceClosedOnDelete => "Não é possível deletar transação de uma fatura fechada ou paga.",
            TransactionRuleError::InvoiceClosedOnUpdate => "Não é possível alterar transação de uma fatura fechada ou paga.",
            TransactionRuleError::TargetInvoiceClosed => "A fatura de destino já está fechada ou paga.",
        }
    }
}

/// The row an update writes: every column the update sets.
#[derive(Debug)]
pub struct TransactionUpdate {
    pub account_id: Option<i32>,
    pub credit_card_id: Option<i32>,
    pub invoice_id: Option<i32>,
    pub category_id: Option<i32>,
    pub transaction_type: TransactionType,
    pub amount: PositiveAmount,
    pub date: Date,
    pub description: NonEmptyString,
}

/// The source columns after an update: an account given in the update wins,
/// then a credit card given in it; otherwise the current source stays.
pub open spec fn next_source_columns(
    current: TransactionSource,
    account_id: Option<i32>,
    credit_card_id: Option<i32>,
) -> (Option<i32>, Option<i32>) {
    if account_id is Some {
        (account_id, None)
    } else if credit_card_id is Some {
        (None, credit_card_id)
    } else {
        current.columns()
    }
}

/// The source columns after an update (see [`next_source_columns`]).
pub fn compute_next_source_columns(
    current: &TransactionSource,
    account_id: Option<i32>,
    credit_card_id: Option<i32>,
) -> (r: (Option<i32>, Option<i32>))
    ensures
        r == next_source_columns(*current, account_id, credit_card_id),
{
    if account_id.is_some() {
        (account_id, None)
    } else if credit_card_id.is_some() {
        (None, credit_card_id)
    } else {
        current.to_columns()
    }
}

impl Transaction {
    /// The rule checked before inserting a transaction on a credit card: its
    /// invoice must be open.
    pub fn check_invoice_accepts(status: InvoiceStatus) -> (r: Result<(), TransactionRuleError>)
        ensures
            r is Ok <==> status == InvoiceStatus::Open,
            r is Err ==> r->Err_0 == TransactionRuleError::InvoiceClosedOnInsert,
    {
        if status == InvoiceStatus::Open {
            Ok(())
        } else {
            Err(TransactionRuleError::InvoiceClosedOnInsert)
        }
    }

    /// The rules checked before removing a transaction: it exists, does not
    /// belong to an installment purchase, and its invoice, if any, is open.
    /// `invoice_status` is the status of the transaction's invoice.
    pub fn check_deletable(
        found: Option<&Transaction>,
        invoice_status: Option<InvoiceStatus>,
    ) -> (r: Result<(), TransactionRuleError>)
        requires
            found matches Some(t) ==> (t.invoice_id is Some <==> invoice_status is Some),
        ensures
            r == (match found {
                None => Err(TransactionRuleError::RowNotFound),
                Some(t) => if t.installment_id is Some {
                    Err(TransactionRuleError::InstallmentDelete)
                } else if invoice_status is Some && invoice_status != Some(InvoiceStatus::Open) {
                    Err(TransactionRuleError::InvoiceClosedOnDelete)
                } else {
                    Ok(())
                },
            }),
    {
        match found {
            None => Err(TransactionRuleError::RowNotFound),
            Some(t) => {
                if t.installment_id.is_some() {
                    Err(TransactionRuleError::InstallmentDelete)
                } else {
                    match invoice_status {
                        Some(InvoiceStatus::Open) | None => Ok(()),
                        Some(_) => Err(TransactionRuleError::InvoiceClosedOnDelete),
                    }
                }
            },
        }
    }

    /// The rules checked before changing a transaction: it exists, does not
    /// belong to an installment purchase, and its invoice, if any, is open.
    pub fn check_editable(
        found: Option<&Transaction>,
        invoice_status: Option<InvoiceStatus>,
    ) -> (r: Result<(), TransactionRuleError>)
        requires
            found matches Some(t) ==> (t.invoice_id is Some <==> invoice_status is Some),
        ensures
            r == (match found {
                None => Err(TransactionRuleError::RowNotFound),
                Some(t) => if t.installment_id is Some {
                    Err(TransactionRuleError::InstallmentUpdate)
                } else if invoice_status is Some && invoice_status != Some(InvoiceStatus::Open) {
                    Err(TransactionRuleError::InvoiceClosedOnUpdate)
                } else {
                    Ok(())
                },
            }),
    {
        match found {
            None => Err(TransactionRuleError::RowNotFound),
            Some(t) => {
                if t.installment_id.is_some() {
                    Err(TransactionRuleError::InstallmentUpdate)
                } else {
                    match invoice_status {
                        Some(InvoiceStatus::Open) | None => Ok(()),
                        Some(_) => Err(TransactionRuleError::InvoiceClosedOnUpdate),
                    }
                }
            },
        }
    }

    /// The invoice a changed transaction is written with: none when it goes
    /// to an account; when it goes to a credit card, the invoice found for its
    /// date, which must be open. `target_invoice` is that invoice's id and
    /// status, found exactly when the target is a card.
    pub fn target_invoice(card_target: Option<i32>, target_invoice: Option<(i32, InvoiceStatus)>) -> (r:
        Result<Option<i32>, TransactionRuleError>)
        requires
            card_target is Some <==> target_invoice is Some,
        ensures
            match target_invoice {
                None => r == Ok::<Option<i32>, TransactionRuleError>(None),
                Some((id, status)) => if status == InvoiceStatus::Open {
                    r == Ok::<Option<i32>, TransactionRuleError>(Some(id))
                } else {
                    r == Err::<Option<i32>, TransactionRuleError>(
                        TransactionRuleError::TargetInvoiceClosed,
                    )
                },
            },
            r matches Ok(inv) ==> (inv is Some <==> card_target is Some),
    {
        match target_invoice {
            None => Ok(None),
            Some((id, status)) => {
                if status == InvoiceStatus::Open {
                    Ok(Some(id))
                } else {
                    Err(TransactionRuleError::TargetInvoiceClosed)
                }
            },
        }
    }

    /// Where a changed transaction goes: its account and credit card columns
    /// and its date. A credit card target needs an open invoice for that date.
    pub fn update_target(&self, payload: &UpdateTransactionPayload) -> (r: (
        Option<i32>,
        Option<i32>,
        Date,
    ))
        ensures
            (r.0, r.1) == next_source_columns(
                self.source,
                payload.account_id,
                payload.credit_card_id,
            ),
            r.2 == (match payload.date {
                Some(d) => d,
                None => self.date,
            }),
    {
        let (a, c) = compute_next_source_columns(
            &self.source,
            payload.account_id,
            payload.credit_card_id,
        );
        let d = match payload.date {
            Some(d) => d,
            None => self.date,
        };
        (a, c, d)
    }

    /// The row a change writes: each field given in the update replaces the
    /// current one; the category keeps its value when none is given; the
    /// invoice is the one found for the target, given exactly when the
    /// target is a credit card.
    pub fn apply_update(self, payload: UpdateTransactionPayload, invoice_id: Option<i32>) -> (r:
        TransactionUpdate)
        requires
            invoice_id is Some <==> next_source_columns(
                self.source,
                payload.account_id,
                payload.credit_card_id,
            ).1 is Some,
        ensures
            r.invoice_id is Some <==> r.credit_card_id is Some,
            (r.account_id, r.credit_card_id) == next_source_columns(
                self.source,
                payload.account_id,
                payload.credit_card_id,
            ),
            r.invoice_id == invoice_id,
            r.date == (match payload.date {
                Some(d) => d,
                None => self.date,
            }),
            r.category_id == (match payload.category_id {
                Some(c) => Some(c),
                None => self.category_id,
            }),
            r.transaction_type == (match payload.transaction_type {
                Some(t) => t,
                None => self.transaction_type,
            }),
            r.amount.value() == (match payload.amount {
                Some(a) => a.value(),
                None => self.amount.value(),
            }),
            r.description.view() == (match payload.description {
                Some(d) => d.view(),
                None => self.description.view(),
            }),
    {
        let (a, c, d) = self.update_target(&payload);
        let category_id = match payload.category_id {
            Some(c) => Some(c),
            None => self.category_id,
        };
        let transaction_type = match payload.transaction_type {
            Some(t) => t,
            None => self.transaction_type,
        };
        let amount = match payload.amount {
            Some(a) => a,
            None => self.amount,
        };
        let description = match payload.description {
            Some(d) => d,
            None => self.description,
        };
        TransactionUpdate {
            account_id: a,
            credit_card_id: c,
            invoice_id,
            category_id,
            transaction_type,
            amount,
            date: d,
            description,
        }
    }

    /// The source of a stored row, read from its account and credit card
    /// columns; a row with both or neither is refused.
    pub fn source_from_columns(account_id: Option<i32>, credit_card_id: Option<i32>) -> (r: Result<
        TransactionSource,
        &'static str,
    >)
        ensures
            match TransactionSource::from_columns_spec(account_id, credit_card_id) {
                Some(s) => r == Ok::<TransactionSource, &'static str>(s),
                None => r is Err && r->Err_0@
                    == "Transação deve pertencer a uma conta ou a um cartão de crédito."@,
            },
    {
        match TransactionSource::from_columns(account_id, credit_card_id) {
            Some(s) => Ok(s),
            None => Err("Transação deve pertencer a uma conta ou a um cartão de crédito."),
        }
    }
}

impl NewTransaction {
    /// The account and credit card columns of the new row.
    pub fn source_columns(&self) -> (r: (Option<i32>, Option<i32>))
        ensures
            r == self.source.columns(),
    {
        self.source.to_columns()
    }
}

} // verus!
