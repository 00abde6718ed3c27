//! CSV import: the rows are read, checked, compared with what is stored,
//! and each new row becomes a transaction or an installment purchase.

use crate::commands::import::ImportError;
use crate::models::amount::{decimal_checked_mul, Amount};
use crate::models::date::add_months_spec;
use crate::models::import::{csv_record_error, parsed_from, texts, ParsedCsvRecord, RawCsvRecord};
use crate::models::text::{push_str_chars, string_from_chars};
use crate::models::transaction::NewTransaction;
use crate::models::types::{
    InstallmentCount, NonEmptyString, PositiveAmount, TransactionSource, TransactionType,
};
use crate::models::date::Date;
use vstd::prelude::*;

verus! {

/// What an import did, or would do in a dry run.
#[derive(Debug)]
pub struct ImportResult {
    /// The accepted rows of the file.
    pub total_rows: usize,
    /// The rows that are new.
    pub imported: usize,
    /// The rows already stored.
    pub skipped: usize,
    pub dry_run: bool,
}

impl ImportResult {
    /// The report of an import of `total_rows` rows of which `imported` are
    /// new; the others are skipped.
    pub fn summary(total_rows: usize, imported: usize, dry_run: bool) -> (r: ImportResult)
        requires
            imported <= total_rows,
        ensures
            r.total_rows == total_rows,
            r.imported == imported,
            r.skipped == total_rows - imported,
            r.dry_run == dry_run,
    {
        ImportResult { total_rows, imported, skipped: total_rows - imported, dry_run }
    }
}

/// The text of the first refused row at position `i` or later, or `None`
/// when every such row is accepted.
pub open spec fn first_row_error(raws: Seq<RawCsvRecord>, i: int) -> Option<Seq<char>>
    decreases raws.len() - i,
{
    if i < 0 || i >= raws.len() {
        None
    } else if csv_record_error(raws[i]) is Some {
        csv_record_error(raws[i])
    } else {
        first_row_error(raws, i + 1)
    }
}

/// Checks every row, in order; the first refused row stops the import with
/// a `Handler` error carrying its reason.
pub fn parse_records(raw_records: Vec<RawCsvRecord>) -> (r: Result<Vec<ParsedCsvRecord>, ImportError>)
    ensures
        r is Ok <==> first_row_error(raw_records@, 0) is None,
        r matches Err(e) ==> e matches ImportError::Handler(m) && m@ == first_row_error(
            raw_records@,
            0,
        )->Some_0,
        r matches Ok(v) ==> v@.len() == raw_records@.len() && forall|i: int|
            0 <= i < v@.len() ==> parsed_from(raw_records@[i], #[trigger] v@[i]),
{
    let mut parsed: Vec<ParsedCsvRecord> = Vec::new();
    let mut i: usize = 0;
    while i < raw_records.len()
        invariant
            i <= raw_records@.len(),
            parsed@.len() == i,
            first_row_error(raw_records@, 0) == first_row_error(raw_records@, i as int),
            forall|j: int| 0 <= j < i ==> parsed_from(raw_records@[j], #[trigger] parsed@[j]),
        decreases raw_records@.len() - i,
    {
        match ParsedCsvRecord::from_raw(&raw_records[i]) {
            Ok(p) => {
                parsed.push(p);
            },
            Err(msg) => {
                return Err(ImportError::Handler(msg));
            },
        }
        i = i + 1;
    }
    Ok(parsed)
}

/// The kind of source a row names.
#[derive(Debug, Clone, Copy, PartialEq, Eq, Structural)]
pub enum SourceKind {
    Account,
    CreditCard,
}

/// The characters of `prefix` followed by those of `tail`.
fn handler_message(prefix: &str, tail: &str) -> (r: ImportError)
    ensures
        r matches ImportError::Handler(m) && m@ == prefix@ + tail@,
{
    let mut v: Vec<char> = Vec::new();
    push_str_chars(&mut v, prefix);
    push_str_chars(&mut v, tail);
    ImportError::Handler(string_from_chars(v.as_slice()))
}

/// The kind of source named by a row's source type: `account` or
/// `credit_card`; any other text is refused.
pub fn source_kind(stype: &str) -> (r: Result<SourceKind, ImportError>)
    ensures
        stype@ == "account"@ ==> r == Ok::<SourceKind, ImportError>(SourceKind::Account),
        stype@ == "credit_card"@ ==> r == Ok::<SourceKind, ImportError>(SourceKind::CreditCard),
        stype@ != "account"@ && stype@ != "credit_card"@ ==> (r matches Err(
            ImportError::Handler(m),
        ) && m@ == "Tipo de origem inválido: "@ + stype@),
{
    proof {
        reveal_strlit("account");
        reveal_strlit("credit_card");
        assert("account"@.len() != "credit_card"@.len());
    }
    if text_equals(stype, "account") {
        Ok(SourceKind::Account)
    } else if text_equals(stype, "credit_card") {
        Ok(SourceKind::CreditCard)
    } else {
        Err(handler_message("Tipo de origem inválido: ", stype))
    }
}

/// Whether two texts hold the same characters.
fn text_equals(a: &str, b: &str) -> (r: bool)
    ensures
        r == (a@ == b@),
{
    let n = a.unicode_len();
    if n != b.unicode_len() {
        return false;
    }
    let mut i: usize = 0;
    while i < n
        invariant
            n == a@.len(),
            n == b@.len(),
            i <= n,
            a@.subrange(0, i as int) == b@.subrange(0, i as int),
        decreases n - i,
    {
        if a.get_char(i) != b.get_char(i) {
            assert(a@[i as int] != b@[i as int]);
            return false;
        }
        assert(a@.subrange(0, i + 1) =~= a@.subrange(0, i as int).push(a@[i as int]));
        assert(b@.subrange(0, i + 1) =~= b@.subrange(0, i as int).push(b@[i as int]));
        i = i + 1;
    }
    assert(a@ =~= a@.subrange(0, n as int));
    assert(b@ =~= b@.subrange(0, n as int));
    true
}

/// The source a row resolves to, given the id found under its name (the
/// account or the card of that name, or `None` when there is none).
pub fn resolve_found(kind: SourceKind, sname: &str, found: Option<i32>) -> (r: Result<
    TransactionSource,
    ImportError,
>)
    ensures
        found matches Some(id) ==> r == Ok::<TransactionSource, ImportError>(
            match kind {
                SourceKind::Account => TransactionSource::Account { account_id: id },
                SourceKind::CreditCard => TransactionSource::CreditCard { credit_card_id: id },
            },
        ),
        found is None && kind == SourceKind::Account ==> (r matches Err(ImportError::Handler(m))
            && m@ == "Conta não encontrada: "@ + sname@),
        found is None && kind == SourceKind::CreditCard ==> (r matches Err(
            ImportError::Handler(m),
        ) && m@ == "Cartão não encontrado: "@ + sname@),
{
    match (kind, found) {
        (SourceKind::Account, Some(id)) => Ok(TransactionSource::Account { account_id: id }),
        (SourceKind::CreditCard, Some(id)) => Ok(TransactionSource::CreditCard { credit_card_id: id }),
        (SourceKind::Account, None) => Err(handler_message("Conta não encontrada: ", sname)),
        (SourceKind::CreditCard, None) => Err(handler_message("Cartão não encontrado: ", sname)),
    }
}

/// What is written for one new row.
#[derive(Debug)]
pub enum RecordPlan {
    /// An installment purchase on a card, found again or created: the total
    /// of all installments, their number, and the date of the first one.
    Installment {
        credit_card_id: i32,
        category_id: Option<i32>,
        description: NonEmptyString,
        total_amount: PositiveAmount,
        count: InstallmentCount,
        purchase_date: Date,
    },
    /// An installment row whose source is an account: nothing is written.
    Skip,
    /// A plain expense.
    Transaction(NewTransaction),
}

/// The message of a total that overflows a decimal.
pub open spec fn total_overflow_message() -> Seq<char> {
    "Erro ao calcular parcela: Multiplication overflowed"@
}

/// The message of a total that is not positive.
pub open spec fn total_not_positive_message() -> Seq<char> {
    "Erro ao calcular parcela: Value must be greater than zero"@
}

/// The message of an installment count that is not positive.
pub open spec fn bad_count_message() -> Seq<char> {
    "Count de parcela inválido: Installments number must be greater than zero"@
}

/// Decides what a new row writes, given its resolved source and the id of
/// its category. A row without installments is an expense on its source. A
/// row `current/total` on a card is the purchase of `total` installments of
/// the row's amount, first charged `current - 1` months before the row's
/// date; on an account it writes nothing.
pub fn plan_record(rec: ParsedCsvRecord, source: TransactionSource, category_id: i32) -> (r: Result<
    RecordPlan,
    ImportError,
>)
    requires
        rec.date.wf(),
        rec.installment is Some && source is CreditCard ==> 1 <= rec.installment.unwrap().0
            && add_months_spec(rec.date, -(rec.installment.unwrap().0 - 1)).wf(),
    ensures
        rec.installment is None ==> (r matches Ok(RecordPlan::Transaction(t)) && {
            &&& t.category_id == Some(category_id)
            &&& t.source == source
            &&& t.transaction_type == TransactionType::Expense
            &&& t.amount.value() == rec.amount.value()
            &&& t.date == rec.date
            &&& t.description.view() == rec.description.view()
            &&& t.installment_id is None
            &&& t.installment_number is None
            &&& texts(t.tags@) == texts(rec.tags@)
        }),
        rec.installment is Some && source is Account ==> r matches Ok(RecordPlan::Skip),
        rec.installment is Some && source is CreditCard ==> {
            let ct = rec.installment.unwrap();
            let credit_card_id = source->credit_card_id;
            let product = decimal_checked_mul(
                rec.amount.value().m(),
                rec.amount.value().s(),
                ct.1 as int,
                0,
            );
            match product {
                None => (r matches Err(ImportError::Handler(m)) && m@ == total_overflow_message()),
                Some(p) => if p.0 <= 0 {
                    (r matches Err(ImportError::Handler(m)) && m@ == total_not_positive_message())
                } else if ct.1 <= 0 {
                    (r matches Err(ImportError::Handler(m)) && m@ == bad_count_message())
                } else {
                    (r matches Ok(
                        RecordPlan::Installment {
                            credit_card_id: id,
                            category_id: cat,
                            description: d,
                            total_amount: total,
                            count: n,
                            purchase_date: date,
                        },
                    ) && id == credit_card_id && cat == Some(category_id) && d.view()
                        == rec.description.view() && total.value().parts() == p && n.value() == ct.1
                        && date == add_months_spec(rec.date, -(ct.0 - 1)))
                },
            }
        },
{
    match rec.installment {
        None => {
            let t = NewTransaction {
                category_id: Some(category_id),
                source,
                transaction_type: TransactionType::Expense,
                amount: rec.amount,
                date: rec.date,
                description: rec.description,
                installment_id: None,
                installment_number: None,
                tags: rec.tags,
            };
            Ok(RecordPlan::Transaction(t))
        },
        Some((current, total)) => match source {
            TransactionSource::Account { .. } => Ok(RecordPlan::Skip),
            TransactionSource::CreditCard { credit_card_id } => {
                let unit = rec.amount.as_decimal();
                let product = match unit.checked_mul(&Amount::from_i16(total)) {
                    Some(p) => p,
                    None => {
                        proof {
                            reveal_strlit("Erro ao calcular parcela: ");
                            reveal_strlit("Multiplication overflowed");
                            reveal_strlit("Erro ao calcular parcela: Multiplication overflowed");
                            assert("Erro ao calcular parcela: "@ + "Multiplication overflowed"@
                                =~= total_overflow_message());
                        }
                        return Err(
                            handler_message("Erro ao calcular parcela: ", "Multiplication overflowed"),
                        );
                    },
                };
                let total_amount = match PositiveAmount::try_from(product) {
                    Ok(a) => a,
                    Err(e) => {
                        proof {
                            reveal_strlit("Erro ao calcular parcela: ");
                            reveal_strlit("Value must be greater than zero");
                            reveal_strlit("Erro ao calcular parcela: Value must be greater than zero");
                            assert("Erro ao calcular parcela: "@ + e@ =~= total_not_positive_message());
                        }
                        return Err(handler_message("Erro ao calcular parcela: ", e));
                    },
                };
                let count = match InstallmentCount::try_from(total) {
                    Ok(c) => c,
                    Err(e) => {
                        proof {
                            reveal_strlit("Count de parcela inválido: ");
                            reveal_strlit("Installments number must be greater than zero");
                            reveal_strlit(
                                "Count de parcela inválido: Installments number must be greater than zero",
                            );
                            assert("Count de parcela inválido: "@ + e@ =~= bad_count_message());
                        }
                        return Err(handler_message("Count de parcela inválido: ", e));
                    },
                };
                let months_back = (current - 1) as u32;
                let purchase_date = rec.date.checked_sub_months(months_back).unwrap();
                Ok(
                    RecordPlan::Installment {
                        credit_card_id,
                        category_id: Some(category_id),
                        description: rec.description,
                        total_amount,
                        count,
                        purchase_date,
                    },
                )
            },
        },
    }
}

} // verus!
