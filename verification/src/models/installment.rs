//! Installment purchases on a credit card: how a total is apportioned over
//! monthly transactions, and when an installment may be adjusted or removed.

use super::amount::{
    Amount, decimal_checked_div, decimal_checked_mul, decimal_checked_sub,
    decimal_trunc_with_scale, difference_fits_parts, pow10, scaled_parts, MAX_MANTISSA, MAX_SCALE,
};
use super::date::{add_months_spec, lemma_months_in_range_below, months_in_range, Date, Timestamp};
use super::error::{business_error, ModelError};
use super::text::{int_to_decimal, lemma_no_edge_ws_trim_is_identity, push_i32_text, push_str_chars};
use super::transaction::{NewTransaction, Transaction};
use super::types::{
    InstallmentCount, InvoiceStatus, NonEmptyString, PositiveAmount, TransactionSource,
    TransactionType,
};
use vstd::prelude::*;

verus! {

/// A stored installment purchase.
#[derive(Debug)]
pub struct Installment {
    pub id: i32,
    pub credit_card_id: i32,
    pub description: NonEmptyString,
    pub total_amount: PositiveAmount,
    pub installments_count: InstallmentCount,
    pub created_at: Timestamp,
    pub updated_at: Timestamp,
}

/// An installment purchase with the transactions it generated.
#[derive(Debug)]
pub struct InstallmentDetails {
    pub installment: Installment,
    pub transactions: Vec<Transaction>,
}

/// An installment purchase to be recorded.
#[derive(Debug)]
pub struct NewInstallment {
    pub credit_card_id: i32,
    pub category_id: Option<i32>,
    pub description: NonEmptyString,
    pub total_amount: PositiveAmount,
    pub installments_count: InstallmentCount,
    pub date: Date,
}

/// The text of the error for an installment below one cent.
pub open spec fn too_small_message() -> Seq<char> {
    "Installment amount too small for this count (min 0.01/installment)."@
}

/// The text of the error for an apportionment `rust_decimal` cannot compute.
pub open spec fn out_of_range_message() -> Seq<char> {
    "Installment amount out of range."@
}

/// The description of installment `i` of `n`: `"<description> (i/n)"`.
pub open spec fn installment_description(desc: Seq<char>, i: int, n: int) -> Seq<char> {
    desc + seq![' ', '('] + int_to_decimal(i) + seq!['/'] + int_to_decimal(n) + seq![')']
}

/// The parts of `base * (n - 1)` when `rust_decimal` computes it exactly.
pub open spec fn exact_product_parts(base: (int, int), n: int) -> (int, int) {
    if n - 1 == 0 || base.0 == 0 {
        (0, 0)
    } else {
        (base.0 * (n - 1), base.1)
    }
}

/// The apportionment of `total` (mantissa and scale) over `n` installments:
/// the amount of each installment but the last (the quotient cut to two
/// decimal places) and the amount of the last (the total minus the others),
/// or the text of the error that stops it.
pub open spec fn installment_split(total: (int, int), n: int) -> Result<((int, int), (int, int)), Seq<char>> {
    match decimal_checked_div(total.0, total.1, n, 0) {
        None => Err(out_of_range_message()),
        Some(q) => {
            let base = decimal_trunc_with_scale(q.0, q.1, 2);
            if base.0 == 0 {
                Err(too_small_message())
            } else {
                match decimal_checked_mul(base.0, base.1, n - 1, 0) {
                    None => Err(out_of_range_message()),
                    Some(p) => match decimal_checked_sub(total.0, total.1, p.0, p.1) {
                        None => Err(out_of_range_message()),
                        Some(last) => if n >= 2 && base.0 <= 0 {
                            Err("Value must be greater than zero"@)
                        } else if last.0 <= 0 {
                            Err("Value must be greater than zero"@)
                        } else {
                            Ok((base, last))
                        },
                    },
                }
            }
        },
    }
}

/// The apportionment is carried out exactly by `rust_decimal`: the product
/// of the base amount by `n - 1` and the remainder both fit in a `Decimal`.
pub open spec fn exact_split(total: (int, int), base: (int, int), n: int) -> bool {
    &&& 0 <= base.1 <= MAX_SCALE
    &&& -MAX_MANTISSA <= base.0 * (n - 1) <= MAX_MANTISSA
    &&& difference_fits_parts(total, exact_product_parts(base, n))
}

/// The sum of the amounts of planned transactions, each multiplied by `10^28`.
pub open spec fn sum_scaled(txs: Seq<NewTransaction>) -> int
    decreases txs.len(),
{
    if txs.len() == 0 {
        0
    } else {
        sum_scaled(txs.drop_last()) + txs.last().amount.value().scaled()
    }
}

/// Transaction `k` (from zero) of the series an installment purchase generates.
pub open spec fn planned_transaction(
    t: NewTransaction,
    inst: NewInstallment,
    installment_id: i32,
    k: int,
    base: (int, int),
    last: (int, int),
) -> bool {
    let n = inst.installments_count.value() as int;
    &&& t.category_id == inst.category_id
    &&& t.source == TransactionSource::CreditCard { credit_card_id: inst.credit_card_id }
    &&& t.transaction_type == TransactionType::Expense
    &&& t.amount.value().parts() == (if k == n - 1 {
        last
    } else {
        base
    })
    &&& t.date == add_months_spec(inst.date, k)
    &&& t.description.view() == installment_description(inst.description.view(), k + 1, n)
    &&& t.installment_id == Some(installment_id)
    &&& t.installment_number == Some((k + 1) as i16)
    &&& t.tags@.len() == 0
}

proof fn lemma_sum_split(txs: Seq<NewTransaction>, b: int, l: int, m: int)
    requires
        0 <= m <= txs.len(),
        forall|k: int| 0 <= k < txs.len() - 1 ==> #[trigger] txs[k].amount.value().scaled() == b,
        txs.len() >= 1 ==> txs[txs.len() - 1].amount.value().scaled() == l,
    ensures
        sum_scaled(txs.subrange(0, m)) == (if m == txs.len() && m >= 1 {
            (m - 1) * b + l
        } else {
            m * b
        }),
    decreases m,
{
    if m > 0 {
        lemma_sum_split(txs, b, l, m - 1);
        let s = txs.subrange(0, m);
        assert(s.drop_last() =~= txs.subrange(0, m - 1));
        assert(s.last() == txs[m - 1]);
        assert(sum_scaled(s) == sum_scaled(s.drop_last()) + s.last().amount.value().scaled());
        assert(sum_scaled(txs.subrange(0, m - 1)) == (m - 1) * b);
        if m < txs.len() {
            assert(txs[m - 1].amount.value().scaled() == b);
        }
        assert((m - 1) * b + b == m * b) by (nonlinear_arith);
        if m == txs.len() {
            assert(txs[m - 1].amount.value().scaled() == l);
        }
    } else {
        assert(txs.subrange(0, 0).len() == 0);
        assert(0 * b == 0) by (nonlinear_arith);
    }
}

proof fn lemma_scaled_product(b0: int, b1: int, n: int)
    ensures
        (b0 * (n - 1)) * pow10((MAX_SCALE - b1) as nat) == (n - 1) * (b0 * pow10(
            (MAX_SCALE - b1) as nat,
        )),
{
    let p = pow10((MAX_SCALE - b1) as nat);
    assert((b0 * (n - 1)) * p == (n - 1) * (b0 * p)) by (nonlinear_arith);
}

/// One cent, multiplied by `10^28`.
pub open spec fn cent_scaled() -> int {
    100000000000000000000000000
}

/// A total (multiplied by `10^28`) divided by `n` and cut down to whole
/// cents.
pub open spec fn cent_floor(total: int, n: int) -> int {
    (total / (n * cent_scaled())) * cent_scaled()
}

/// The remainder goes to the last installment: when each installment but
/// the last is the total divided by the count and cut down to whole cents,
/// and the installments add up to the total, the last one is at least that
/// amount and less than it plus one cent per installment.
pub proof fn lemma_last_installment_bound(total: int, n: int, base: int, last: int)
    requires
        n >= 1,
        base == cent_floor(total, n),
        (n - 1) * base + last == total,
    ensures
        base <= last < base + n * cent_scaled(),
{
    let c = cent_scaled();
    let d = n * c;
    assert(d > 0) by (nonlinear_arith)
        requires
            n >= 1,
            c == 100000000000000000000000000int,
            d == n * c,
    ;
    let q = total / d;
    vstd::arithmetic::div_mod::lemma_fundamental_div_mod(total, d);
    assert(0 <= total % d < d) by {
        vstd::arithmetic::div_mod::lemma_mod_bound(total, d);
    }
    assert(base <= last < base + n * c) by (nonlinear_arith)
        requires
            d == n * c,
            c == cent_scaled(),
            total == d * q + total % d,
            0 <= total % d < d,
            base == q * c,
            (n - 1) * base + last == total,
    ;
}

impl Installment {
    /// The transactions an installment purchase generates, one a month from
    /// its date: each but the last carries the total divided by the count and
    /// cut to two decimal places, the last carries the rest. An amount below
    /// one cent is refused. `installment_id` is the stored purchase's id.
    pub fn plan_transactions(new_inst: &NewInstallment, installment_id: i32) -> (r: Result<
        Vec<NewTransaction>,
        ModelError,
    >)
        requires
            new_inst.date.wf(),
            months_in_range(new_inst.date, new_inst.installments_count.value() - 1),
        ensures
            match installment_split(
                new_inst.total_amount.value().parts(),
                new_inst.installments_count.value() as int,
            ) {
                Err(msg) => r is Err && r->Err_0 is BusinessLogic && r->Err_0->BusinessLogic_0@
                    == msg,
                Ok((base, last)) => {
                    &&& r is Ok
                    &&& r->Ok_0@.len() == new_inst.installments_count.value()
                    &&& forall|k: int|
                        0 <= k < r->Ok_0@.len() ==> planned_transaction(
                            #[trigger] r->Ok_0@[k],
                            *new_inst,
                            installment_id,
                            k,
                            base,
                            last,
                        )
                    &&& exact_split(
                        new_inst.total_amount.value().parts(),
                        base,
                        new_inst.installments_count.value() as int,
                    ) ==> sum_scaled(r->Ok_0@) == new_inst.total_amount.value().scaled()
                    &&& exact_split(
                        new_inst.total_amount.value().parts(),
                        base,
                        new_inst.installments_count.value() as int,
                    ) && scaled_parts(base) == cent_floor(
                        new_inst.total_amount.value().scaled(),
                        new_inst.installments_count.value() as int,
                    ) ==> scaled_parts(base) <= scaled_parts(last) < scaled_parts(base)
                        + new_inst.installments_count.value() * cent_scaled()
                },
            },
    {
        let total = new_inst.total_amount.as_decimal();
        let n = new_inst.installments_count.get();
        let ghost tp = total.parts();
        let count_dec = Amount::from_i16(n);
        let q = match total.checked_div(&count_dec) {
            Some(q) => q,
            None => {
                return Err(business_error("Installment amount out of range."));
            },
        };
        let base = q.trunc_with_scale(2);
        if base.is_zero() {
            return Err(
                business_error("Installment amount too small for this count (min 0.01/installment)."),
            );
        }
        let count_less_one = Amount::from_i16(n - 1);
        let total_base = match base.checked_mul(&count_less_one) {
            Some(x) => x,
            None => {
                return Err(business_error("Installment amount out of range."));
            },
        };
        let last_amount = match total.checked_sub(&total_base) {
            Some(x) => x,
            None => {
                return Err(business_error("Installment amount out of range."));
            },
        };
        let ghost b = base.parts();
        let ghost l = last_amount.parts();
        let base_scale = base.scale();
        proof {
            assert(installment_split(tp, n as int) == (if n >= 2 && b.0 <= 0 {
                Err::<((int, int), (int, int)), Seq<char>>("Value must be greater than zero"@)
            } else if l.0 <= 0 {
                Err("Value must be greater than zero"@)
            } else {
                Ok((b, l))
            }));
        }
        let mut txs: Vec<NewTransaction> = Vec::new();
        let mut i: i32 = 1;
        while i <= n as i32
            invariant
                1 <= i <= n + 1,
                i > 1 && n >= 2 ==> b.0 > 0,
                i > n ==> l.0 > 0,
                n == new_inst.installments_count.value(),
                n >= 1,
                new_inst.date.wf(),
                months_in_range(new_inst.date, n - 1),
                base.parts() == b,
                last_amount.parts() == l,
                txs@.len() == i - 1,
                tp == new_inst.total_amount.value().parts(),
                installment_split(tp, n as int) == (if n >= 2 && b.0 <= 0 {
                    Err::<((int, int), (int, int)), Seq<char>>("Value must be greater than zero"@)
                } else if l.0 <= 0 {
                    Err("Value must be greater than zero"@)
                } else {
                    Ok((b, l))
                }),
                forall|k: int|
                    0 <= k < txs@.len() ==> planned_transaction(
                        #[trigger] txs@[k],
                        *new_inst,
                        installment_id,
                        k,
                        b,
                        l,
                    ),
            decreases n + 1 - i,
        {
            proof {
                lemma_months_in_range_below(new_inst.date, (i - 1) as int, (n - 1) as int);
            }
            let tx_date = new_inst.date.checked_add_months((i - 1) as u32).unwrap();
            let i16v: i16 = i as i16;
            let tx_amount = if i16v == n {
                match PositiveAmount::try_from(last_amount) {
                    Ok(a) => a,
                    Err(e) => {
                        return Err(business_error(e));
                    },
                }
            } else {
                match PositiveAmount::try_from(base) {
                    Ok(a) => a,
                    Err(e) => {
                        return Err(business_error(e));
                    },
                }
            };
            let desc = new_inst.description.as_str();
            let mut text: Vec<char> = Vec::new();
            push_str_chars(&mut text, desc);
            text.push(' ');
            text.push('(');
            push_i32_text(&mut text, i);
            text.push('/');
            push_i32_text(&mut text, n as i32);
            text.push(')');
            proof {
                assert(text@ =~= installment_description(desc@, i as int, n as int));
                super::text::lemma_trim_shape(desc@);
                assert(text@[0] == desc@[0]);
                assert(text@[text@.len() - 1] == ')');
                lemma_no_edge_ws_trim_is_identity(text@);
            }
            let tx_desc = match NonEmptyString::from_chars(&text) {
                Ok(d) => d,
                Err(e) => {
                    return Err(business_error(e));
                },
            };
            let new_tx = NewTransaction {
                category_id: new_inst.category_id,
                source: TransactionSource::CreditCard { credit_card_id: new_inst.credit_card_id },
                transaction_type: TransactionType::Expense,
                amount: tx_amount,
                date: tx_date,
                description: tx_desc,
                installment_id: Some(installment_id),
                installment_number: Some(i16v),
                tags: Vec::new(),
            };
            txs.push(new_tx);
            i = i + 1;
        }
        proof {
            let ghost nn = n as int;
            if exact_split(tp, b, nn) {
                lemma_sum_split(txs@, scaled_parts(b), scaled_parts(l), txs@.len() as int);
                assert(txs@.subrange(0, txs@.len() as int) =~= txs@);
                lemma_scaled_product(b.0, b.1, nn);
                if scaled_parts(b) == cent_floor(new_inst.total_amount.value().scaled(), nn) {
                    lemma_last_installment_bound(
                        new_inst.total_amount.value().scaled(),
                        nn,
                        scaled_parts(b),
                        scaled_parts(l),
                    );
                }
            }
        }
        Ok(txs)
    }

    /// The rule checked before removing an installment purchase: none of its
    /// transactions lies on an invoice that is no longer open.
    /// `closed_count` is the number of such transactions.
    pub fn check_deletable(closed_count: i64) -> (r: Result<(), ModelError>)
        ensures
            closed_count <= 0 ==> r is Ok,
            closed_count > 0 ==> r is Err && r->Err_0 is BusinessLogic && r->Err_0->BusinessLogic_0@
                == "Budget/Invoice corresponding to one of the installments is already closed/paid."@,
    {
        if closed_count > 0 {
            Err(
                business_error(
                    "Budget/Invoice corresponding to one of the installments is already closed/paid.",
                ),
            )
        } else {
            Ok(())
        }
    }

    /// The rules checked before adjusting one installment: it exists, and its
    /// invoice, if any, is open. Gives the id of the transaction to change.
    /// `invoice_status` is the status of that transaction's invoice.
    pub fn check_adjustable(found: Option<&Transaction>, invoice_status: Option<InvoiceStatus>) -> (r:
        Result<i32, ModelError>)
        requires
            found matches Some(t) ==> (t.invoice_id is Some <==> invoice_status is Some),
        ensures
            found is None ==> r is Err && r->Err_0 is NotFound,
            found matches Some(t) ==> (if invoice_status is Some && invoice_status != Some(
                InvoiceStatus::Open,
            ) {
                r is Err && r->Err_0 is BusinessLogic && r->Err_0->BusinessLogic_0@
                    == "Cannot change an installment of a closed invoice/budget."@
            } else {
                r == Ok::<i32, ModelError>(t.id)
            }),
    {
        match found {
            None => Err(ModelError::NotFound),
            Some(t) => {
                match invoice_status {
                    Some(InvoiceStatus::Open) | None => Ok(t.id),
                    Some(_) => Err(
                        business_error("Cannot change an installment of a closed invoice/budget."),
                    ),
                }
            },
        }
    }
}

} // verus!
