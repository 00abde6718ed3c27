use moneta_cli::models::account::AccountBalance;
use moneta_cli::models::amount::Amount;
use moneta_cli::models::budget::{Budget, SpendFilter};
use moneta_cli::models::date::{safe_from_ymd, Date, Timestamp};
use moneta_cli::models::error::ModelError;
use moneta_cli::models::installment::{Installment, NewInstallment};
use moneta_cli::models::invoice::Invoice;
use moneta_cli::models::overview::{CreditCardOverview, InvoiceOverview, OverviewResponse};
use moneta_cli::models::recurrence::{Recurrence, UpdateRecurrencePayload};
use moneta_cli::models::transaction::{Transaction, TransactionRuleError, UpdateTransactionPayload};
use moneta_cli::models::types::{
    BudgetPeriod, InstallmentCount, InvoiceStatus, Month, NonEmptyString, PositiveAmount,
    RecurrenceFrequency, TransactionSource, TransactionStatus, TransactionType, Year,
};

fn d(y: i32, m: u32, day: u32) -> Date {
    Date { year: y, month: m, day }
}

fn text(s: &str) -> NonEmptyString {
    NonEmptyString::from_str(s).unwrap()
}

fn amount(s: &str) -> PositiveAmount {
    PositiveAmount::from_str(s).unwrap()
}

/// The mantissa and scale of a decimal written as text.
fn parts(text: &str) -> (i128, u32) {
    let negative = text.starts_with('-');
    let digits = text.trim_start_matches('-');
    let (whole, frac) = digits.split_once('.').unwrap_or((digits, ""));
    let m: i128 = format!("{}{}", whole, frac).parse().unwrap();
    (if negative { -m } else { m }, frac.len() as u32)
}

/// Whether the amount has the value written.
fn same(a: Amount, text: &str) -> bool {
    let (m, s) = parts(text);
    let k = a.scale().max(s);
    a.mantissa() * 10i128.pow(k - a.scale()) == m * 10i128.pow(k - s)
}

fn dec(text: &str) -> Amount {
    let (m, s) = parts(text);
    Amount::from_parts(m, s).unwrap()
}

fn business_text(e: ModelError) -> String {
    match e {
        ModelError::BusinessLogic(m) => m,
        other => panic!("unexpected error: {:?}", other),
    }
}

fn purchase(total: &str, count: i16) -> NewInstallment {
    NewInstallment {
        credit_card_id: 4,
        category_id: Some(2),
        description: text("Mouse"),
        total_amount: amount(total),
        installments_count: InstallmentCount::try_from(count).unwrap(),
        date: d(2026, 7, 20),
    }
}

fn stored(invoice_id: Option<i32>, installment_id: Option<i32>) -> Transaction {
    Transaction {
        id: 12,
        category_id: Some(1),
        source: TransactionSource::CreditCard { credit_card_id: 4 },
        invoice_id,
        installment_id,
        recurrence_id: None,
        transaction_type: TransactionType::Expense,
        amount: amount("10.00"),
        date: d(2026, 1, 15),
        description: text("Lanche"),
        installment_number: None,
        status: TransactionStatus::Cleared,
        tags: vec![],
        created_at: Timestamp { micros: 0 },
        updated_at: Timestamp { micros: 0 },
    }
}

#[test]
fn ten_in_three_installments() {
    let txs = Installment::plan_transactions(&purchase("10.00", 3), 77).unwrap();
    assert_eq!(txs.len(), 3);
    assert!(same(txs[0].amount.as_decimal(), "3.33"));
    assert!(same(txs[1].amount.as_decimal(), "3.33"));
    assert!(same(txs[2].amount.as_decimal(), "3.34"));
    assert_eq!(txs[0].date, d(2026, 7, 20));
    assert_eq!(txs[1].date, d(2026, 8, 20));
    assert_eq!(txs[2].date, d(2026, 9, 20));
    assert_eq!(txs[2].installment_number, Some(3));
    assert_eq!(txs[0].installment_id, Some(77));
    assert_eq!(txs[1].description.as_str(), "Mouse (2/3)");
    assert_eq!(txs[0].source, TransactionSource::CreditCard { credit_card_id: 4 });
    assert_eq!(txs[0].transaction_type, TransactionType::Expense);
}

fn scaled_to_4(a: Amount) -> i128 {
    a.mantissa() * 10i128.pow(4 - a.scale())
}

#[test]
fn installments_add_up_to_the_total() {
    let txs = Installment::plan_transactions(&purchase("100.00", 7), 1).unwrap();
    assert_eq!(txs.len(), 7);
    let sum: i128 = txs.iter().map(|t| scaled_to_4(t.amount.as_decimal())).sum();
    assert_eq!(sum, 1_000_000);
    assert!(same(txs[0].amount.as_decimal(), "14.28"));
    assert!(same(txs[6].amount.as_decimal(), "14.32"));
}

#[test]
fn below_one_cent_per_installment_is_refused() {
    let e = Installment::plan_transactions(&purchase("0.05", 10), 1).unwrap_err();
    assert_eq!(business_text(e), "Installment amount too small for this count (min 0.01/installment).");
}

#[test]
fn installment_guards() {
    assert!(Installment::check_deletable(0).is_ok());
    assert_eq!(
        business_text(Installment::check_deletable(2).unwrap_err()),
        "Budget/Invoice corresponding to one of the installments is already closed/paid."
    );
    assert!(matches!(Installment::check_adjustable(None, None), Err(ModelError::NotFound)));
    let t = stored(Some(3), Some(9));
    assert_eq!(Installment::check_adjustable(Some(&t), Some(InvoiceStatus::Open)).unwrap(), 12);
    assert_eq!(
        business_text(Installment::check_adjustable(Some(&t), Some(InvoiceStatus::Closed)).unwrap_err()),
        "Cannot change an installment of a closed invoice/budget."
    );
}

#[test]
fn invoice_period_with_billing_day_25() {
    let (m, y) = Invoice::period_for(d(2026, 7, 20), 25).unwrap();
    assert_eq!((m.as_i16(), y.as_i16()), (7, 2026));
    let (m, y) = Invoice::period_for(d(2026, 7, 25), 25).unwrap();
    assert_eq!((m.as_i16(), y.as_i16()), (8, 2026));
    let (m, y) = Invoice::period_for(d(2026, 7, 26), 25).unwrap();
    assert_eq!((m.as_i16(), y.as_i16()), (8, 2026));
    let p = Invoice::placement_for(d(2026, 7, 20), 25, 5).unwrap();
    assert_eq!(p.due_date, d(2026, 8, 5));
    let p = Invoice::placement_for(d(2026, 7, 26), 25, 5).unwrap();
    assert_eq!(p.due_date, d(2026, 9, 5));
}

#[test]
fn invoice_period_edge_cases() {
    let p = Invoice::placement_for(d(2026, 9, 20), 25, 28).unwrap();
    assert_eq!((p.month.as_i16(), p.year.as_i16(), p.due_date), (9, 2026, d(2026, 9, 28)));
    let p = Invoice::placement_for(d(2026, 11, 26), 25, 28).unwrap();
    assert_eq!((p.month.as_i16(), p.year.as_i16(), p.due_date), (12, 2026, d(2026, 12, 28)));
    let p = Invoice::placement_for(d(2026, 12, 26), 25, 28).unwrap();
    assert_eq!((p.month.as_i16(), p.year.as_i16(), p.due_date), (1, 2027, d(2027, 1, 28)));
    assert_eq!(
        Invoice::period_for(d(1999, 5, 1), 25).unwrap_err(),
        "Year must be greater than or equal to 2000"
    );
}

#[test]
fn invoice_due_date_clamps_to_month_end() {
    let m = Month::try_from(2).unwrap();
    let y = Year::try_from(2026).unwrap();
    assert_eq!(Invoice::due_date_for(m, y, 10, 31), d(2026, 2, 28));
    assert_eq!(Invoice::due_date_for(m, y, 10, 5), d(2026, 3, 5));
}

#[test]
fn invoice_payment_text_and_amount() {
    let m = Month::try_from(7).unwrap();
    let y = Year::try_from(2026).unwrap();
    assert_eq!(Invoice::payment_description(m, y), "Pagamento Fatura 7/2026");
}

#[test]
fn invoice_status_transitions() {
    assert_eq!(InvoiceStatus::Open.after_close(), Some(InvoiceStatus::Closed));
    assert_eq!(InvoiceStatus::Closed.after_reopen(), Some(InvoiceStatus::Open));
    assert_eq!(InvoiceStatus::Closed.after_pay(), Some(InvoiceStatus::Paid));
    assert_eq!(InvoiceStatus::Open.after_pay(), None);
    assert_eq!(InvoiceStatus::Paid.after_close(), None);
    assert_eq!(InvoiceStatus::Paid.after_reopen(), None);
    assert_eq!(InvoiceStatus::Paid.after_pay(), None);
    let closed = InvoiceStatus::Open.after_close().unwrap();
    assert_eq!(closed.after_reopen(), Some(InvoiceStatus::Open));
}

#[test]
fn transaction_guards() {
    assert_eq!(Transaction::check_deletable(None, None), Err(TransactionRuleError::RowNotFound));
    let inst = stored(None, Some(5));
    assert_eq!(Transaction::check_deletable(Some(&inst), None), Err(TransactionRuleError::InstallmentDelete));
    assert_eq!(Transaction::check_editable(Some(&inst), None), Err(TransactionRuleError::InstallmentUpdate));
    let on_invoice = stored(Some(3), None);
    assert_eq!(
        Transaction::check_deletable(Some(&on_invoice), Some(InvoiceStatus::Closed)),
        Err(TransactionRuleError::InvoiceClosedOnDelete)
    );
    assert_eq!(
        Transaction::check_editable(Some(&on_invoice), Some(InvoiceStatus::Paid)),
        Err(TransactionRuleError::InvoiceClosedOnUpdate)
    );
    assert_eq!(Transaction::check_editable(Some(&on_invoice), Some(InvoiceStatus::Open)), Ok(()));
    assert_eq!(Transaction::check_invoice_accepts(InvoiceStatus::Closed), Err(TransactionRuleError::InvoiceClosedOnInsert));
    assert_eq!(
        Transaction::target_invoice(Some(4), Some((30, InvoiceStatus::Paid))),
        Err(TransactionRuleError::TargetInvoiceClosed)
    );
    assert_eq!(Transaction::target_invoice(Some(4), Some((30, InvoiceStatus::Open))), Ok(Some(30)));
    assert_eq!(Transaction::target_invoice(None, None), Ok(None));
    assert_eq!(
        TransactionRuleError::InvoiceClosedOnDelete.message(),
        "Não é possível deletar transação de uma fatura fechada ou paga."
    );
}

#[test]
fn transaction_update_moves_to_an_account() {
    let t = stored(Some(3), None);
    let payload = UpdateTransactionPayload {
        account_id: Some(8),
        credit_card_id: None,
        category_id: None,
        transaction_type: None,
        amount: Some(amount("20.00")),
        date: None,
        description: Some(text("Jantar")),
    };
    let (a, c, date) = t.update_target(&payload);
    assert_eq!((a, c, date), (Some(8), None, d(2026, 1, 15)));
    let row = t.apply_update(payload, None);
    assert_eq!((row.account_id, row.credit_card_id, row.invoice_id), (Some(8), None, None));
    assert_eq!(row.category_id, Some(1));
    assert!(same(row.amount.as_decimal(), "20"));
    assert_eq!(row.description.as_str(), "Jantar");
    assert_eq!(
        Transaction::source_from_columns(Some(1), Some(2)).unwrap_err(),
        "Transação deve pertencer a uma conta ou a um cartão de crédito."
    );
}

fn budget(period: BudgetPeriod, category_id: Option<i32>, tag_id: Option<i32>) -> Budget {
    Budget {
        id: 1,
        category_id,
        tag_id,
        amount_limit: amount("500.0"),
        period,
        created_at: Timestamp { micros: 0 },
        updated_at: Timestamp { micros: 0 },
    }
}

#[test]
fn budget_periods() {
    let w = budget(BudgetPeriod::Weekly, Some(1), None);
    assert_eq!(w.period_bounds(d(2023, 6, 15)), (d(2023, 6, 12), d(2023, 6, 18)));
    let m = budget(BudgetPeriod::Monthly, Some(1), None);
    assert_eq!(m.period_bounds(d(2024, 2, 10)), (d(2024, 2, 1), d(2024, 2, 29)));
    let y = budget(BudgetPeriod::Yearly, Some(1), None);
    assert_eq!(y.period_bounds(d(2023, 6, 15)), (d(2023, 1, 1), d(2023, 12, 31)));
}

#[test]
fn budget_target_and_filter() {
    assert!(Budget::check_target(Some(1), None).is_ok());
    assert_eq!(
        business_text(Budget::check_target(None, None).unwrap_err()),
        "Orçamento deve ter uma categoria ou tag associada."
    );
    assert_eq!(budget(BudgetPeriod::Monthly, Some(4), Some(5)).spend_filter(), Some(SpendFilter::Category(4)));
    assert_eq!(budget(BudgetPeriod::Monthly, None, Some(5)).spend_filter(), Some(SpendFilter::Tag(5)));
    assert_eq!(budget(BudgetPeriod::Monthly, None, None).spend_filter(), None);
    assert!(same(Budget::spend_or_zero(None), "0"));
}

#[test]
fn account_balance_defaults_to_zero() {
    let b = AccountBalance::from_sum(3, None);
    assert_eq!(b.account_id, 3);
    assert!(same(b.balance, "0"));
    let b = AccountBalance::from_sum(3, Some(dec("-12.5")));
    assert!(same(b.balance, "-12.5"));
}

#[test]
fn dates_clamp_to_month_end() {
    assert_eq!(safe_from_ymd(2023, 2, 31), d(2023, 2, 28));
    assert_eq!(safe_from_ymd(2024, 2, 31), d(2024, 2, 29));
    assert_eq!(safe_from_ymd(2023, 4, 30), d(2023, 4, 30));
    assert!(d(2023, 1, 1).is_on_or_before(&d(2023, 1, 1)));
    assert!(!d(2023, 1, 2).is_on_or_before(&d(2023, 1, 1)));
}

#[test]
fn positive_amounts_compare_by_value() {
    let a = PositiveAmount::from_str("10.50").unwrap();
    let b = PositiveAmount::from_str("10.5").unwrap();
    let c = PositiveAmount::from_str("10.51").unwrap();
    assert!(a.same_value(&b));
    assert!(!a.same_value(&c));
}

fn recurrence(start: Date, last: Option<Date>) -> Recurrence {
    Recurrence {
        id: 1,
        category_id: 2,
        source: TransactionSource::Account { account_id: 3 },
        transaction_type: TransactionType::Expense,
        amount: amount("100.0"),
        description: text("Mensalidade"),
        frequency: RecurrenceFrequency::Monthly,
        start_date: start,
        end_date: None,
        last_processed_date: last,
        created_at: Timestamp { micros: 0 },
        updated_at: Timestamp { micros: 0 },
    }
}

#[test]
fn monthly_recurrence_keeps_the_start_day() {
    let r = recurrence(d(2023, 1, 31), None);
    let ref_date = d(2023, 4, 1);
    assert!(r.is_pending(&ref_date));
    assert_eq!(r.due_dates(&ref_date), vec![d(2023, 1, 31), d(2023, 2, 28), d(2023, 3, 31)]);
}

#[test]
fn second_sync_generates_nothing() {
    let r = recurrence(d(2023, 1, 15), None);
    let ref_date = d(2023, 3, 15);
    let dates = r.due_dates(&ref_date);
    assert_eq!(dates.len(), 3);
    let synced = recurrence(d(2023, 1, 15), Some(*dates.last().unwrap()));
    assert!(!synced.is_pending(&ref_date));
    let later = d(2023, 4, 20);
    assert!(synced.is_pending(&later));
    assert_eq!(synced.due_dates(&later), vec![d(2023, 4, 15)]);
}

#[test]
fn recurrence_steps_and_transactions() {
    let mut r = recurrence(d(2023, 1, 31), None);
    r.frequency = RecurrenceFrequency::Weekly;
    assert_eq!(r.next_date(d(2023, 12, 28)), d(2024, 1, 4));
    r.frequency = RecurrenceFrequency::Yearly;
    assert_eq!(r.next_date(d(2023, 1, 31)), d(2024, 1, 31));
    r.frequency = RecurrenceFrequency::Daily;
    assert_eq!(r.next_date(d(2023, 2, 28)), d(2023, 3, 1));
    r.end_date = Some(d(2023, 2, 1));
    assert!(r.is_past_end(&d(2023, 2, 2)));
    assert!(!r.is_past_end(&d(2023, 2, 1)));
    let t = r.transaction_for(d(2023, 2, 1));
    assert_eq!(t.date, d(2023, 2, 1));
    assert_eq!(t.category_id, Some(2));
    assert_eq!(t.description.as_str(), "Mensalidade");
}

#[test]
fn recurrence_update_keeps_end_date_unless_given() {
    let mut r = recurrence(d(2023, 1, 15), None);
    r.end_date = Some(d(2023, 12, 31));
    let payload = UpdateRecurrencePayload {
        category_id: None,
        account_id: None,
        credit_card_id: Some(9),
        transaction_type: None,
        amount: None,
        description: None,
        frequency: None,
        start_date: None,
        end_date: None,
    };
    let u = r.updated(payload);
    assert_eq!(u.source, TransactionSource::CreditCard { credit_card_id: 9 });
    assert_eq!(u.end_date, Some(d(2023, 12, 31)));
}

#[test]
fn overview_lines() {
    let inv = InvoiceOverview::from_row(7, 2026, InvoiceStatus::Open, None).unwrap();
    assert!(same(inv.amount, "0"));
    assert_eq!(InvoiceOverview::from_row(13, 2026, InvoiceStatus::Open, None).unwrap_err(), "Month must be between 1 and 12");
    let limit = dec("1000.00");
    let used = dec("300.00");
    assert!(same(CreditCardOverview::available_limit(&limit, &used).unwrap(), "700"));
    assert!(same(CreditCardOverview::available_limit(&used, &limit).unwrap(), "0"));
    let given = d(2026, 1, 1);
    assert_eq!(OverviewResponse::reference_date_or_today(Some(given)), given);
}

#[test]
fn last_installment_carries_the_remainder() {
    let txs = Installment::plan_transactions(&purchase("10.00", 3), 1).unwrap();
    let base = scaled_to_4(txs[0].amount.as_decimal());
    let last = scaled_to_4(txs[2].amount.as_decimal());
    assert!(base <= last && last < base + 3 * 100);
}

#[test]
fn a_quotient_rounded_up_to_a_cent_leaves_a_smaller_last_installment() {
    let txs = Installment::plan_transactions(&purchase("0.0299999999999999999999999999", 3), 1).unwrap();
    assert!(same(txs[0].amount.as_decimal(), "0.01"));
    assert!(same(txs[2].amount.as_decimal(), "0.0099999999999999999999999999"));
}
