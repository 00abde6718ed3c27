use moneta_cli::commands::import::ImportError;
use moneta_cli::handlers::import::{
    parse_records, plan_record, resolve_found, source_kind, ImportResult, RecordPlan, SourceKind,
};
use moneta_cli::models::date::{Date, Timestamp};
use moneta_cli::models::import::{deduplicate_records, ParsedCsvRecord, RawCsvRecord};
use moneta_cli::models::transaction::Transaction;
use moneta_cli::models::types::{
    NonEmptyString, PositiveAmount, TransactionSource, TransactionStatus, TransactionType,
};

fn date(s: &str) -> Date {
    let mut it = s.split('-').map(|p| p.parse::<u32>().unwrap());
    let year = it.next().unwrap() as i32;
    Date { year, month: it.next().unwrap(), day: it.next().unwrap() }
}

fn amount(s: &str) -> PositiveAmount {
    PositiveAmount::from_str(s).unwrap()
}

fn text(s: &str) -> NonEmptyString {
    NonEmptyString::from_str(s).unwrap()
}

fn mock_parsed_record(d: &str, a: &str, description: &str) -> ParsedCsvRecord {
    ParsedCsvRecord {
        date: date(d),
        amount: amount(a),
        description: text(description),
        category: text("Test"),
        tags: vec![],
        installment: None,
        source_type: text("account"),
        source_name: text("Test Account"),
    }
}

fn mock_transaction(d: &str, a: &str, description: &str) -> Transaction {
    Transaction {
        id: 1,
        source: TransactionSource::Account { account_id: 1 },
        category_id: None,
        transaction_type: TransactionType::Expense,
        amount: amount(a),
        date: date(d),
        description: text(description),
        status: TransactionStatus::Cleared,
        installment_id: None,
        installment_number: None,
        invoice_id: None,
        recurrence_id: None,
        created_at: Timestamp { micros: 0 },
        updated_at: Timestamp { micros: 0 },
        tags: vec![],
    }
}

fn raw(d: &str, a: &str, description: &str, installments: &str) -> RawCsvRecord {
    RawCsvRecord {
        date: d.to_string(),
        amount: a.to_string(),
        description: description.to_string(),
        category: "Mercado".to_string(),
        tags: " casa | | viagem ".to_string(),
        installments: installments.to_string(),
        source_type: "credit_card".to_string(),
        source_name: " Nubank ".to_string(),
    }
}

fn handler_text(e: ImportError) -> String {
    match e {
        ImportError::Handler(m) => m,
        other => panic!("unexpected error: {:?}", other),
    }
}

#[test]
fn test_deduplicate_no_db_records() {
    let csv = vec![
        mock_parsed_record("2023-01-01", "10.5", "Uber"),
        mock_parsed_record("2023-01-02", "15", "Ifood"),
    ];
    let db: Vec<Transaction> = vec![];
    let result = deduplicate_records(&csv, &db);
    assert_eq!(result.len(), 2);
}

#[test]
fn test_deduplicate_exact_match() {
    let csv = vec![
        mock_parsed_record("2023-01-01", "10.5", "Uber"),
        mock_parsed_record("2023-01-02", "15", "Ifood"),
    ];
    let db = vec![mock_transaction("2023-01-01", "10.5", "Uber")];
    let result = deduplicate_records(&csv, &db);
    assert_eq!(result.len(), 1);
    assert_eq!(result[0].description.as_str(), "Ifood");
}

#[test]
fn test_deduplicate_frequency_count() {
    let csv = vec![
        mock_parsed_record("2023-01-01", "10.5", "Uber"),
        mock_parsed_record("2023-01-01", "10.5", "Uber"),
    ];
    let db = vec![mock_transaction("2023-01-01", "10.5", "Uber")];
    let result = deduplicate_records(&csv, &db);
    assert_eq!(result.len(), 1, "Should insert the second Uber charge because DB only has 1");
}

#[test]
fn test_deduplicate_different_amount() {
    let csv = vec![mock_parsed_record("2023-01-01", "11.5", "Uber")];
    let db = vec![mock_transaction("2023-01-01", "10.5", "Uber")];
    let result = deduplicate_records(&csv, &db);
    assert_eq!(result.len(), 1, "Different amount should not deduplicate");
}

#[test]
fn dedup_compares_amounts_by_value() {
    let csv = vec![mock_parsed_record("2023-01-01", "10.50", "Uber")];
    let db = vec![mock_transaction("2023-01-01", "10.5", "Uber")];
    assert_eq!(deduplicate_records(&csv, &db).len(), 0);
}

#[test]
fn dedup_keeps_the_surplus_of_each_key() {
    let csv = vec![
        mock_parsed_record("2023-01-01", "10.5", "Uber"),
        mock_parsed_record("2023-03-01", "99", "Cinema"),
        mock_parsed_record("2023-01-01", "10.5", "Uber"),
    ];
    let db = vec![
        mock_transaction("2023-01-01", "10.5", "Uber"),
        mock_transaction("2023-01-01", "10.5", "Uber"),
    ];
    let result = deduplicate_records(&csv, &db);
    assert_eq!(result.len(), 1);
    assert_eq!(result[0].description.as_str(), "Cinema");
}

#[test]
fn dedup_leaves_out_the_first_stored_count_of_a_key() {
    let mut csv = vec![
        mock_parsed_record("2023-01-01", "10.5", "Uber"),
        mock_parsed_record("2023-01-01", "10.5", "Uber"),
        mock_parsed_record("2023-01-01", "10.5", "Uber"),
    ];
    csv[0].category = text("A");
    csv[1].category = text("B");
    csv[2].category = text("C");
    let db = vec![mock_transaction("2023-01-01", "10.5", "Uber")];
    let result = deduplicate_records(&csv, &db);
    assert_eq!(result.len(), 2);
    assert_eq!(result[0].category.as_str(), "B");
    assert_eq!(result[1].category.as_str(), "C");
}

#[test]
fn dedup_leaves_out_a_stored_record() {
    let csv = vec![mock_parsed_record("2023-02-10", "42", "Padaria")];
    let db = vec![mock_transaction("2023-02-10", "42", "Padaria")];
    assert!(deduplicate_records(&csv, &db).is_empty());
}

#[test]
fn dedup_two_in_file_two_stored_inserts_none() {
    let csv = vec![
        mock_parsed_record("2023-01-01", "10.5", "Uber"),
        mock_parsed_record("2023-01-01", "10.5", "Uber"),
    ];
    let db = vec![
        mock_transaction("2023-01-01", "10.5", "Uber"),
        mock_transaction("2023-01-01", "10.5", "Uber"),
    ];
    assert_eq!(deduplicate_records(&csv, &db).len(), 0);
}

#[test]
fn csv_row_is_parsed_and_trimmed() {
    let p = ParsedCsvRecord::try_from(raw("2026-07-20", "100.00", "  TV Nova ", "2/10")).unwrap();
    assert_eq!(p.date, Date { year: 2026, month: 7, day: 20 });
    assert_eq!(p.amount.as_decimal().mantissa(), 10000);
    assert_eq!(p.description.as_str(), "TV Nova");
    assert_eq!(p.category.as_str(), "Mercado");
    let tags: Vec<&str> = p.tags.iter().map(|t| t.as_str()).collect();
    assert_eq!(tags, vec!["casa", "viagem"]);
    assert_eq!(p.installment, Some((2, 10)));
    assert_eq!(p.source_type.as_str(), "credit_card");
    assert_eq!(p.source_name.as_str(), "Nubank");
}

#[test]
fn csv_row_errors_in_order() {
    let e = ParsedCsvRecord::try_from(raw("2026-13-01", "x", "", "")).unwrap_err();
    assert_eq!(e, "Invalid date: 2026-13-01");
    let e = ParsedCsvRecord::try_from(raw("2023-02-29", "3", "A", "")).unwrap_err();
    assert_eq!(e, "Invalid date: 2023-02-29");
    let e = ParsedCsvRecord::try_from(raw("2026-01-01", "-3", "", "")).unwrap_err();
    assert_eq!(e, "Invalid amount: -3");
    let e = ParsedCsvRecord::try_from(raw("2026-01-01", "3", "  ", "")).unwrap_err();
    assert_eq!(e, "Empty description for:   ");
    let e = ParsedCsvRecord::try_from(raw("2026-01-01", "3", "Pão", "1-2")).unwrap_err();
    assert_eq!(e, "Invalid installment format (expected x/y): 1-2");
    let e = ParsedCsvRecord::try_from(raw("2026-01-01", "3", "Pão", "a/2")).unwrap_err();
    assert_eq!(e, "Invalid current installment number: a");
    let e = ParsedCsvRecord::try_from(raw("2026-01-01", "3", "Pão", "1/b")).unwrap_err();
    assert_eq!(e, "Invalid total installments number: b");
    let e = ParsedCsvRecord::try_from(raw("2026-01-01", "3", "Pão", "0/2")).unwrap_err();
    assert_eq!(e, "Invalid installment values: 0/2");
}

#[test]
fn parse_records_stops_at_the_first_refused_row() {
    let rows = vec![
        raw("2026-01-01", "3", "A", ""),
        raw("2026-01-02", "0", "B", ""),
        raw("bad", "1", "C", ""),
    ];
    let e = parse_records(rows).unwrap_err();
    assert_eq!(handler_text(e), "Invalid amount: 0");
    let ok = parse_records(vec![raw("2026-01-01", "3", "A", ""), raw("2026-01-02", "4", "B", "")]).unwrap();
    assert_eq!(ok.len(), 2);
    assert_eq!(ok[1].description.as_str(), "B");
}

#[test]
fn import_summary_counts() {
    let r = ImportResult::summary(5, 2, true);
    assert_eq!((r.total_rows, r.imported, r.skipped, r.dry_run), (5, 2, 3, true));
    let empty = ImportResult::summary(0, 0, false);
    assert_eq!((empty.total_rows, empty.imported, empty.skipped), (0, 0, 0));
}

#[test]
fn source_kinds_and_lookups() {
    assert_eq!(source_kind("account").unwrap(), SourceKind::Account);
    assert_eq!(source_kind("credit_card").unwrap(), SourceKind::CreditCard);
    assert_eq!(handler_text(source_kind("pix").unwrap_err()), "Tipo de origem inválido: pix");
    assert_eq!(
        resolve_found(SourceKind::Account, "Conta", Some(4)).unwrap(),
        TransactionSource::Account { account_id: 4 }
    );
    assert_eq!(
        resolve_found(SourceKind::CreditCard, "Nubank", Some(9)).unwrap(),
        TransactionSource::CreditCard { credit_card_id: 9 }
    );
    assert_eq!(
        handler_text(resolve_found(SourceKind::Account, "Conta", None).unwrap_err()),
        "Conta não encontrada: Conta"
    );
    assert_eq!(
        handler_text(resolve_found(SourceKind::CreditCard, "Nubank", None).unwrap_err()),
        "Cartão não encontrado: Nubank"
    );
}

#[test]
fn plain_row_becomes_an_expense() {
    let mut rec = mock_parsed_record("2026-05-03", "12.34", "Padaria");
    rec.tags = vec![text("casa")];
    let plan = plan_record(rec, TransactionSource::Account { account_id: 2 }, 8).unwrap();
    match plan {
        RecordPlan::Transaction(t) => {
            assert_eq!(t.category_id, Some(8));
            assert_eq!(t.source, TransactionSource::Account { account_id: 2 });
            assert_eq!(t.transaction_type, TransactionType::Expense);
            assert_eq!(t.amount.as_decimal().mantissa(), 1234);
            assert_eq!(t.date, Date { year: 2026, month: 5, day: 3 });
            assert_eq!(t.description.as_str(), "Padaria");
            assert_eq!(t.tags.len(), 1);
            assert_eq!(t.tags[0].as_str(), "casa");
        }
        other => panic!("unexpected plan: {:?}", other),
    }
}

#[test]
fn installment_row_on_a_card_is_a_purchase() {
    let mut rec = mock_parsed_record("2026-07-20", "100.00", "TV Nova");
    rec.installment = Some((3, 10));
    let plan = plan_record(rec, TransactionSource::CreditCard { credit_card_id: 5 }, 1).unwrap();
    match plan {
        RecordPlan::Installment { credit_card_id, category_id, description, total_amount, count, purchase_date } => {
            assert_eq!(credit_card_id, 5);
            assert_eq!(category_id, Some(1));
            assert_eq!(description.as_str(), "TV Nova");
            assert!(total_amount.same_value(&amount("1000")));
            assert_eq!(count.get(), 10);
            assert_eq!(purchase_date, Date { year: 2026, month: 5, day: 20 });
        }
        other => panic!("unexpected plan: {:?}", other),
    }
}

#[test]
fn installment_row_on_an_account_is_skipped() {
    let mut rec = mock_parsed_record("2026-07-20", "100.00", "TV Nova");
    rec.installment = Some((1, 2));
    let plan = plan_record(rec, TransactionSource::Account { account_id: 5 }, 1).unwrap();
    assert!(matches!(plan, RecordPlan::Skip));
}

#[test]
fn installment_row_with_a_bad_total_is_refused() {
    let mut rec = mock_parsed_record("2026-07-20", "100.00", "TV Nova");
    rec.installment = Some((1, 0));
    let e = plan_record(rec, TransactionSource::CreditCard { credit_card_id: 5 }, 1).unwrap_err();
    assert_eq!(handler_text(e), "Erro ao calcular parcela: Value must be greater than zero");
}

#[test]
fn installment_total_that_overflows_is_refused() {
    let mut rec = mock_parsed_record("2026-07-20", "79228162514264337593543950335", "Caro");
    rec.installment = Some((1, 2));
    let e = plan_record(rec, TransactionSource::CreditCard { credit_card_id: 5 }, 1).unwrap_err();
    assert_eq!(handler_text(e), "Erro ao calcular parcela: Multiplication overflowed");
}

#[test]
fn installment_first_date_is_clamped_to_month_end() {
    let mut rec = mock_parsed_record("2026-03-31", "10", "Fone");
    rec.installment = Some((2, 3));
    match plan_record(rec, TransactionSource::CreditCard { credit_card_id: 1 }, 1).unwrap() {
        RecordPlan::Installment { purchase_date, .. } => {
            assert_eq!(purchase_date, Date { year: 2026, month: 2, day: 28 })
        }
        other => panic!("unexpected plan: {:?}", other),
    }
}

#[test]
fn reimporting_the_same_rows_keeps_nothing() {
    let csv = vec![
        mock_parsed_record("2023-01-01", "10.5", "Uber"),
        mock_parsed_record("2023-01-02", "15", "Ifood"),
        mock_parsed_record("2023-01-01", "10.5", "Uber"),
        mock_parsed_record("2023-01-03", "7", "Padaria"),
        mock_parsed_record("2023-01-01", "10.5", "Uber"),
    ];
    let mut db = vec![
        mock_transaction("2023-01-02", "15", "Ifood"),
        mock_transaction("2023-01-01", "10.5", "Uber"),
    ];
    let kept = deduplicate_records(&csv, &db);
    assert_eq!(kept.len(), 3);
    for rec in &kept {
        let mut stored = mock_transaction("2000-01-01", "1", "x");
        stored.date = rec.date;
        stored.amount = rec.amount;
        stored.description = rec.description.clone();
        db.push(stored);
    }
    let second = deduplicate_records(&csv, &db);
    assert!(second.is_empty());
}

#[test]
fn statement_rows_plan_an_expense_and_a_purchase() {
    let rows = vec![
        RawCsvRecord {
            date: "2023-01-01".to_string(),
            amount: "50.0".to_string(),
            description: "Ifood".to_string(),
            category: "Alimentação".to_string(),
            tags: "tag1".to_string(),
            installments: " ".to_string(),
            source_type: "account".to_string(),
            source_name: "Conta Principal".to_string(),
        },
        RawCsvRecord {
            date: "2023-01-02".to_string(),
            amount: "100.0".to_string(),
            description: "TV Nova".to_string(),
            category: "Eletrônicos".to_string(),
            tags: " ".to_string(),
            installments: "3/5".to_string(),
            source_type: "credit_card".to_string(),
            source_name: "Nubank".to_string(),
        },
    ];
    let mut parsed = parse_records(rows).unwrap();
    assert_eq!(parsed.len(), 2);
    let second = parsed.pop().unwrap();
    let first = parsed.pop().unwrap();
    assert_eq!(first.installment, None);
    assert_eq!(first.tags.len(), 1);
    assert!(second.tags.is_empty());

    assert_eq!(source_kind(first.source_type.as_str()).unwrap(), SourceKind::Account);
    let account = resolve_found(SourceKind::Account, first.source_name.as_str(), Some(1)).unwrap();
    assert!(matches!(plan_record(first, account, 3).unwrap(), RecordPlan::Transaction(_)));

    assert_eq!(source_kind(second.source_type.as_str()).unwrap(), SourceKind::CreditCard);
    let card = resolve_found(SourceKind::CreditCard, second.source_name.as_str(), Some(2)).unwrap();
    match plan_record(second, card, 4).unwrap() {
        RecordPlan::Installment { credit_card_id, total_amount, count, purchase_date, description, .. } => {
            assert_eq!(credit_card_id, 2);
            assert!(total_amount.same_value(&amount("500")));
            assert_eq!(count.get(), 5);
            assert_eq!(purchase_date, Date { year: 2022, month: 11, day: 2 });
            assert_eq!(description.as_str(), "TV Nova");
        }
        other => panic!("unexpected plan: {:?}", other),
    }
}
