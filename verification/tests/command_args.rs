use moneta_cli::commands::account::{AddAccountArgs, UpdateAccountArgs};
use moneta_cli::commands::category::{AddCategoryArgs, UpdateCategoryArgs};
use moneta_cli::commands::credit_card::{AddCreditCardArgs, UpdateCreditCardArgs};
use moneta_cli::commands::installment::{AddInstallmentArgs, AdjustInstallmentArgs, InstallmentError};
use moneta_cli::commands::recurrence::{AddRecurrenceArgs, UpdateRecurrenceArgs};
use moneta_cli::commands::transaction::{AddTransactionArgs, TransactionError, UpdateTransactionArgs};
use moneta_cli::config::{Config, ConfigArgs, ConfigError, FileConfig};
use moneta_cli::handlers;
use moneta_cli::models::account::{Account, NewAccount};
use moneta_cli::models::category::{Category, NewCategory};
use moneta_cli::models::credit_card::{CreditCard, NewCreditCard};
use moneta_cli::models::date::{Date, Timestamp};
use moneta_cli::models::installment::NewInstallment;
use moneta_cli::models::recurrence::{NewRecurrence, UpdateRecurrencePayload};
use moneta_cli::models::transaction::NewTransaction;
use moneta_cli::models::types::{
    AccountType, CategoryType, DayOfMonth, InstallmentCount, InstallmentNumber, NonEmptyString,
    NonNegativeAmount, PositiveAmount, RecurrenceFrequency, TransactionSource, TransactionType,
};

fn text(s: &str) -> NonEmptyString {
    NonEmptyString::from_str(s).unwrap()
}

fn parse_error_text(e: InstallmentError) -> String {
    match e {
        InstallmentError::Parse(m) => m,
        other => panic!("unexpected error: {:?}", other),
    }
}

#[test]
fn test_add_transaction_missing_source() {
    let args = AddTransactionArgs {
        account_id: None,
        credit_card_id: None,
        category_id: 1,
        transaction_type: TransactionType::Expense,
        amount: PositiveAmount::from_str("10.0").unwrap(),
        date: None,
        description: NonEmptyString::from_str("Test").unwrap(),
    };

    let result = NewTransaction::try_from(args);
    assert!(matches!(result, Err(TransactionError::MissingSource)));
}

#[test]
fn test_add_transaction_with_account() {
    let args = AddTransactionArgs {
        account_id: Some(1),
        credit_card_id: None,
        category_id: 1,
        transaction_type: TransactionType::Expense,
        amount: PositiveAmount::from_str("10.0").unwrap(),
        date: None,
        description: NonEmptyString::from_str("Test").unwrap(),
    };

    let result = NewTransaction::try_from(args);
    assert!(result.is_ok());
    let tx = result.unwrap();
    assert_eq!(tx.source, TransactionSource::Account { account_id: 1 });
}

#[test]
fn add_transaction_prefers_the_account_and_uses_the_given_date() {
    let today = Date { year: 2026, month: 1, day: 9 };
    let args = AddTransactionArgs {
        account_id: Some(3),
        credit_card_id: Some(4),
        category_id: 2,
        transaction_type: TransactionType::Income,
        amount: PositiveAmount::from_str("5").unwrap(),
        date: Some(Date { year: 2025, month: 12, day: 31 }),
        description: text("Salário"),
    };
    let t = NewTransaction::from_args_on(args, today).unwrap();
    assert_eq!(t.source, TransactionSource::Account { account_id: 3 });
    assert_eq!(t.date, Date { year: 2025, month: 12, day: 31 });
    assert_eq!(t.category_id, Some(2));
    assert_eq!(t.transaction_type, TransactionType::Income);
    assert!(t.installment_id.is_none() && t.installment_number.is_none() && t.tags.is_empty());

    let args = AddTransactionArgs {
        account_id: None,
        credit_card_id: Some(4),
        category_id: 2,
        transaction_type: TransactionType::Expense,
        amount: PositiveAmount::from_str("5").unwrap(),
        date: None,
        description: text("Mouse"),
    };
    let t = NewTransaction::from_args_on(args, today).unwrap();
    assert_eq!(t.source, TransactionSource::CreditCard { credit_card_id: 4 });
    assert_eq!(t.date, today);
    assert_eq!(TransactionError::missing_source_message(), "Conta ou cartão de crédito deve ser informado");
}

#[test]
fn transaction_update_payload_carries_every_field() {
    let args = UpdateTransactionArgs {
        id: 11,
        account_id: None,
        credit_card_id: Some(2),
        category_id: Some(3),
        transaction_type: None,
        amount: Some(PositiveAmount::from_str("20.00").unwrap()),
        date: Some(Date { year: 2026, month: 2, day: 1 }),
        description: Some(text("Jantar")),
    };
    let (id, p) = handlers::transaction::update_payload(args);
    assert_eq!(id, 11);
    assert_eq!(p.credit_card_id, Some(2));
    assert_eq!(p.account_id, None);
    assert_eq!(p.category_id, Some(3));
    assert!(p.transaction_type.is_none());
    assert_eq!(p.amount.unwrap().as_decimal().mantissa(), 2000);
    assert_eq!(p.date, Some(Date { year: 2026, month: 2, day: 1 }));
    assert_eq!(p.description.unwrap().as_str(), "Jantar");
}

#[test]
fn account_args_negate_the_flags() {
    let args = AddAccountArgs {
        name: text("Conta Corrente"),
        account_type: AccountType::Checking,
        no_debit_card: true,
        inactive: false,
    };
    let a = NewAccount::try_from(args).unwrap();
    assert_eq!(a.name.as_str(), "Conta Corrente");
    assert_eq!(a.account_type, AccountType::Checking);
    assert!(!a.has_debit_card);
    assert!(a.active);
}

#[test]
fn category_and_card_args() {
    let c = NewCategory::try_from(AddCategoryArgs {
        name: text("Lazer"),
        category_type: CategoryType::Expense,
        inactive: true,
    })
    .unwrap();
    assert_eq!(c.name.as_str(), "Lazer");
    assert!(!c.active);

    let card = NewCreditCard::try_from(AddCreditCardArgs {
        account_id: 1,
        name: text("Cartão"),
        credit_limit: NonNegativeAmount::from_str("5000.00").unwrap(),
        billing_day: DayOfMonth::try_from(20).unwrap(),
        due_day: DayOfMonth::try_from(5).unwrap(),
        inactive: false,
    })
    .unwrap();
    assert_eq!(card.account_id, 1);
    assert_eq!(card.billing_day.as_i16(), 20);
    assert_eq!(card.due_day.as_i16(), 5);
    assert!(card.active);
}

fn stamp() -> Timestamp {
    Timestamp { micros: 1_700_000_000_000_000 }
}

#[test]
fn account_update_replaces_only_given_fields() {
    let acc = Account {
        id: 4,
        name: text("Antiga"),
        account_type: AccountType::Savings,
        has_debit_card: true,
        active: true,
        created_at: stamp(),
        updated_at: stamp(),
    };
    let args = UpdateAccountArgs {
        id: 4,
        name: Some(text("Nova")),
        account_type: None,
        no_debit_card: Some(true),
        inactive: None,
    };
    let r = handlers::account::apply_update(acc, args);
    assert_eq!(r.id, 4);
    assert_eq!(r.name.as_str(), "Nova");
    assert_eq!(r.account_type, AccountType::Savings);
    assert!(!r.has_debit_card);
    assert!(r.active);
    assert_eq!(r.created_at, stamp());
}

#[test]
fn category_update_replaces_only_given_fields() {
    let ctg = Category {
        id: 2,
        name: text("Test Income"),
        category_type: CategoryType::Income,
        active: true,
        created_at: stamp(),
        updated_at: stamp(),
    };
    let args = UpdateCategoryArgs { id: 2, name: Some(text("Updated Income")), category_type: None, inactive: Some(true) };
    let r = handlers::category::apply_update(ctg, args);
    assert_eq!(r.name.as_str(), "Updated Income");
    assert_eq!(r.category_type, CategoryType::Income);
    assert!(!r.active);
}

#[test]
fn card_update_replaces_only_given_fields() {
    let card = CreditCard {
        id: 9,
        account_id: 1,
        name: text("My Credit Card"),
        credit_limit: NonNegativeAmount::from_str("5000.0").unwrap(),
        billing_day: 10,
        due_day: 20,
        active: true,
        created_at: stamp(),
        updated_at: stamp(),
    };
    let args = UpdateCreditCardArgs {
        id: 9,
        name: Some(text("Updated Card")),
        credit_limit: None,
        billing_day: Some(DayOfMonth::try_from(15).unwrap()),
        due_day: None,
        inactive: None,
    };
    let r = handlers::credit_card::apply_update(card, args);
    assert_eq!(r.name.as_str(), "Updated Card");
    assert_eq!(r.billing_day, 15);
    assert_eq!(r.due_day, 20);
    assert_eq!(r.credit_limit.as_decimal().mantissa(), 50000);
    assert!(r.active);
}

fn installment_args(description: &str, total: &str, date: Option<&str>) -> AddInstallmentArgs {
    AddInstallmentArgs {
        card_id: 7,
        category_id: Some(1),
        description: description.to_string(),
        total_amount: total.to_string(),
        installments_count: InstallmentCount::try_from(3).unwrap(),
        date: date.map(|d| d.to_string()),
    }
}

#[test]
fn installment_args_become_a_purchase() {
    let today = Date { year: 2026, month: 6, day: 1 };
    let n = NewInstallment::from_args_on(installment_args(" Mouse ", "10.00", Some("2026-07-20")), today).unwrap();
    assert_eq!(n.credit_card_id, 7);
    assert_eq!(n.category_id, Some(1));
    assert_eq!(n.description.as_str(), "Mouse");
    assert_eq!(n.total_amount.as_decimal().mantissa(), 1000);
    assert_eq!(n.installments_count.get(), 3);
    assert_eq!(n.date, Date { year: 2026, month: 7, day: 20 });
    let n = NewInstallment::from_args_on(installment_args("Mouse", "10", None), today).unwrap();
    assert_eq!(n.date, today);
    assert!(NewInstallment::try_from(installment_args("Mouse", "10", None)).is_ok());
}

#[test]
fn installment_args_errors() {
    let today = Date { year: 2026, month: 6, day: 1 };
    let e = NewInstallment::from_args_on(installment_args("  ", "10", None), today).unwrap_err();
    assert_eq!(parse_error_text(e), "String cannot be empty or have only spaces");
    let e = NewInstallment::from_args_on(installment_args("Mouse", "dez", None), today).unwrap_err();
    assert_eq!(parse_error_text(e), "Invalid number format");
    let e = NewInstallment::from_args_on(installment_args("Mouse", "-1", None), today).unwrap_err();
    assert_eq!(parse_error_text(e), "Value must be greater than zero");
    let e = NewInstallment::from_args_on(installment_args("Mouse", "1", Some("2026-02-30")), today).unwrap_err();
    assert!(!parse_error_text(e).is_empty());
}

#[test]
fn adjust_amount_is_read_and_checked() {
    let args = AdjustInstallmentArgs { id: 1, number: InstallmentNumber::try_from(2).unwrap(), amount: "33.34".to_string() };
    assert_eq!(handlers::installment::adjust_amount(&args).unwrap().as_decimal().mantissa(), 3334);
    let args = AdjustInstallmentArgs { id: 1, number: InstallmentNumber::try_from(2).unwrap(), amount: "0".to_string() };
    assert_eq!(parse_error_text(handlers::installment::adjust_amount(&args).unwrap_err()), "Value must be greater than zero");
}

#[test]
fn recurrence_args_conversions() {
    let args = AddRecurrenceArgs {
        category_id: 1,
        account_id: None,
        credit_card_id: Some(6),
        transaction_type: TransactionType::Expense,
        amount: PositiveAmount::from_str("100.0").unwrap(),
        description: text("Mensalidade"),
        frequency: RecurrenceFrequency::Monthly,
        start_date: Date { year: 2023, month: 1, day: 15 },
        end_date: None,
    };
    let r = NewRecurrence::from_args(args);
    assert_eq!(r.source, TransactionSource::CreditCard { credit_card_id: 6 });
    assert_eq!(r.frequency, RecurrenceFrequency::Monthly);
    assert_eq!(r.start_date, Date { year: 2023, month: 1, day: 15 });

    let (id, p) = UpdateRecurrencePayload::from_args(UpdateRecurrenceArgs {
        id: 3,
        category_id: None,
        account_id: Some(2),
        credit_card_id: None,
        transaction_type: None,
        amount: None,
        description: None,
        frequency: Some(RecurrenceFrequency::Weekly),
        start_date: None,
    });
    assert_eq!(id, 3);
    assert_eq!(p.account_id, Some(2));
    assert_eq!(p.frequency, Some(RecurrenceFrequency::Weekly));
    assert!(p.end_date.is_none());
}

#[test]
fn config_command_line_wins_over_file() {
    let c = Config::load(
        ConfigArgs { database_url: Some("postgres://cli".to_string()), max_connections: None },
        FileConfig { database_url: Some("postgres://file".to_string()), max_connections: Some(3) },
    )
    .unwrap();
    assert_eq!(c.database_url, "postgres://cli");
    assert_eq!(c.max_connections, 3);

    let c = Config::load(
        ConfigArgs { database_url: None, max_connections: Some(7) },
        FileConfig { database_url: Some("postgres://file".to_string()), max_connections: Some(3) },
    )
    .unwrap();
    assert_eq!(c.database_url, "postgres://file");
    assert_eq!(c.max_connections, 7);

    let c = Config::load(
        ConfigArgs { database_url: Some("u".to_string()), max_connections: None },
        FileConfig { database_url: None, max_connections: None },
    )
    .unwrap();
    assert_eq!(c.max_connections, 10);
}

#[test]
fn config_without_url_is_refused() {
    let r = Config::load(
        ConfigArgs { database_url: None, max_connections: Some(2) },
        FileConfig { database_url: None, max_connections: None },
    );
    assert!(matches!(r, Err(ConfigError::MissingDatabaseUrl)));
    assert!(ConfigError::missing_url_message().starts_with("DATABASE_URL is mandatory"));
}

#[test]
fn reference_date_keeps_a_given_date() {
    let d = Date { year: 2024, month: 2, day: 29 };
    assert_eq!(handlers::budget::reference_date(Some(d)), d);
    let today = handlers::budget::reference_date(None);
    assert!(today.year >= 2024);
}
