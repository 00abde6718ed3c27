use moneta_cli::models::amount::Amount;
use moneta_cli::models::types::{
    DayOfMonth, InstallmentCount, InstallmentNumber, Month, NonEmptyString, NonNegativeAmount,
    PositiveAmount, TransactionSource, Year,
};

#[test]
fn test_non_empty_string_valid() {
    assert!(NonEmptyString::from_str("valid").is_ok());
    assert!(NonEmptyString::from_str("  valid  ").is_ok());
}

#[test]
fn test_non_empty_string_invalid() {
    assert!(NonEmptyString::from_str("").is_err());
    assert!(NonEmptyString::from_str("   ").is_err());
}

#[test]
fn test_positive_amount_valid() {
    assert!(PositiveAmount::from_str("100.50").is_ok());
}

#[test]
fn test_positive_amount_invalid() {
    assert!(PositiveAmount::from_str("0").is_err());
    assert!(PositiveAmount::from_str("-100.50").is_err());
    assert!(PositiveAmount::from_str("abc").is_err());
}

#[test]
fn test_non_negative_amount_valid() {
    assert!(NonNegativeAmount::from_str("0").is_ok());
    assert!(NonNegativeAmount::from_str("100.50").is_ok());
}

#[test]
fn test_non_negative_amount_invalid() {
    assert!(NonNegativeAmount::from_str("-100.50").is_err());
    assert!(NonNegativeAmount::from_str("abc").is_err());
}

#[test]
fn test_day_of_month_valid() {
    assert!(DayOfMonth::from_str("1").is_ok());
    assert!(DayOfMonth::from_str("15").is_ok());
    assert!(DayOfMonth::from_str("28").is_ok());
}

#[test]
fn test_day_of_month_invalid() {
    assert!(DayOfMonth::from_str("0").is_err());
    assert!(DayOfMonth::from_str("29").is_err());
    assert!(DayOfMonth::from_str("31").is_err());
    assert!(DayOfMonth::from_str("-5").is_err());
    assert!(DayOfMonth::from_str("abc").is_err());
}

#[test]
fn non_empty_string_is_trimmed() {
    let s = NonEmptyString::from_str("  valid  ").unwrap();
    assert_eq!(s.as_str(), "valid");
    assert_eq!(
        NonEmptyString::from_str(" \t ").unwrap_err(),
        "String cannot be empty or have only spaces"
    );
}

#[test]
fn positive_amount_keeps_the_parsed_value() {
    let a = PositiveAmount::from_str("100.50").unwrap();
    assert_eq!(a.as_decimal().mantissa(), 10050);
    assert_eq!(a.as_decimal().scale(), 2);
    assert_eq!(PositiveAmount::from_str("0").unwrap_err(), "Value must be greater than zero");
    assert_eq!(PositiveAmount::from_str("abc").unwrap_err(), "Invalid number format");
}

#[test]
fn non_negative_amount_messages() {
    assert_eq!(NonNegativeAmount::from_str("0").unwrap().as_decimal().mantissa(), 0);
    assert_eq!(
        NonNegativeAmount::from_str("-1").unwrap_err(),
        "Value cannot be negative"
    );
    let zero = Amount::zero();
    assert!(NonNegativeAmount::try_from(zero).is_ok());
    assert!(PositiveAmount::try_from(zero).is_err());
}

#[test]
fn day_of_month_bounds_and_messages() {
    assert_eq!(DayOfMonth::try_from(28).unwrap().as_i16(), 28);
    assert_eq!(DayOfMonth::try_from(1).unwrap().as_i16(), 1);
    assert_eq!(DayOfMonth::try_from(29).unwrap_err(), "Day must be between 1 and 28 (limited by February)");
    assert_eq!(DayOfMonth::from_str("abc").unwrap_err(), "Invalid number format");
}

#[test]
fn installment_count_and_number() {
    assert_eq!(InstallmentCount::try_from(3).unwrap().get(), 3);
    assert!(InstallmentCount::try_from(0).is_err());
    assert_eq!(InstallmentCount::from_str("12").unwrap().get(), 12);
    assert_eq!(InstallmentNumber::try_from(1).unwrap().get(), 1);
    assert!(InstallmentNumber::try_from(-1).is_err());
    assert!(InstallmentNumber::from_str("x").is_err());
}

#[test]
fn month_and_year() {
    assert_eq!(Month::try_from(12).unwrap().as_i16(), 12);
    assert_eq!(Month::try_from(13).unwrap_err(), "Month must be between 1 and 12");
    assert!(Month::from_str("0").is_err());
    assert_eq!(Year::try_from(2000).unwrap().as_i16(), 2000);
    assert_eq!(Year::try_from(1999).unwrap_err(), "Year must be greater than or equal to 2000");
    assert_eq!(Year::from_str("2026").unwrap().as_i16(), 2026);
}

#[test]
fn source_columns_round_trip() {
    let acc = TransactionSource::Account { account_id: 7 };
    assert_eq!(acc.to_columns(), (Some(7), None));
    assert_eq!(TransactionSource::from_columns(Some(7), None), Some(acc));
    let card = TransactionSource::CreditCard { credit_card_id: 3 };
    assert_eq!(card.to_columns(), (None, Some(3)));
    assert_eq!(TransactionSource::from_columns(None, Some(3)), Some(card));
    assert_eq!(TransactionSource::from_columns(Some(1), Some(2)), None);
    assert_eq!(TransactionSource::from_columns(None, None), None);
}
