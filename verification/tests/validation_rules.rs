use rust_eze::clock::current_timestamp;
use rust_eze::currency::{currency_code, currency_from_code, validate_currency, Currency};
use rust_eze::dates::{days_in_month, is_leap_year, next_month_date, validate_date, Date};
use rust_eze::validation::{str_eq, validate_account_name, validate_amount};

#[test]
fn account_name_rules() {
    assert!(validate_account_name("Alice"));
    assert!(validate_account_name("Alice Smith"));
    assert!(validate_account_name("Alice-Smith"));
    assert!(validate_account_name("ab"));
    assert!(!validate_account_name(""));
    assert!(!validate_account_name("A"));
    assert!(!validate_account_name("Alice9"));
    assert!(!validate_account_name("-Alice"));
    assert!(!validate_account_name("Alice-"));
    assert!(!validate_account_name(" Alice"));
    assert!(!validate_account_name("Al_ice"));
}

#[test]
fn amount_rules() {
    assert!(!validate_amount(0));
    assert!(validate_amount(1));
    assert!(validate_amount(u64::MAX));
}

#[test]
fn currency_allow_list() {
    assert_eq!(currency_from_code("USD"), Some(Currency::Usd));
    assert_eq!(currency_from_code("EUR"), Some(Currency::Eur));
    assert_eq!(currency_from_code("GBP"), Some(Currency::Gbp));
    assert_eq!(currency_from_code("JPY"), Some(Currency::Jpy));
    assert_eq!(currency_from_code("INR"), Some(Currency::Inr));
    assert_eq!(currency_from_code("SGD"), Some(Currency::Sgd));
    assert_eq!(currency_from_code("AUD"), Some(Currency::Aud));
    assert_eq!(currency_from_code("usd"), None);
    assert_eq!(currency_from_code("XXX"), None);
    assert_eq!(currency_from_code("EURO"), None);
    assert_eq!(currency_from_code(""), None);
    assert!(validate_currency("USD"));
    assert!(!validate_currency("CHF"));
}

#[test]
fn currency_codes_round_trip() {
    let all = [Currency::Usd, Currency::Eur, Currency::Gbp, Currency::Jpy, Currency::Inr,
        Currency::Sgd, Currency::Aud];
    for c in all {
        assert_eq!(currency_from_code(currency_code(c)), Some(c));
    }
}

#[test]
fn string_equality() {
    assert!(str_eq("", ""));
    assert!(str_eq("abc", "abc"));
    assert!(!str_eq("abc", "abd"));
    assert!(!str_eq("abc", "abcd"));
}

#[test]
fn leap_years_and_month_lengths() {
    assert!(is_leap_year(2024));
    assert!(!is_leap_year(2023));
    assert!(is_leap_year(2000));
    assert!(!is_leap_year(1900));
    assert_eq!(days_in_month(2024, 2), 29);
    assert_eq!(days_in_month(2023, 2), 28);
    assert_eq!(days_in_month(2024, 1), 31);
    assert_eq!(days_in_month(2024, 4), 30);
    assert_eq!(days_in_month(2024, 12), 31);
}

#[test]
fn date_validity() {
    assert!(validate_date(Date { year: 2024, month: 2, day: 29 }));
    assert!(!validate_date(Date { year: 2023, month: 2, day: 29 }));
    assert!(!validate_date(Date { year: 2024, month: 13, day: 1 }));
    assert!(!validate_date(Date { year: 2024, month: 0, day: 1 }));
    assert!(!validate_date(Date { year: 2024, month: 6, day: 0 }));
    assert!(!validate_date(Date { year: 0, month: 6, day: 15 }));
    assert!(!validate_date(Date { year: 10000, month: 6, day: 15 }));
}

#[test]
fn month_advance_clamps() {
    let d = next_month_date(Date { year: 2024, month: 1, day: 31 });
    assert_eq!(d, Date { year: 2024, month: 2, day: 29 });
    let d2 = next_month_date(d);
    assert_eq!(d2, Date { year: 2024, month: 3, day: 29 });
    let d3 = next_month_date(Date { year: 2024, month: 3, day: 31 });
    assert_eq!(d3, Date { year: 2024, month: 4, day: 30 });
    let d4 = next_month_date(Date { year: 2024, month: 12, day: 31 });
    assert_eq!(d4, Date { year: 2025, month: 1, day: 31 });
}

#[test]
fn clock_reads_after_epoch() {
    assert!(current_timestamp() > 1_000_000_000);
}
