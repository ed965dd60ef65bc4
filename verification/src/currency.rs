//! The fixed currency allow-list and the mapping between currency values and
//! their three-letter codes.

use vstd::prelude::*;
use crate::validation::str_eq;

verus! {

/// A currency from the allow-list. Every sub-account is denominated in
/// exactly one of these.
#[derive(Clone, Copy, PartialEq, Eq, Structural, Debug, Hash)]
pub enum Currency {
    Usd,
    Eur,
    Gbp,
    Jpy,
    Inr,
    Sgd,
    Aud,
}

/// The three-letter code of a currency, as a character sequence.
pub open spec fn spec_currency_code(c: Currency) -> Seq<char> {
    match c {
        Currency::Usd => "USD"@,
        Currency::Eur => "EUR"@,
        Currency::Gbp => "GBP"@,
        Currency::Jpy => "JPY"@,
        Currency::Inr => "INR"@,
        Currency::Sgd => "SGD"@,
        Currency::Aud => "AUD"@,
    }
}

/// The currency whose code is the given character sequence, if any.
pub open spec fn spec_currency_from_code(s: Seq<char>) -> Option<Currency> {
    if s == "USD"@ {
        Some(Currency::Usd)
    } else if s == "EUR"@ {
        Some(Currency::Eur)
    } else if s == "GBP"@ {
        Some(Currency::Gbp)
    } else if s == "JPY"@ {
        Some(Currency::Jpy)
    } else if s == "INR"@ {
        Some(Currency::Inr)
    } else if s == "SGD"@ {
        Some(Currency::Sgd)
    } else if s == "AUD"@ {
        Some(Currency::Aud)
    } else {
        None
    }
}

/// The three-letter code of a currency.
pub fn currency_code(c: Currency) -> (r: &'static str)
    ensures
        r@ == spec_currency_code(c),
{
    match c {
        Currency::Usd => "USD",
        Currency::Eur => "EUR",
        Currency::Gbp => "GBP",
        Currency::Jpy => "JPY",
        Currency::Inr => "INR",
        Currency::Sgd => "SGD",
        Currency::Aud => "AUD",
    }
}

/// Parses a currency code against the allow-list.
pub fn currency_from_code(code: &str) -> (r: Option<Currency>)
    ensures
        r == spec_currency_from_code(code@),
{
    if str_eq(code, "USD") {
        Some(Currency::Usd)
    } else if str_eq(code, "EUR") {
        Some(Currency::Eur)
    } else if str_eq(code, "GBP") {
        Some(Currency::Gbp)
    } else if str_eq(code, "JPY") {
        Some(Currency::Jpy)
    } else if str_eq(code, "INR") {
        Some(Currency::Inr)
    } else if str_eq(code, "SGD") {
        Some(Currency::Sgd)
    } else if str_eq(code, "AUD") {
        Some(Currency::Aud)
    } else {
        None
    }
}

/// Decides whether a string is a code from the currency allow-list.
pub fn validate_currency(code: &str) -> (r: bool)
    ensures
        r == (spec_currency_from_code(code@) is Some),
{
    currency_from_code(code).is_some()
}

} // verus!
