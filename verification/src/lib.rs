//! A multi-currency account ledger: accounts hold one sub-account per
//! currency, and a transfer engine moves value between sub-accounts while
//! keeping balances non-negative and the transaction history consistent.
//!
//! External collaborators (persistence, rate quotes, credential checks,
//! alert delivery) are kept outside the library: every operation here works
//! on an in-memory [`ledger::Ledger`] value and takes collaborator answers
//! (such as a rate quote) as plain arguments.

pub mod clock;
pub mod currency;
pub mod database;
pub mod dates;
pub mod laws;
pub mod ledger;
pub mod models;
pub mod moneytransfer;
pub mod recurringpayments;
pub mod validation;
