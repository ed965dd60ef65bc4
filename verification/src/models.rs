//! The persisted entities of the ledger: accounts, per-currency
//! sub-accounts, executed transactions, staged top-ups and scheduled
//! transfers, together with the error taxonomy of the transfer engine.

use vstd::prelude::*;
use crate::currency::Currency;
use crate::dates::Date;

verus! {

/// The well-known reserve account that funds approved top-ups.
pub const ADMIN_ACCOUNT_ID: u64 = 0;

/// Why a ledger operation was refused. Every refusal leaves the ledger
/// unchanged.
#[derive(Clone, Copy, PartialEq, Eq, Structural, Debug)]
pub enum LedgerError {
    /// A transfer leg has no sub-account in the requested currency.
    NoMatchingSubAccount,
    /// The amount is not strictly positive.
    InvalidAmount,
    /// An in-account conversion was requested between equal currencies.
    CurrencyMismatch,
    /// The source balance does not cover the debit.
    InsufficientFunds,
    /// The external rate-quote collaborator gave no usable quote.
    RateUnavailable,
    /// A sub-account for this account and currency already exists.
    DuplicateSubAccount,
    /// An account with this holder name already exists.
    DuplicateAccount,
    /// The requested record does not exist.
    NotFound,
    /// The holder name is not acceptable.
    InvalidName,
    /// The date is not a valid calendar date in the supported range.
    InvalidDate,
    /// A balance or identifier would leave the machine-representable range.
    Overflow,
}

/// A customer account. Holder names are the uniqueness key: creating a
/// second account under an existing name is rejected.
#[derive(Debug)]
pub struct Account {
    pub id: u64,
    pub account_holder_name: String,
    pub created_at: u64,
    pub active: bool,
}

/// The mathematical image of an [`Account`].
#[verifier::ext_equal]
pub ghost struct AccountV {
    pub id: u64,
    pub account_holder_name: Seq<char>,
    pub created_at: u64,
    pub active: bool,
}

impl View for Account {
    type V = AccountV;

    open spec fn view(&self) -> AccountV {
        AccountV {
            id: self.id,
            account_holder_name: self.account_holder_name@,
            created_at: self.created_at,
            active: self.active,
        }
    }
}

/// A currency-scoped balance bucket owned by one account. At most one
/// sub-account exists per (account, currency) pair, and balances are
/// unsigned: no operation can drive one below zero.
#[derive(Clone, Copy, PartialEq, Eq, Structural, Debug)]
pub struct SubAccount {
    pub id: u64,
    pub account_id: u64,
    pub currency: Currency,
    pub balance: u64,
    pub created_at: u64,
}

/// An immutable record of one executed transfer. The stored amount and
/// currency describe the debit leg.
#[derive(Clone, Copy, PartialEq, Eq, Structural, Debug)]
pub struct Transaction {
    pub transaction_id: u64,
    pub sub_account_id_from: u64,
    pub sub_account_id_to: u64,
    pub amount: u64,
    pub transfer_currency: Currency,
    pub transaction_date: u64,
}

/// A staged top-up awaiting administrator approval. Approval funds the
/// credit from the reserve account and deletes the record.
#[derive(Clone, Copy, PartialEq, Eq, Structural, Debug)]
pub struct PendingTransaction {
    pub id: u64,
    pub account_id_to_add: u64,
    pub amount: u64,
    pub transfer_currency: Currency,
    pub transaction_date: u64,
}

/// A recurring-transfer definition. The scheduler advances
/// `scheduled_date` by one month after each successful execution; the
/// `executed` flag is carried over from the source data but the advancing
/// date is the authoritative state.
#[derive(Clone, Copy, PartialEq, Eq, Structural, Debug)]
pub struct ScheduledTransaction {
    pub id: u64,
    pub from_account_id: u64,
    pub to_account_id: u64,
    pub amount: u64,
    pub currency: Currency,
    pub scheduled_date: Date,
    pub executed: bool,
}

} // verus!
