//! The laws of the transfer engine, stated and proved over the ledger
//! model: conservation of value, non-negativity of balances, and currency
//! isolation.

use vstd::prelude::*;
use crate::currency::Currency;
use crate::ledger::{has_sub, ledger_inv, sub_idx, LedgerModel};
use crate::models::LedgerError;
use crate::moneytransfer::{spec_transfer, spec_transfer_err};

verus! {

/// Conservation: a successful direct transfer leaves the sum of the source
/// and destination balances exactly as it was — value moves, it is neither
/// created nor destroyed.
pub proof fn lemma_transfer_conservation(m: LedgerModel, from_account: u64, to_account: u64,
    amount: u64, currency: Currency, now: u64)
    requires
        ledger_inv(m),
        spec_transfer_err(m, from_account, to_account, amount, currency) is None,
    ensures
        ({
            let fi = sub_idx(m.sub_accounts, from_account, currency);
            let ti = sub_idx(m.sub_accounts, to_account, currency);
            let m2 = spec_transfer(m, from_account, to_account, amount, currency, now);
            m2.sub_accounts[fi].balance + m2.sub_accounts[ti].balance == m.sub_accounts[fi].balance
                + m.sub_accounts[ti].balance
        }),
{
}

/// No negative balances, structural half: balances are unsigned machine
/// integers, so every ledger — in particular the ledger every operation
/// leaves behind — carries balances at or above zero.
pub proof fn lemma_no_negative_balances(m: LedgerModel)
    ensures
        forall|i: int|
            0 <= i < m.sub_accounts.len() ==> (#[trigger] m.sub_accounts[i]).balance >= 0,
{
}

/// No negative balances, behavioural half: a debit is applied only when
/// the source balance covers it — a transfer whose source balance is short
/// is refused with `InsufficientFunds` and changes nothing.
pub proof fn lemma_debit_requires_sufficiency(m: LedgerModel, from_account: u64, to_account: u64,
    amount: u64, currency: Currency)
    requires
        amount > 0,
        has_sub(m.sub_accounts, from_account, currency),
        has_sub(m.sub_accounts, to_account, currency),
        m.sub_accounts[sub_idx(m.sub_accounts, from_account, currency)].balance < amount,
    ensures
        spec_transfer_err(m, from_account, to_account, amount, currency) == Some(
            LedgerError::InsufficientFunds,
        ),
{
}

/// Currency isolation, refusal half: a direct transfer in a currency that
/// either account lacks a sub-account for fails with
/// `NoMatchingSubAccount`; it never silently converts.
pub proof fn lemma_transfer_requires_matching_currency(m: LedgerModel, from_account: u64,
    to_account: u64, amount: u64, currency: Currency)
    requires
        amount > 0,
        !has_sub(m.sub_accounts, from_account, currency) || !has_sub(m.sub_accounts, to_account,
            currency),
    ensures
        spec_transfer_err(m, from_account, to_account, amount, currency) == Some(
            LedgerError::NoMatchingSubAccount,
        ),
{
}

/// Currency isolation, success half: a successful direct transfer touches
/// only the two sub-accounts of the requested currency — both changed
/// sub-accounts carry that currency, and every other sub-account is left
/// exactly as it was.
pub proof fn lemma_transfer_currency_isolation(m: LedgerModel, from_account: u64, to_account: u64,
    amount: u64, currency: Currency, now: u64)
    requires
        ledger_inv(m),
        spec_transfer_err(m, from_account, to_account, amount, currency) is None,
    ensures
        ({
            let fi = sub_idx(m.sub_accounts, from_account, currency);
            let ti = sub_idx(m.sub_accounts, to_account, currency);
            let m2 = spec_transfer(m, from_account, to_account, amount, currency, now);
            &&& m2.sub_accounts[fi].currency == currency
            &&& m2.sub_accounts[ti].currency == currency
            &&& forall|k: int|
                0 <= k < m.sub_accounts.len() && k != fi && k != ti
                    ==> #[trigger] m2.sub_accounts[k] == m.sub_accounts[k]
        }),
{
}

} // verus!
