//! The transfer engine: direct same-currency transfers, in-account currency
//! conversion at an externally quoted rate, balance adjustment, and the
//! staged top-up workflow.
//!
//! Every operation is specified as a function of the ledger model: the
//! `spec_*` functions below say exactly which ledgers an operation accepts,
//! which error it reports otherwise, and what the ledger looks like after a
//! success. A refused operation leaves the ledger untouched.

use vstd::prelude::*;
use crate::currency::Currency;
use crate::ledger::{find_pending, find_sub_account, find_sub_account_by_id, has_pending, has_sub,
    has_sub_id, ledger_inv, lemma_pending_idx_is, lemma_sub_id_idx_is, lemma_sub_idx_is,
    pending_idx, sub_id_idx, sub_idx, Ledger, LedgerModel};
use crate::models::{LedgerError, PendingTransaction, SubAccount, Transaction, ADMIN_ACCOUNT_ID};

verus! {

/// Why a direct transfer of `amount` in `currency` from `from_account` to
/// `to_account` would be refused on ledger `m`, or `None` when it succeeds.
///
/// The amount must be strictly positive, both legs must have a sub-account
/// in the requested currency, the source balance must cover the debit, and
/// the credited balance and the next identifier must stay representable.
pub open spec fn spec_transfer_err(m: LedgerModel, from_account: u64, to_account: u64, amount: u64,
    currency: Currency) -> Option<LedgerError> {
    let subs = m.sub_accounts;
    if amount == 0 {
        Some(LedgerError::InvalidAmount)
    } else if !has_sub(subs, from_account, currency) || !has_sub(subs, to_account, currency) {
        Some(LedgerError::NoMatchingSubAccount)
    } else {
        let fi = sub_idx(subs, from_account, currency);
        let ti = sub_idx(subs, to_account, currency);
        if subs[fi].balance < amount {
            Some(LedgerError::InsufficientFunds)
        } else if fi != ti && subs[ti].balance + amount > u64::MAX {
            Some(LedgerError::Overflow)
        } else if m.next_id == u64::MAX {
            Some(LedgerError::Overflow)
        } else {
            None
        }
    }
}

/// The transaction record that a successful direct transfer appends.
pub open spec fn spec_transfer_txn(m: LedgerModel, from_account: u64, to_account: u64, amount: u64,
    currency: Currency, now: u64) -> Transaction {
    let subs = m.sub_accounts;
    Transaction {
        transaction_id: m.next_id,
        sub_account_id_from: subs[sub_idx(subs, from_account, currency)].id,
        sub_account_id_to: subs[sub_idx(subs, to_account, currency)].id,
        amount,
        transfer_currency: currency,
        transaction_date: now,
    }
}

/// The ledger after a successful direct transfer: the source sub-account is
/// debited, the destination sub-account is credited, the transaction record
/// is appended, and the next identifier advances. Meaningful when
/// `spec_transfer_err` is `None`.
pub open spec fn spec_transfer(m: LedgerModel, from_account: u64, to_account: u64, amount: u64,
    currency: Currency, now: u64) -> LedgerModel {
    let subs = m.sub_accounts;
    let fi = sub_idx(subs, from_account, currency);
    let ti = sub_idx(subs, to_account, currency);
    let debited = SubAccount { balance: (subs[fi].balance - amount) as u64, ..subs[fi] };
    let s1 = subs.update(fi, debited);
    let credited = SubAccount { balance: (s1[ti].balance + amount) as u64, ..s1[ti] };
    let s2 = s1.update(ti, credited);
    LedgerModel {
        sub_accounts: s2,
        transactions: m.transactions.push(
            spec_transfer_txn(m, from_account, to_account, amount, currency, now),
        ),
        next_id: (m.next_id + 1) as u64,
        ..m
    }
}

/// Executes a direct same-currency transfer between two accounts.
///
/// Both accounts must hold a sub-account in the requested currency; the
/// source is debited before the destination is credited, and the appended
/// transaction record references the two sub-accounts, the amount and the
/// currency. On any refusal the ledger is unchanged and the reported error
/// is exactly `spec_transfer_err`.
pub fn transfer_money(l: &mut Ledger, from_account: u64, to_account: u64,
    amount_to_transfer: u64, currency_to_transfer: Currency, now: u64) -> (r: Result<
    Transaction,
    LedgerError,
>)
    requires
        old(l).wf(),
    ensures
        final(l).wf(),
        match r {
            Ok(t) => {
                &&& spec_transfer_err(old(l)@, from_account, to_account, amount_to_transfer,
                    currency_to_transfer) is None
                &&& t == spec_transfer_txn(old(l)@, from_account, to_account, amount_to_transfer,
                    currency_to_transfer, now)
                &&& final(l)@ == spec_transfer(old(l)@, from_account, to_account,
                    amount_to_transfer, currency_to_transfer, now)
            },
            Err(e) => {
                &&& Some(e) == spec_transfer_err(old(l)@, from_account, to_account,
                    amount_to_transfer, currency_to_transfer)
                &&& final(l)@ == old(l)@
            },
        },
{
    if amount_to_transfer == 0 {
        return Err(LedgerError::InvalidAmount);
    }
    let fi = match find_sub_account(&l.sub_accounts, from_account, currency_to_transfer) {
        Some(i) => i,
        None => {
            return Err(LedgerError::NoMatchingSubAccount);
        },
    };
    let ti = match find_sub_account(&l.sub_accounts, to_account, currency_to_transfer) {
        Some(i) => i,
        None => {
            return Err(LedgerError::NoMatchingSubAccount);
        },
    };
    proof {
        lemma_sub_idx_is(l@.sub_accounts, l@.next_id, fi as int, from_account,
            currency_to_transfer);
        lemma_sub_idx_is(l@.sub_accounts, l@.next_id, ti as int, to_account, currency_to_transfer);
    }
    let from_sub = l.sub_accounts[fi];
    if from_sub.balance < amount_to_transfer {
        return Err(LedgerError::InsufficientFunds);
    }
    let to_sub = l.sub_accounts[ti];
    if fi != ti && to_sub.balance > u64::MAX - amount_to_transfer {
        return Err(LedgerError::Overflow);
    }
    if l.next_id == u64::MAX {
        return Err(LedgerError::Overflow);
    }
    let ghost m0 = l@;
    // The debit is applied before the credit: a failure between the two
    // legs loses funds detectably rather than conjuring them.
    let debited = SubAccount { balance: from_sub.balance - amount_to_transfer, ..from_sub };
    l.sub_accounts[fi] = debited;
    let cur = l.sub_accounts[ti];
    let credited = SubAccount { balance: cur.balance + amount_to_transfer, ..cur };
    l.sub_accounts[ti] = credited;
    let txn = Transaction {
        transaction_id: l.next_id,
        sub_account_id_from: from_sub.id,
        sub_account_id_to: to_sub.id,
        amount: amount_to_transfer,
        transfer_currency: currency_to_transfer,
        transaction_date: now,
    };
    l.transactions.push(txn);
    l.next_id = l.next_id + 1;
    proof {
        assert(l@ =~= spec_transfer(m0, from_account, to_account, amount_to_transfer,
            currency_to_transfer, now));
        lemma_transfer_preserves_inv(m0, from_account, to_account, amount_to_transfer,
            currency_to_transfer, now);
    }
    Ok(txn)
}

/// A successful direct transfer preserves the ledger invariant: balances
/// change but identifiers, key pairs and the other tables do not.
proof fn lemma_transfer_preserves_inv(m: LedgerModel, from_account: u64, to_account: u64,
    amount: u64, currency: Currency, now: u64)
    requires
        ledger_inv(m),
        spec_transfer_err(m, from_account, to_account, amount, currency) is None,
    ensures
        ledger_inv(spec_transfer(m, from_account, to_account, amount, currency, now)),
{
    let m2 = spec_transfer(m, from_account, to_account, amount, currency, now);
    assert forall|i: int| 0 <= i < m2.sub_accounts.len() implies (#[trigger] m2.sub_accounts[i]).id
        == m.sub_accounts[i].id && m2.sub_accounts[i].account_id == m.sub_accounts[i].account_id
        && m2.sub_accounts[i].currency == m.sub_accounts[i].currency by {}
    assert forall|i: int| 0 <= i < m2.transactions.len() implies (
    #[trigger] m2.transactions[i]).transaction_id < m2.next_id by {
        if i < m.transactions.len() {
            assert(m.transactions[i].transaction_id < m.next_id);
        }
    }
}

/// Why an adjustment of `amount_change` on the sub-account with identifier
/// `sub_account_id` would be refused on ledger `m`, or `None` when it
/// succeeds. The sub-account must exist, a debit must be covered by the
/// balance, and a credit must keep the balance representable.
pub open spec fn spec_update_balance_err(m: LedgerModel, sub_account_id: u64,
    amount_change: i64) -> Option<LedgerError> {
    let subs = m.sub_accounts;
    if !has_sub_id(subs, sub_account_id) {
        Some(LedgerError::NotFound)
    } else {
        let i = sub_id_idx(subs, sub_account_id);
        if amount_change < 0 && subs[i].balance < -(amount_change as int) {
            Some(LedgerError::InsufficientFunds)
        } else if amount_change >= 0 && subs[i].balance + amount_change > u64::MAX {
            Some(LedgerError::Overflow)
        } else {
            None
        }
    }
}

/// The ledger after a successful balance adjustment. Meaningful when
/// `spec_update_balance_err` is `None`.
pub open spec fn spec_update_balance(m: LedgerModel, sub_account_id: u64,
    amount_change: i64) -> LedgerModel {
    let subs = m.sub_accounts;
    let i = sub_id_idx(subs, sub_account_id);
    let updated = SubAccount {
        balance: (subs[i].balance + amount_change) as u64,
        ..subs[i]
    };
    LedgerModel { sub_accounts: subs.update(i, updated), ..m }
}

/// Atomically applies `balance += amount_change` to one sub-account and
/// returns the post-image. A debit that the balance does not cover is
/// refused with `InsufficientFunds`, so no balance ever goes below zero.
pub fn update_balance(l: &mut Ledger, sub_account_id: u64, amount_change: i64) -> (r: Result<
    SubAccount,
    LedgerError,
>)
    requires
        old(l).wf(),
        amount_change > i64::MIN,
    ensures
        final(l).wf(),
        match r {
            Ok(s) => {
                &&& spec_update_balance_err(old(l)@, sub_account_id, amount_change) is None
                &&& final(l)@ == spec_update_balance(old(l)@, sub_account_id, amount_change)
                &&& s == final(l)@.sub_accounts[sub_id_idx(old(l)@.sub_accounts, sub_account_id)]
            },
            Err(e) => {
                &&& Some(e) == spec_update_balance_err(old(l)@, sub_account_id, amount_change)
                &&& final(l)@ == old(l)@
            },
        },
{
    let i = match find_sub_account_by_id(&l.sub_accounts, sub_account_id) {
        Some(i) => i,
        None => {
            return Err(LedgerError::NotFound);
        },
    };
    proof {
        lemma_sub_id_idx_is(l@.sub_accounts, l@.next_id, i as int, sub_account_id);
    }
    let s = l.sub_accounts[i];
    let new_balance: u64 = if amount_change < 0 {
        let magnitude = (-amount_change) as u64;
        if s.balance < magnitude {
            return Err(LedgerError::InsufficientFunds);
        }
        s.balance - magnitude
    } else {
        let increase = amount_change as u64;
        if s.balance > u64::MAX - increase {
            return Err(LedgerError::Overflow);
        }
        s.balance + increase
    };
    let updated = SubAccount { balance: new_balance, ..s };
    l.sub_accounts[i] = updated;
    proof {
        assert(l@ =~= spec_update_balance(old(l)@, sub_account_id, amount_change));
        let m2 = l@;
        assert forall|k: int| 0 <= k < m2.sub_accounts.len() implies (
        #[trigger] m2.sub_accounts[k]).id == old(l)@.sub_accounts[k].id
            && m2.sub_accounts[k].account_id == old(l)@.sub_accounts[k].account_id
            && m2.sub_accounts[k].currency == old(l)@.sub_accounts[k].currency by {}
    }
    Ok(updated)
}

/// Why an in-account conversion of `amount` from `from_currency` into
/// `to_currency` would be refused on ledger `m`, or `None` when it
/// succeeds. `quote` is the answer of the external rate-quote collaborator:
/// the converted amount, or `None` when the quote was unavailable. The
/// engine checks the amount, the currencies, the sub-accounts and the
/// source balance before it consults the quote, so a missing quote is
/// reported only for an otherwise executable conversion.
pub open spec fn spec_conversion_err(m: LedgerModel, account_id: u64, from_currency: Currency,
    to_currency: Currency, amount: u64, quote: Option<u64>) -> Option<LedgerError> {
    let subs = m.sub_accounts;
    if amount == 0 {
        Some(LedgerError::InvalidAmount)
    } else if from_currency == to_currency {
        Some(LedgerError::CurrencyMismatch)
    } else if !has_sub(subs, account_id, from_currency) || !has_sub(subs, account_id, to_currency) {
        Some(LedgerError::NoMatchingSubAccount)
    } else {
        let fi = sub_idx(subs, account_id, from_currency);
        let ti = sub_idx(subs, account_id, to_currency);
        if subs[fi].balance < amount {
            Some(LedgerError::InsufficientFunds)
        } else {
            match quote {
                None => Some(LedgerError::RateUnavailable),
                Some(converted) => {
                    if subs[ti].balance + converted > u64::MAX {
                        Some(LedgerError::Overflow)
                    } else if m.next_id == u64::MAX {
                        Some(LedgerError::Overflow)
                    } else {
                        None
                    }
                },
            }
        }
    }
}

/// The transaction record that a successful conversion appends: it is
/// denominated in the source leg's amount and currency.
pub open spec fn spec_conversion_txn(m: LedgerModel, account_id: u64, from_currency: Currency,
    to_currency: Currency, amount: u64, now: u64) -> Transaction {
    let subs = m.sub_accounts;
    Transaction {
        transaction_id: m.next_id,
        sub_account_id_from: subs[sub_idx(subs, account_id, from_currency)].id,
        sub_account_id_to: subs[sub_idx(subs, account_id, to_currency)].id,
        amount,
        transfer_currency: from_currency,
        transaction_date: now,
    }
}

/// The ledger after a successful conversion: the source sub-account is
/// debited by `amount` in its own currency and the destination sub-account
/// is credited with the quoted `converted` amount in its currency — the two
/// legs are deliberately denominated differently. Meaningful when
/// `spec_conversion_err` is `None` with `quote == Some(converted)`.
pub open spec fn spec_conversion(m: LedgerModel, account_id: u64, from_currency: Currency,
    to_currency: Currency, amount: u64, converted: u64, now: u64) -> LedgerModel {
    let subs = m.sub_accounts;
    let fi = sub_idx(subs, account_id, from_currency);
    let ti = sub_idx(subs, account_id, to_currency);
    let debited = SubAccount { balance: (subs[fi].balance - amount) as u64, ..subs[fi] };
    let s1 = subs.update(fi, debited);
    let credited = SubAccount { balance: (s1[ti].balance + converted) as u64, ..s1[ti] };
    let s2 = s1.update(ti, credited);
    LedgerModel {
        sub_accounts: s2,
        transactions: m.transactions.push(
            spec_conversion_txn(m, account_id, from_currency, to_currency, amount, now),
        ),
        next_id: (m.next_id + 1) as u64,
        ..m
    }
}

/// Converts value between two sub-accounts of one account at an externally
/// quoted rate.
///
/// The caller obtains the quote from the rate-quote collaborator and hands
/// it in as `quote`; `None` (the quote request failed or returned no usable
/// answer) aborts the conversion with `RateUnavailable` and no mutation.
/// On success the source is debited by `amount` and the destination is
/// credited with the quoted converted amount, and the appended transaction
/// record reflects the source leg.
pub fn transfer_between_sub_accounts(l: &mut Ledger, account_id_to_use: u64,
    from_currency: Currency, to_currency: Currency, amount_to_transfer: u64, quote: Option<u64>,
    now: u64) -> (r: Result<Transaction, LedgerError>)
    requires
        old(l).wf(),
    ensures
        final(l).wf(),
        match r {
            Ok(t) => {
                &&& spec_conversion_err(old(l)@, account_id_to_use, from_currency, to_currency,
                    amount_to_transfer, quote) is None
                &&& quote is Some
                &&& t == spec_conversion_txn(old(l)@, account_id_to_use, from_currency,
                    to_currency, amount_to_transfer, now)
                &&& final(l)@ == spec_conversion(old(l)@, account_id_to_use, from_currency,
                    to_currency, amount_to_transfer, quote.unwrap(), now)
            },
            Err(e) => {
                &&& Some(e) == spec_conversion_err(old(l)@, account_id_to_use, from_currency,
                    to_currency, amount_to_transfer, quote)
                &&& final(l)@ == old(l)@
            },
        },
{
    if amount_to_transfer == 0 {
        return Err(LedgerError::InvalidAmount);
    }
    if from_currency == to_currency {
        return Err(LedgerError::CurrencyMismatch);
    }
    let fi = match find_sub_account(&l.sub_accounts, account_id_to_use, from_currency) {
        Some(i) => i,
        None => {
            return Err(LedgerError::NoMatchingSubAccount);
        },
    };
    let ti = match find_sub_account(&l.sub_accounts, account_id_to_use, to_currency) {
        Some(i) => i,
        None => {
            return Err(LedgerError::NoMatchingSubAccount);
        },
    };
    proof {
        lemma_sub_idx_is(l@.sub_accounts, l@.next_id, fi as int, account_id_to_use, from_currency);
        lemma_sub_idx_is(l@.sub_accounts, l@.next_id, ti as int, account_id_to_use, to_currency);
    }
    let from_sub = l.sub_accounts[fi];
    if from_sub.balance < amount_to_transfer {
        return Err(LedgerError::InsufficientFunds);
    }
    let converted = match quote {
        Some(c) => c,
        None => {
            return Err(LedgerError::RateUnavailable);
        },
    };
    let to_sub = l.sub_accounts[ti];
    if to_sub.balance > u64::MAX - converted {
        return Err(LedgerError::Overflow);
    }
    if l.next_id == u64::MAX {
        return Err(LedgerError::Overflow);
    }
    let ghost m0 = l@;
    let debited = SubAccount { balance: from_sub.balance - amount_to_transfer, ..from_sub };
    l.sub_accounts[fi] = debited;
    let cur = l.sub_accounts[ti];
    let credited = SubAccount { balance: cur.balance + converted, ..cur };
    l.sub_accounts[ti] = credited;
    let txn = Transaction {
        transaction_id: l.next_id,
        sub_account_id_from: from_sub.id,
        sub_account_id_to: to_sub.id,
        amount: amount_to_transfer,
        transfer_currency: from_currency,
        transaction_date: now,
    };
    l.transactions.push(txn);
    l.next_id = l.next_id + 1;
    proof {
        assert(l@ =~= spec_conversion(m0, account_id_to_use, from_currency, to_currency,
            amount_to_transfer, converted, now));
        lemma_conversion_preserves_inv(m0, account_id_to_use, from_currency, to_currency,
            amount_to_transfer, converted, now);
    }
    Ok(txn)
}

/// A successful conversion preserves the ledger invariant.
proof fn lemma_conversion_preserves_inv(m: LedgerModel, account_id: u64, from_currency: Currency,
    to_currency: Currency, amount: u64, converted: u64, now: u64)
    requires
        ledger_inv(m),
        spec_conversion_err(m, account_id, from_currency, to_currency, amount, Some(converted))
            is None,
    ensures
        ledger_inv(spec_conversion(m, account_id, from_currency, to_currency, amount, converted,
            now)),
{
    let m2 = spec_conversion(m, account_id, from_currency, to_currency, amount, converted, now);
    assert forall|i: int| 0 <= i < m2.sub_accounts.len() implies (#[trigger] m2.sub_accounts[i]).id
        == m.sub_accounts[i].id && m2.sub_accounts[i].account_id == m.sub_accounts[i].account_id
        && m2.sub_accounts[i].currency == m.sub_accounts[i].currency by {}
    assert forall|i: int| 0 <= i < m2.transactions.len() implies (
    #[trigger] m2.transactions[i]).transaction_id < m2.next_id by {
        if i < m.transactions.len() {
            assert(m.transactions[i].transaction_id < m.next_id);
        }
    }
}

/// Why staging a top-up of `amount` would be refused, or `None` when it
/// succeeds: the amount must be strictly positive and the next identifier
/// representable.
pub open spec fn spec_stage_err(m: LedgerModel, amount: u64) -> Option<LedgerError> {
    if amount == 0 {
        Some(LedgerError::InvalidAmount)
    } else if m.next_id == u64::MAX {
        Some(LedgerError::Overflow)
    } else {
        None
    }
}

/// The staged top-up record that `add_money_to_sub_account` appends.
pub open spec fn spec_stage_record(m: LedgerModel, account_id: u64, amount: u64,
    currency: Currency, now: u64) -> PendingTransaction {
    PendingTransaction {
        id: m.next_id,
        account_id_to_add: account_id,
        amount,
        transfer_currency: currency,
        transaction_date: now,
    }
}

/// The ledger after a top-up was staged. Meaningful when `spec_stage_err`
/// is `None`.
pub open spec fn spec_stage(m: LedgerModel, account_id: u64, amount: u64, currency: Currency,
    now: u64) -> LedgerModel {
    LedgerModel {
        pending_transactions: m.pending_transactions.push(
            spec_stage_record(m, account_id, amount, currency, now),
        ),
        next_id: (m.next_id + 1) as u64,
        ..m
    }
}

/// Stages a top-up request for later administrator approval. No balance
/// moves yet: the request is recorded and its identifier returned.
pub fn add_money_to_sub_account(l: &mut Ledger, account_id_to_add: u64, amount_to_add: u64,
    transfer_currency: Currency, now: u64) -> (r: Result<PendingTransaction, LedgerError>)
    requires
        old(l).wf(),
    ensures
        final(l).wf(),
        match r {
            Ok(p) => {
                &&& spec_stage_err(old(l)@, amount_to_add) is None
                &&& p == spec_stage_record(old(l)@, account_id_to_add, amount_to_add,
                    transfer_currency, now)
                &&& final(l)@ == spec_stage(old(l)@, account_id_to_add, amount_to_add,
                    transfer_currency, now)
            },
            Err(e) => {
                &&& Some(e) == spec_stage_err(old(l)@, amount_to_add)
                &&& final(l)@ == old(l)@
            },
        },
{
    if amount_to_add == 0 {
        return Err(LedgerError::InvalidAmount);
    }
    if l.next_id == u64::MAX {
        return Err(LedgerError::Overflow);
    }
    let record = PendingTransaction {
        id: l.next_id,
        account_id_to_add,
        amount: amount_to_add,
        transfer_currency,
        transaction_date: now,
    };
    l.pending_transactions.push(record);
    l.next_id = l.next_id + 1;
    proof {
        assert(l@ =~= spec_stage(old(l)@, account_id_to_add, amount_to_add, transfer_currency,
            now));
        let m = old(l)@;
        let m2 = l@;
        assert forall|i: int| 0 <= i < m2.pending_transactions.len() implies (
        #[trigger] m2.pending_transactions[i]).id < m2.next_id by {
            if i < m.pending_transactions.len() {
                assert(m.pending_transactions[i].id < m.next_id);
            }
        }
    }
    Ok(record)
}

/// Returns all staged top-ups, in staging order.
pub fn get_pending_transactions(l: &Ledger) -> (r: Vec<PendingTransaction>)
    ensures
        r@ == l@.pending_transactions,
{
    let mut out: Vec<PendingTransaction> = Vec::new();
    let mut i: usize = 0;
    while i < l.pending_transactions.len()
        invariant
            i <= l@.pending_transactions.len(),
            out@ =~= l@.pending_transactions.subrange(0, i as int),
        decreases l@.pending_transactions.len() - i,
    {
        out.push(l.pending_transactions[i]);
        i += 1;
    }
    proof {
        assert(out@ =~= l@.pending_transactions);
    }
    out
}

/// Why approving the staged top-up with identifier `pending_id` would be
/// refused, or `None` when it succeeds: the record must still exist (an
/// already-approved identifier reports `NotFound`), and the funding
/// transfer from the reserve account must itself succeed.
pub open spec fn spec_approve_err(m: LedgerModel, pending_id: u64) -> Option<LedgerError> {
    if !has_pending(m.pending_transactions, pending_id) {
        Some(LedgerError::NotFound)
    } else {
        let p = m.pending_transactions[pending_idx(m.pending_transactions, pending_id)];
        spec_transfer_err(m, ADMIN_ACCOUNT_ID, p.account_id_to_add, p.amount, p.transfer_currency)
    }
}

/// The ledger after a successful approval: the funding transfer from the
/// reserve account is applied and the staged record is deleted. Meaningful
/// when `spec_approve_err` is `None`.
pub open spec fn spec_approve(m: LedgerModel, pending_id: u64, now: u64) -> LedgerModel {
    let pi = pending_idx(m.pending_transactions, pending_id);
    let p = m.pending_transactions[pi];
    let m2 = spec_transfer(m, ADMIN_ACCOUNT_ID, p.account_id_to_add, p.amount,
        p.transfer_currency, now);
    LedgerModel { pending_transactions: m2.pending_transactions.remove(pi), ..m2 }
}

/// Approves a staged top-up: transfers the staged amount from the reserve
/// account into the target account's matching-currency sub-account, and
/// deletes the staged record only on success. A failed funding transfer
/// (for instance an underfunded reserve) leaves the record staged, so
/// approval is retryable; a missing identifier reports `NotFound` and
/// changes nothing.
pub fn approve_pending_transaction(l: &mut Ledger, pending_transaction_id: u64, now: u64) -> (r:
    Result<(), LedgerError>)
    requires
        old(l).wf(),
    ensures
        final(l).wf(),
        match r {
            Ok(()) => {
                &&& spec_approve_err(old(l)@, pending_transaction_id) is None
                &&& final(l)@ == spec_approve(old(l)@, pending_transaction_id, now)
            },
            Err(e) => {
                &&& Some(e) == spec_approve_err(old(l)@, pending_transaction_id)
                &&& final(l)@ == old(l)@
            },
        },
{
    let pi = match find_pending(&l.pending_transactions, pending_transaction_id) {
        Some(i) => i,
        None => {
            return Err(LedgerError::NotFound);
        },
    };
    proof {
        lemma_pending_idx_is(l@.pending_transactions, l@.next_id, pi as int,
            pending_transaction_id);
    }
    let p = l.pending_transactions[pi];
    match transfer_money(l, ADMIN_ACCOUNT_ID, p.account_id_to_add, p.amount, p.transfer_currency,
        now) {
        Ok(_) => {},
        Err(e) => {
            return Err(e);
        },
    }
    l.pending_transactions.remove(pi);
    proof {
        assert(l@ =~= spec_approve(old(l)@, pending_transaction_id, now));
        let m2 = l@;
        let removed = spec_approve(old(l)@, pending_transaction_id, now).pending_transactions;
        assert forall|i: int, j: int| #![trigger removed[i], removed[j]]
            0 <= i < removed.len() && 0 <= j < removed.len() && i != j implies removed[i].id
            != removed[j].id by {}
        assert forall|i: int| 0 <= i < removed.len() implies (#[trigger] removed[i]).id
            < m2.next_id by {
            assert(old(l)@.pending_transactions[if i < pi as int {
                i
            } else {
                i + 1
            }].id < old(l)@.next_id);
        }
    }
    Ok(())
}

/// Whether the sub-account with identifier `sub_id` belongs to the account
/// with identifier `account_id`.
pub open spec fn sub_belongs(subs: Seq<SubAccount>, sub_id: u64, account_id: u64) -> bool {
    exists|i: int|
        0 <= i < subs.len() && (#[trigger] subs[i]).id == sub_id && subs[i].account_id
            == account_id
}

/// Whether a transaction touches any sub-account of the given account, on
/// either leg.
pub open spec fn txn_involves(subs: Seq<SubAccount>, account_id: u64, t: Transaction) -> bool {
    sub_belongs(subs, t.sub_account_id_from, account_id) || sub_belongs(subs, t.sub_account_id_to,
        account_id)
}

fn account_owns_sub(subs: &Vec<SubAccount>, sub_id: u64, account_id: u64) -> (r: bool)
    ensures
        r == sub_belongs(subs@, sub_id, account_id),
{
    let mut i: usize = 0;
    while i < subs.len()
        invariant
            i <= subs@.len(),
            forall|j: int|
                0 <= j < i ==> !((#[trigger] subs@[j]).id == sub_id && subs@[j].account_id
                    == account_id),
        decreases subs@.len() - i,
    {
        if subs[i].id == sub_id && subs[i].account_id == account_id {
            return true;
        }
        i += 1;
    }
    false
}

/// The transactions that touch any sub-account of the given account, in
/// history order.
pub open spec fn spec_account_transactions(m: LedgerModel, account_id: u64) -> Seq<Transaction> {
    m.transactions.filter(|t: Transaction| txn_involves(m.sub_accounts, account_id, t))
}

/// Returns every transaction that involves any sub-account of the given
/// account, on either leg, in history order.
pub fn get_transactions(l: &Ledger, account_id_temp: u64) -> (r: Vec<Transaction>)
    ensures
        r@ == spec_account_transactions(l@, account_id_temp),
{
    let ghost pred = (|t: Transaction| txn_involves(l@.sub_accounts, account_id_temp, t));
    let mut out: Vec<Transaction> = Vec::new();
    let mut i: usize = 0;
    while i < l.transactions.len()
        invariant
            i <= l@.transactions.len(),
            pred == (|t: Transaction| txn_involves(l@.sub_accounts, account_id_temp, t)),
            out@ == l@.transactions.subrange(0, i as int).filter(pred),
        decreases l@.transactions.len() - i,
    {
        let t = l.transactions[i];
        let involved = account_owns_sub(&l.sub_accounts, t.sub_account_id_from, account_id_temp)
            || account_owns_sub(&l.sub_accounts, t.sub_account_id_to, account_id_temp);
        proof {
            let pre0 = l@.transactions.subrange(0, i as int);
            let pre1 = l@.transactions.subrange(0, i + 1);
            assert(pre1.drop_last() =~= pre0);
            assert(pre1.last() == l@.transactions[i as int]);
            reveal(Seq::filter);
            assert(pre1.filter(pred) == if pred(l@.transactions[i as int]) {
                pre0.filter(pred).push(l@.transactions[i as int])
            } else {
                pre0.filter(pred)
            });
        }
        if involved {
            out.push(t);
        }
        i += 1;
    }
    proof {
        assert(l@.transactions.subrange(0, l@.transactions.len() as int) =~= l@.transactions);
    }
    out
}

/// Reads the balance of the sub-account of the given account and currency,
/// or `NotFound` when the account holds no sub-account in that currency.
pub fn get_balance(l: &Ledger, account_id_to_get_balance: u64, currency_to_get_balance: Currency)
    -> (r: Result<u64, LedgerError>)
    requires
        l.wf(),
    ensures
        match r {
            Ok(b) => has_sub(l@.sub_accounts, account_id_to_get_balance, currency_to_get_balance)
                && b == l@.sub_accounts[sub_idx(l@.sub_accounts, account_id_to_get_balance,
                currency_to_get_balance)].balance,
            Err(e) => e == LedgerError::NotFound && !has_sub(l@.sub_accounts,
                account_id_to_get_balance, currency_to_get_balance),
        },
{
    match find_sub_account(&l.sub_accounts, account_id_to_get_balance, currency_to_get_balance) {
        Some(i) => {
            proof {
                lemma_sub_idx_is(l@.sub_accounts, l@.next_id, i as int, account_id_to_get_balance,
                    currency_to_get_balance);
            }
            Ok(l.sub_accounts[i].balance)
        },
        None => Err(LedgerError::NotFound),
    }
}

} // verus!
