//! Ledger-store operations: account and sub-account creation with their
//! uniqueness rules, duplicate checks, listings, and the scheduled-transfer
//! records.

use vstd::prelude::*;
use crate::currency::Currency;
use crate::dates::{valid_date, validate_date, Date};
use crate::ledger::{find_account_by_id, find_account_by_name, find_scheduled, find_sub_account,
    has_account_id, has_account_name, has_scheduled, has_sub, lemma_scheduled_idx_is,
    scheduled_idx, Ledger, LedgerModel};
use crate::models::{Account, AccountV, LedgerError, ScheduledTransaction, SubAccount};
use crate::validation::{valid_account_name, validate_account_name};

verus! {

/// Why creating an account under `name` would be refused, or `None` when
/// it succeeds: the name must be acceptable and not already taken — the
/// holder name, not the identifier, is the uniqueness key.
pub open spec fn spec_create_account_err(m: LedgerModel, name: Seq<char>) -> Option<LedgerError> {
    if !valid_account_name(name) {
        Some(LedgerError::InvalidName)
    } else if has_account_name(m.accounts, name) {
        Some(LedgerError::DuplicateAccount)
    } else if m.next_id == u64::MAX {
        Some(LedgerError::Overflow)
    } else {
        None
    }
}

/// The account record that `create_account` appends.
pub open spec fn spec_create_account_record(m: LedgerModel, name: Seq<char>, now: u64) -> AccountV {
    AccountV { id: m.next_id, account_holder_name: name, created_at: now, active: true }
}

/// The ledger after an account was created. Meaningful when
/// `spec_create_account_err` is `None`.
pub open spec fn spec_create_account(m: LedgerModel, name: Seq<char>, now: u64) -> LedgerModel {
    LedgerModel {
        accounts: m.accounts.push(spec_create_account_record(m, name, now)),
        next_id: (m.next_id + 1) as u64,
        ..m
    }
}

/// Creates an account for a new holder. Duplicate holder names are
/// rejected, never merged.
pub fn create_account(l: &mut Ledger, holder_name: &str, now: u64) -> (r: Result<
    Account,
    LedgerError,
>)
    requires
        old(l).wf(),
    ensures
        final(l).wf(),
        match r {
            Ok(a) => {
                &&& spec_create_account_err(old(l)@, holder_name@) is None
                &&& a@ == spec_create_account_record(old(l)@, holder_name@, now)
                &&& final(l)@ == spec_create_account(old(l)@, holder_name@, now)
            },
            Err(e) => {
                &&& Some(e) == spec_create_account_err(old(l)@, holder_name@)
                &&& final(l)@ == old(l)@
            },
        },
{
    if !validate_account_name(holder_name) {
        return Err(LedgerError::InvalidName);
    }
    if check_duplicate_account(l, holder_name) {
        return Err(LedgerError::DuplicateAccount);
    }
    if l.next_id == u64::MAX {
        return Err(LedgerError::Overflow);
    }
    let stored = Account {
        id: l.next_id,
        account_holder_name: holder_name.to_owned(),
        created_at: now,
        active: true,
    };
    let returned = Account {
        id: l.next_id,
        account_holder_name: holder_name.to_owned(),
        created_at: now,
        active: true,
    };
    l.accounts.push(stored);
    l.next_id = l.next_id + 1;
    proof {
        assert(l@ =~= spec_create_account(old(l)@, holder_name@, now));
        let m = old(l)@;
        let m2 = l@;
        assert forall|i: int| 0 <= i < m2.accounts.len() implies (#[trigger] m2.accounts[i]).id
            < m2.next_id && valid_account_name(m2.accounts[i].account_holder_name) by {
            if i < m.accounts.len() {
                assert(m.accounts[i].id < m.next_id);
            }
        }
    }
    Ok(returned)
}

/// Why creating a sub-account for `(account_id, currency)` would be
/// refused, or `None` when it succeeds: at most one sub-account may exist
/// per account and currency.
pub open spec fn spec_create_sub_account_err(m: LedgerModel, account_id: u64,
    currency: Currency) -> Option<LedgerError> {
    if has_sub(m.sub_accounts, account_id, currency) {
        Some(LedgerError::DuplicateSubAccount)
    } else if m.next_id == u64::MAX {
        Some(LedgerError::Overflow)
    } else {
        None
    }
}

/// The sub-account record that `create_sub_account` appends.
pub open spec fn spec_create_sub_account_record(m: LedgerModel, account_id: u64,
    currency: Currency, balance: u64, now: u64) -> SubAccount {
    SubAccount { id: m.next_id, account_id, currency, balance, created_at: now }
}

/// The ledger after a sub-account was created. Meaningful when
/// `spec_create_sub_account_err` is `None`.
pub open spec fn spec_create_sub_account(m: LedgerModel, account_id: u64, currency: Currency,
    balance: u64, now: u64) -> LedgerModel {
    LedgerModel {
        sub_accounts: m.sub_accounts.push(
            spec_create_sub_account_record(m, account_id, currency, balance, now),
        ),
        next_id: (m.next_id + 1) as u64,
        ..m
    }
}

/// Creates a sub-account holding `balance_temp` of `currency_temp` for the
/// given account. A second sub-account for an existing (account, currency)
/// pair is rejected with `DuplicateSubAccount` and the existing balances
/// are untouched.
pub fn create_sub_account(l: &mut Ledger, account_id_temp: u64, currency_temp: Currency,
    balance_temp: u64, now: u64) -> (r: Result<SubAccount, LedgerError>)
    requires
        old(l).wf(),
    ensures
        final(l).wf(),
        match r {
            Ok(s) => {
                &&& spec_create_sub_account_err(old(l)@, account_id_temp, currency_temp) is None
                &&& s == spec_create_sub_account_record(old(l)@, account_id_temp, currency_temp,
                    balance_temp, now)
                &&& final(l)@ == spec_create_sub_account(old(l)@, account_id_temp, currency_temp,
                    balance_temp, now)
            },
            Err(e) => {
                &&& Some(e) == spec_create_sub_account_err(old(l)@, account_id_temp,
                    currency_temp)
                &&& final(l)@ == old(l)@
            },
        },
{
    if check_duplicate_sub_account(l, account_id_temp, currency_temp) {
        return Err(LedgerError::DuplicateSubAccount);
    }
    if l.next_id == u64::MAX {
        return Err(LedgerError::Overflow);
    }
    let record = SubAccount {
        id: l.next_id,
        account_id: account_id_temp,
        currency: currency_temp,
        balance: balance_temp,
        created_at: now,
    };
    l.sub_accounts.push(record);
    l.next_id = l.next_id + 1;
    proof {
        assert(l@ =~= spec_create_sub_account(old(l)@, account_id_temp, currency_temp,
            balance_temp, now));
        let m = old(l)@;
        let m2 = l@;
        assert forall|i: int, j: int| #![trigger m2.sub_accounts[i], m2.sub_accounts[j]]
            0 <= i < m2.sub_accounts.len() && 0 <= j < m2.sub_accounts.len() && i != j implies
            m2.sub_accounts[i].id != m2.sub_accounts[j].id && !(m2.sub_accounts[i].account_id
            == m2.sub_accounts[j].account_id && m2.sub_accounts[i].currency
            == m2.sub_accounts[j].currency) by {
            if i < m.sub_accounts.len() && j < m.sub_accounts.len() {
            } else if i < m.sub_accounts.len() {
                assert(m.sub_accounts[i].id < m.next_id);
            } else {
                assert(m.sub_accounts[j].id < m.next_id);
            }
        }
        assert forall|i: int| 0 <= i < m2.sub_accounts.len() implies (
        #[trigger] m2.sub_accounts[i]).id < m2.next_id by {
            if i < m.sub_accounts.len() {
                assert(m.sub_accounts[i].id < m.next_id);
            }
        }
    }
    Ok(record)
}

/// Decides whether a sub-account already exists for the given account and
/// currency.
pub fn check_duplicate_sub_account(l: &Ledger, account_id_temp: u64, currency_temp: Currency)
    -> (r: bool)
    ensures
        r == has_sub(l@.sub_accounts, account_id_temp, currency_temp),
{
    find_sub_account(&l.sub_accounts, account_id_temp, currency_temp).is_some()
}

/// Decides whether an account already exists under the given holder name.
pub fn check_duplicate_account(l: &Ledger, holder_name: &str) -> (r: bool)
    ensures
        r == has_account_name(l@.accounts, holder_name@),
{
    match find_account_by_name(&l.accounts, holder_name) {
        Some(i) => {
            proof {
                assert(has_account_name(l@.accounts, holder_name@)) by {
                    assert(l@.accounts[i as int].account_holder_name == holder_name@);
                }
            }
            true
        },
        None => false,
    }
}

/// Returns every account, in creation order.
pub fn get_accounts(l: &Ledger) -> (r: Vec<Account>)
    ensures
        r@.map_values(|a: Account| a@) == l@.accounts,
{
    let mut out: Vec<Account> = Vec::new();
    let mut i: usize = 0;
    while i < l.accounts.len()
        invariant
            i <= l@.accounts.len(),
            out@.len() == i,
            forall|k: int| 0 <= k < i ==> (#[trigger] out@[k])@ == l@.accounts[k],
        decreases l@.accounts.len() - i,
    {
        let a = &l.accounts[i];
        let copy = Account {
            id: a.id,
            account_holder_name: a.account_holder_name.clone(),
            created_at: a.created_at,
            active: a.active,
        };
        proof {
            assert(copy@ =~= l@.accounts[i as int]);
        }
        out.push(copy);
        i += 1;
    }
    proof {
        assert(out@.map_values(|a: Account| a@) =~= l@.accounts);
    }
    out
}

/// Decides whether an account with the given identifier exists.
pub fn validate_account_id(account_id: u64, l: &Ledger) -> (r: bool)
    ensures
        r == has_account_id(l@.accounts, account_id),
{
    match find_account_by_id(&l.accounts, account_id) {
        Some(i) => {
            proof {
                assert(has_account_id(l@.accounts, account_id)) by {
                    assert(l@.accounts[i as int].id == account_id);
                }
            }
            true
        },
        None => false,
    }
}

/// Why creating a scheduled transfer would be refused, or `None` when it
/// succeeds: the destination account must exist, the amount must be
/// strictly positive, and the date must be a valid calendar date.
pub open spec fn spec_add_scheduled_err(m: LedgerModel, to_account_id: u64, amount: u64,
    date: Date) -> Option<LedgerError> {
    if !has_account_id(m.accounts, to_account_id) {
        Some(LedgerError::NotFound)
    } else if amount == 0 {
        Some(LedgerError::InvalidAmount)
    } else if !valid_date(date) {
        Some(LedgerError::InvalidDate)
    } else if m.next_id == u64::MAX {
        Some(LedgerError::Overflow)
    } else {
        None
    }
}

/// The scheduled-transfer record that `add_scheduled_transaction` appends.
pub open spec fn spec_add_scheduled_record(m: LedgerModel, from_account_id: u64,
    to_account_id: u64, amount: u64, currency: Currency, date: Date) -> ScheduledTransaction {
    ScheduledTransaction {
        id: m.next_id,
        from_account_id,
        to_account_id,
        amount,
        currency,
        scheduled_date: date,
        executed: false,
    }
}

/// The ledger after a scheduled transfer was created. Meaningful when
/// `spec_add_scheduled_err` is `None`.
pub open spec fn spec_add_scheduled(m: LedgerModel, from_account_id: u64, to_account_id: u64,
    amount: u64, currency: Currency, date: Date) -> LedgerModel {
    LedgerModel {
        scheduled_transactions: m.scheduled_transactions.push(
            spec_add_scheduled_record(m, from_account_id, to_account_id, amount, currency, date),
        ),
        next_id: (m.next_id + 1) as u64,
        ..m
    }
}

/// Creates a recurring-transfer definition, first due on
/// `scheduled_date_temp` (day precision; any time of day is outside the
/// ledger). The destination account must exist and the amount must be
/// strictly positive.
pub fn add_scheduled_transaction(l: &mut Ledger, from_account_id_temp: u64,
    to_account_id_temp: u64, amount_temp: u64, currency_temp: Currency,
    scheduled_date_temp: Date) -> (r: Result<ScheduledTransaction, LedgerError>)
    requires
        old(l).wf(),
    ensures
        final(l).wf(),
        match r {
            Ok(s) => {
                &&& spec_add_scheduled_err(old(l)@, to_account_id_temp, amount_temp,
                    scheduled_date_temp) is None
                &&& s == spec_add_scheduled_record(old(l)@, from_account_id_temp,
                    to_account_id_temp, amount_temp, currency_temp, scheduled_date_temp)
                &&& final(l)@ == spec_add_scheduled(old(l)@, from_account_id_temp,
                    to_account_id_temp, amount_temp, currency_temp, scheduled_date_temp)
            },
            Err(e) => {
                &&& Some(e) == spec_add_scheduled_err(old(l)@, to_account_id_temp, amount_temp,
                    scheduled_date_temp)
                &&& final(l)@ == old(l)@
            },
        },
{
    if !validate_account_id(to_account_id_temp, l) {
        return Err(LedgerError::NotFound);
    }
    if amount_temp == 0 {
        return Err(LedgerError::InvalidAmount);
    }
    if !validate_date(scheduled_date_temp) {
        return Err(LedgerError::InvalidDate);
    }
    if l.next_id == u64::MAX {
        return Err(LedgerError::Overflow);
    }
    let record = ScheduledTransaction {
        id: l.next_id,
        from_account_id: from_account_id_temp,
        to_account_id: to_account_id_temp,
        amount: amount_temp,
        currency: currency_temp,
        scheduled_date: scheduled_date_temp,
        executed: false,
    };
    l.scheduled_transactions.push(record);
    l.next_id = l.next_id + 1;
    proof {
        assert(l@ =~= spec_add_scheduled(old(l)@, from_account_id_temp, to_account_id_temp,
            amount_temp, currency_temp, scheduled_date_temp));
        let m = old(l)@;
        let m2 = l@;
        assert forall|i: int| 0 <= i < m2.scheduled_transactions.len() implies (
        #[trigger] m2.scheduled_transactions[i]).id < m2.next_id && valid_date(
            m2.scheduled_transactions[i].scheduled_date) by {
            if i < m.scheduled_transactions.len() {
                assert(m.scheduled_transactions[i].id < m.next_id);
                assert(valid_date(m.scheduled_transactions[i].scheduled_date));
            }
        }
    }
    Ok(record)
}

/// Returns every scheduled transfer, in creation order.
pub fn get_scheduled_transactions(l: &Ledger) -> (r: Vec<ScheduledTransaction>)
    ensures
        r@ == l@.scheduled_transactions,
{
    let mut out: Vec<ScheduledTransaction> = Vec::new();
    let mut i: usize = 0;
    while i < l.scheduled_transactions.len()
        invariant
            i <= l@.scheduled_transactions.len(),
            out@ =~= l@.scheduled_transactions.subrange(0, i as int),
        decreases l@.scheduled_transactions.len() - i,
    {
        out.push(l.scheduled_transactions[i]);
        i += 1;
    }
    proof {
        assert(out@ =~= l@.scheduled_transactions);
    }
    out
}

/// The scheduled transfers whose source is the given account, in creation
/// order.
pub open spec fn spec_scheduled_for(m: LedgerModel, account_id: u64) -> Seq<ScheduledTransaction> {
    m.scheduled_transactions.filter(|s: ScheduledTransaction| s.from_account_id == account_id)
}

/// Returns the scheduled transfers whose source is the given account, in
/// creation order.
pub fn view_scheduled_transactions(l: &Ledger, account_id_to_view: u64) -> (r: Vec<
    ScheduledTransaction,
>)
    ensures
        r@ == spec_scheduled_for(l@, account_id_to_view),
{
    let ghost pred = (|s: ScheduledTransaction| s.from_account_id == account_id_to_view);
    let mut out: Vec<ScheduledTransaction> = Vec::new();
    let mut i: usize = 0;
    while i < l.scheduled_transactions.len()
        invariant
            i <= l@.scheduled_transactions.len(),
            pred == (|s: ScheduledTransaction| s.from_account_id == account_id_to_view),
            out@ == l@.scheduled_transactions.subrange(0, i as int).filter(pred),
        decreases l@.scheduled_transactions.len() - i,
    {
        let s = l.scheduled_transactions[i];
        proof {
            let pre0 = l@.scheduled_transactions.subrange(0, i as int);
            let pre1 = l@.scheduled_transactions.subrange(0, i + 1);
            assert(pre1.drop_last() =~= pre0);
            assert(pre1.last() == l@.scheduled_transactions[i as int]);
            reveal(Seq::filter);
            assert(pre1.filter(pred) == if pred(l@.scheduled_transactions[i as int]) {
                pre0.filter(pred).push(l@.scheduled_transactions[i as int])
            } else {
                pre0.filter(pred)
            });
        }
        if s.from_account_id == account_id_to_view {
            out.push(s);
        }
        i += 1;
    }
    proof {
        assert(l@.scheduled_transactions.subrange(0, l@.scheduled_transactions.len() as int)
            =~= l@.scheduled_transactions);
    }
    out
}

/// Decides whether a scheduled transfer with the given identifier exists.
pub fn validate_scheduled_transaction(l: &Ledger, transaction_id_to_validate: u64) -> (r: bool)
    ensures
        r == has_scheduled(l@.scheduled_transactions, transaction_id_to_validate),
{
    match find_scheduled(&l.scheduled_transactions, transaction_id_to_validate) {
        Some(i) => {
            proof {
                assert(has_scheduled(l@.scheduled_transactions, transaction_id_to_validate)) by {
                    assert(l@.scheduled_transactions[i as int].id == transaction_id_to_validate);
                }
            }
            true
        },
        None => false,
    }
}

/// The ledger after the scheduled transfer with the given identifier was
/// deleted. Meaningful when such a record exists.
pub open spec fn spec_delete_scheduled(m: LedgerModel, id: u64) -> LedgerModel {
    LedgerModel {
        scheduled_transactions: m.scheduled_transactions.remove(
            scheduled_idx(m.scheduled_transactions, id),
        ),
        ..m
    }
}

/// Deletes the scheduled transfer with the given identifier and returns
/// the number of records removed: one when it existed, zero when it did
/// not (in which case the ledger is unchanged).
pub fn delete_scheduled_transaction(l: &mut Ledger, transaction_id_to_delete: u64) -> (r: usize)
    requires
        old(l).wf(),
    ensures
        final(l).wf(),
        has_scheduled(old(l)@.scheduled_transactions, transaction_id_to_delete) ==> r == 1
            && final(l)@ == spec_delete_scheduled(old(l)@, transaction_id_to_delete),
        !has_scheduled(old(l)@.scheduled_transactions, transaction_id_to_delete) ==> r == 0
            && final(l)@ == old(l)@,
{
    let i = match find_scheduled(&l.scheduled_transactions, transaction_id_to_delete) {
        Some(i) => i,
        None => {
            return 0;
        },
    };
    proof {
        lemma_scheduled_idx_is(l@.scheduled_transactions, l@.next_id, i as int,
            transaction_id_to_delete);
    }
    l.scheduled_transactions.remove(i);
    proof {
        assert(l@ =~= spec_delete_scheduled(old(l)@, transaction_id_to_delete));
        let m = old(l)@;
        let m2 = l@;
        assert forall|k: int| 0 <= k < m2.scheduled_transactions.len() implies (
        #[trigger] m2.scheduled_transactions[k]).id < m2.next_id && valid_date(
            m2.scheduled_transactions[k].scheduled_date) by {
            let src = if k < i as int {
                k
            } else {
                k + 1
            };
            assert(m.scheduled_transactions[src].id < m.next_id);
            assert(valid_date(m.scheduled_transactions[src].scheduled_date));
        }
    }
    1
}

} // verus!
