use rust_eze::currency::Currency;
use rust_eze::database::{check_duplicate_account, check_duplicate_sub_account, create_account,
    create_sub_account, get_accounts, validate_account_id};
use rust_eze::ledger::Ledger;
use rust_eze::models::{LedgerError, ADMIN_ACCOUNT_ID};
use rust_eze::moneytransfer::{add_money_to_sub_account, approve_pending_transaction, get_balance,
    get_pending_transactions, get_transactions, transfer_between_sub_accounts, transfer_money,
    update_balance};

fn two_usd_accounts() -> (Ledger, u64, u64) {
    let mut l = Ledger::new(0);
    let a = create_account(&mut l, "Alice", 1).unwrap();
    let b = create_account(&mut l, "Bob", 1).unwrap();
    create_sub_account(&mut l, a.id, Currency::Usd, 1000, 2).unwrap();
    create_sub_account(&mut l, b.id, Currency::Usd, 0, 2).unwrap();
    (l, a.id, b.id)
}

#[test]
fn transfer_success_scenario() {
    let mut l = Ledger::new(0);
    let a = create_account(&mut l, "Alice", 1).unwrap();
    let b = create_account(&mut l, "Bob", 1).unwrap();
    let sa = create_sub_account(&mut l, a.id, Currency::Usd, 1000, 2).unwrap();
    let sb = create_sub_account(&mut l, b.id, Currency::Usd, 0, 2).unwrap();
    let txn = transfer_money(&mut l, a.id, b.id, 100, Currency::Usd, 5).unwrap();
    let a_after = get_balance(&l, a.id, Currency::Usd).unwrap();
    let b_after = get_balance(&l, b.id, Currency::Usd).unwrap();
    assert_eq!(a_after, 900);
    assert_eq!(b_after, 100);
    // conservation: the two balances sum to what they summed to before
    assert_eq!(a_after + b_after, 1000);
    // the record links the two sub-account ids, the amount and the currency
    assert_eq!(txn.sub_account_id_from, sa.id);
    assert_eq!(txn.sub_account_id_to, sb.id);
    assert_eq!(txn.amount, 100);
    assert_eq!(txn.transfer_currency, Currency::Usd);
    let of_a = get_transactions(&l, a.id);
    assert_eq!(of_a.len(), 1);
    assert_eq!(of_a[0].transaction_id, txn.transaction_id);
}

#[test]
fn transfer_insufficient_funds_scenario() {
    let (mut l, a, b) = two_usd_accounts();
    let r = transfer_money(&mut l, a, b, 2000, Currency::Usd, 5);
    assert_eq!(r.unwrap_err(), LedgerError::InsufficientFunds);
    assert_eq!(get_balance(&l, a, Currency::Usd).unwrap(), 1000);
    assert_eq!(get_balance(&l, b, Currency::Usd).unwrap(), 0);
    assert!(get_transactions(&l, a).is_empty());
    assert!(get_transactions(&l, b).is_empty());
}

#[test]
fn transfer_zero_amount_rejected() {
    let (mut l, a, b) = two_usd_accounts();
    let r = transfer_money(&mut l, a, b, 0, Currency::Usd, 5);
    assert_eq!(r.unwrap_err(), LedgerError::InvalidAmount);
    assert_eq!(get_balance(&l, a, Currency::Usd).unwrap(), 1000);
}

#[test]
fn transfer_currency_isolation() {
    let mut l = Ledger::new(0);
    let a = create_account(&mut l, "Alice", 1).unwrap();
    let b = create_account(&mut l, "Bob", 1).unwrap();
    create_sub_account(&mut l, a.id, Currency::Usd, 1000, 2).unwrap();
    create_sub_account(&mut l, b.id, Currency::Eur, 500, 2).unwrap();
    // B has no USD sub-account: the transfer must fail, never convert
    let r = transfer_money(&mut l, a.id, b.id, 100, Currency::Usd, 5);
    assert_eq!(r.unwrap_err(), LedgerError::NoMatchingSubAccount);
    assert_eq!(get_balance(&l, a.id, Currency::Usd).unwrap(), 1000);
    assert_eq!(get_balance(&l, b.id, Currency::Eur).unwrap(), 500);
    assert!(get_transactions(&l, a.id).is_empty());
}

#[test]
fn transfer_credit_overflow_rejected() {
    let mut l = Ledger::new(0);
    let a = create_account(&mut l, "Alice", 1).unwrap();
    let b = create_account(&mut l, "Bob", 1).unwrap();
    create_sub_account(&mut l, a.id, Currency::Usd, 10, 2).unwrap();
    create_sub_account(&mut l, b.id, Currency::Usd, u64::MAX, 2).unwrap();
    let r = transfer_money(&mut l, a.id, b.id, 5, Currency::Usd, 5);
    assert_eq!(r.unwrap_err(), LedgerError::Overflow);
    assert_eq!(get_balance(&l, a.id, Currency::Usd).unwrap(), 10);
    assert_eq!(get_balance(&l, b.id, Currency::Usd).unwrap(), u64::MAX);
}

#[test]
fn transfer_to_self_conserves() {
    let (mut l, a, _b) = two_usd_accounts();
    let txn = transfer_money(&mut l, a, a, 100, Currency::Usd, 5).unwrap();
    assert_eq!(get_balance(&l, a, Currency::Usd).unwrap(), 1000);
    assert_eq!(txn.sub_account_id_from, txn.sub_account_id_to);
}

#[test]
fn duplicate_sub_account_rejected() {
    let mut l = Ledger::new(0);
    let a = create_account(&mut l, "Alice", 1).unwrap();
    create_sub_account(&mut l, a.id, Currency::Usd, 750, 2).unwrap();
    let r = create_sub_account(&mut l, a.id, Currency::Usd, 42, 3);
    assert_eq!(r.unwrap_err(), LedgerError::DuplicateSubAccount);
    // the existing sub-account's balance is unchanged
    assert_eq!(get_balance(&l, a.id, Currency::Usd).unwrap(), 750);
    // a different currency for the same account is fine
    assert!(create_sub_account(&mut l, a.id, Currency::Eur, 0, 3).is_ok());
    assert!(check_duplicate_sub_account(&l, a.id, Currency::Eur));
    assert!(!check_duplicate_sub_account(&l, a.id, Currency::Jpy));
}

#[test]
fn duplicate_account_name_rejected() {
    let mut l = Ledger::new(0);
    create_account(&mut l, "Alice", 1).unwrap();
    let r = create_account(&mut l, "Alice", 2);
    assert_eq!(r.unwrap_err(), LedgerError::DuplicateAccount);
    // the reserve account already holds the name "admin"
    let r2 = create_account(&mut l, "admin", 2);
    assert_eq!(r2.unwrap_err(), LedgerError::DuplicateAccount);
    assert!(check_duplicate_account(&l, "Alice"));
    assert!(!check_duplicate_account(&l, "Carol"));
}

#[test]
fn invalid_account_name_rejected() {
    let mut l = Ledger::new(0);
    let r = create_account(&mut l, "Alice9", 1);
    assert_eq!(r.unwrap_err(), LedgerError::InvalidName);
    assert!(get_accounts(&l).len() == 1);
}

#[test]
fn accounts_listing_and_lookup() {
    let mut l = Ledger::new(0);
    let a = create_account(&mut l, "Alice", 1).unwrap();
    let accounts = get_accounts(&l);
    assert_eq!(accounts.len(), 2);
    assert_eq!(accounts[0].id, ADMIN_ACCOUNT_ID);
    assert_eq!(accounts[0].account_holder_name, "admin");
    assert_eq!(accounts[1].id, a.id);
    assert_eq!(accounts[1].account_holder_name, "Alice");
    assert!(accounts[1].active);
    assert!(validate_account_id(a.id, &l));
    assert!(!validate_account_id(4242, &l));
}

#[test]
fn balance_of_missing_sub_account() {
    let l = Ledger::new(0);
    let r = get_balance(&l, 77, Currency::Usd);
    assert_eq!(r.unwrap_err(), LedgerError::NotFound);
}

#[test]
fn conversion_success() {
    let mut l = Ledger::new(0);
    let a = create_account(&mut l, "Alice", 1).unwrap();
    create_sub_account(&mut l, a.id, Currency::Usd, 1000, 2).unwrap();
    create_sub_account(&mut l, a.id, Currency::Eur, 7, 2).unwrap();
    let txn = transfer_between_sub_accounts(&mut l, a.id, Currency::Usd, Currency::Eur, 100,
        Some(92), 5).unwrap();
    assert_eq!(get_balance(&l, a.id, Currency::Usd).unwrap(), 900);
    assert_eq!(get_balance(&l, a.id, Currency::Eur).unwrap(), 99);
    // the record reflects the source leg
    assert_eq!(txn.amount, 100);
    assert_eq!(txn.transfer_currency, Currency::Usd);
}

#[test]
fn conversion_rate_unavailable() {
    let mut l = Ledger::new(0);
    let a = create_account(&mut l, "Alice", 1).unwrap();
    create_sub_account(&mut l, a.id, Currency::Usd, 1000, 2).unwrap();
    create_sub_account(&mut l, a.id, Currency::Eur, 0, 2).unwrap();
    let r = transfer_between_sub_accounts(&mut l, a.id, Currency::Usd, Currency::Eur, 100, None, 5);
    assert_eq!(r.unwrap_err(), LedgerError::RateUnavailable);
    assert_eq!(get_balance(&l, a.id, Currency::Usd).unwrap(), 1000);
    assert_eq!(get_balance(&l, a.id, Currency::Eur).unwrap(), 0);
    assert!(get_transactions(&l, a.id).is_empty());
}

#[test]
fn conversion_same_currency_rejected() {
    let mut l = Ledger::new(0);
    let a = create_account(&mut l, "Alice", 1).unwrap();
    create_sub_account(&mut l, a.id, Currency::Usd, 1000, 2).unwrap();
    let r = transfer_between_sub_accounts(&mut l, a.id, Currency::Usd, Currency::Usd, 100,
        Some(100), 5);
    assert_eq!(r.unwrap_err(), LedgerError::CurrencyMismatch);
    assert_eq!(get_balance(&l, a.id, Currency::Usd).unwrap(), 1000);
}

#[test]
fn conversion_insufficient_before_rate() {
    let mut l = Ledger::new(0);
    let a = create_account(&mut l, "Alice", 1).unwrap();
    create_sub_account(&mut l, a.id, Currency::Usd, 50, 2).unwrap();
    create_sub_account(&mut l, a.id, Currency::Eur, 0, 2).unwrap();
    // the balance check comes before the quote is consulted
    let r = transfer_between_sub_accounts(&mut l, a.id, Currency::Usd, Currency::Eur, 100, None, 5);
    assert_eq!(r.unwrap_err(), LedgerError::InsufficientFunds);
}

#[test]
fn staged_top_up_and_approval() {
    let mut l = Ledger::new(0);
    create_sub_account(&mut l, ADMIN_ACCOUNT_ID, Currency::Usd, 10_000, 1).unwrap();
    let a = create_account(&mut l, "Alice", 1).unwrap();
    create_sub_account(&mut l, a.id, Currency::Usd, 0, 2).unwrap();
    let p = add_money_to_sub_account(&mut l, a.id, 500, Currency::Usd, 3).unwrap();
    // staging moves no balance yet
    assert_eq!(get_balance(&l, a.id, Currency::Usd).unwrap(), 0);
    assert_eq!(get_pending_transactions(&l).len(), 1);
    approve_pending_transaction(&mut l, p.id, 4).unwrap();
    assert_eq!(get_balance(&l, a.id, Currency::Usd).unwrap(), 500);
    assert_eq!(get_balance(&l, ADMIN_ACCOUNT_ID, Currency::Usd).unwrap(), 9_500);
    assert!(get_pending_transactions(&l).is_empty());
    // approving the consumed id again reports NotFound and changes nothing
    let again = approve_pending_transaction(&mut l, p.id, 5);
    assert_eq!(again.unwrap_err(), LedgerError::NotFound);
    assert_eq!(get_balance(&l, a.id, Currency::Usd).unwrap(), 500);
    assert_eq!(get_balance(&l, ADMIN_ACCOUNT_ID, Currency::Usd).unwrap(), 9_500);
}

#[test]
fn approval_of_missing_id_changes_nothing() {
    let mut l = Ledger::new(0);
    create_sub_account(&mut l, ADMIN_ACCOUNT_ID, Currency::Usd, 10_000, 1).unwrap();
    let r = approve_pending_transaction(&mut l, 999, 4);
    assert_eq!(r.unwrap_err(), LedgerError::NotFound);
    assert_eq!(get_balance(&l, ADMIN_ACCOUNT_ID, Currency::Usd).unwrap(), 10_000);
}

#[test]
fn approval_is_retryable_after_reserve_shortfall() {
    let mut l = Ledger::new(0);
    let reserve_sub_id =
        create_sub_account(&mut l, ADMIN_ACCOUNT_ID, Currency::Usd, 100, 1).unwrap().id;
    let a = create_account(&mut l, "Alice", 1).unwrap();
    create_sub_account(&mut l, a.id, Currency::Usd, 0, 2).unwrap();
    let p = add_money_to_sub_account(&mut l, a.id, 500, Currency::Usd, 3).unwrap();
    let r = approve_pending_transaction(&mut l, p.id, 4);
    assert_eq!(r.unwrap_err(), LedgerError::InsufficientFunds);
    // the request stays staged
    let staged = get_pending_transactions(&l);
    assert_eq!(staged.len(), 1);
    assert_eq!(staged[0].id, p.id);
    // once the reserve is funded, the same approval goes through
    update_balance(&mut l, reserve_sub_id, 1_000).unwrap();
    approve_pending_transaction(&mut l, p.id, 5).unwrap();
    assert_eq!(get_balance(&l, a.id, Currency::Usd).unwrap(), 500);
    assert!(get_pending_transactions(&l).is_empty());
}

#[test]
fn staged_top_up_zero_amount_rejected() {
    let mut l = Ledger::new(0);
    let r = add_money_to_sub_account(&mut l, 5, 0, Currency::Usd, 3);
    assert_eq!(r.unwrap_err(), LedgerError::InvalidAmount);
    assert!(get_pending_transactions(&l).is_empty());
}

#[test]
fn update_balance_primitives() {
    let mut l = Ledger::new(0);
    let a = create_account(&mut l, "Alice", 1).unwrap();
    let s = create_sub_account(&mut l, a.id, Currency::Usd, 100, 2).unwrap();
    let after = update_balance(&mut l, s.id, 50).unwrap();
    assert_eq!(after.balance, 150);
    let after2 = update_balance(&mut l, s.id, -150).unwrap();
    assert_eq!(after2.balance, 0);
    // a debit below zero is refused
    let r = update_balance(&mut l, s.id, -1);
    assert_eq!(r.unwrap_err(), LedgerError::InsufficientFunds);
    assert_eq!(get_balance(&l, a.id, Currency::Usd).unwrap(), 0);
    // an unknown sub-account id is refused
    let r2 = update_balance(&mut l, 999, 10);
    assert_eq!(r2.unwrap_err(), LedgerError::NotFound);
}

#[test]
fn transactions_filtered_by_account() {
    let mut l = Ledger::new(0);
    let a = create_account(&mut l, "Alice", 1).unwrap();
    let b = create_account(&mut l, "Bob", 1).unwrap();
    let c = create_account(&mut l, "Carol", 1).unwrap();
    create_sub_account(&mut l, a.id, Currency::Usd, 1000, 2).unwrap();
    create_sub_account(&mut l, b.id, Currency::Usd, 1000, 2).unwrap();
    create_sub_account(&mut l, c.id, Currency::Usd, 1000, 2).unwrap();
    transfer_money(&mut l, a.id, b.id, 10, Currency::Usd, 5).unwrap();
    transfer_money(&mut l, b.id, c.id, 20, Currency::Usd, 6).unwrap();
    transfer_money(&mut l, c.id, a.id, 30, Currency::Usd, 7).unwrap();
    assert_eq!(get_transactions(&l, a.id).len(), 2);
    assert_eq!(get_transactions(&l, b.id).len(), 2);
    assert_eq!(get_transactions(&l, c.id).len(), 2);
    // history order is kept
    let of_a = get_transactions(&l, a.id);
    assert_eq!(of_a[0].amount, 10);
    assert_eq!(of_a[1].amount, 30);
    assert!(get_transactions(&l, 999).is_empty());
}
