//! The ledger store: the in-memory state every operation works on, its
//! mathematical model, and the well-formedness invariant that all
//! operations preserve.
//!
//! Persistence is an external collaborator; the library owns the state as a
//! plain value and the surrounding program decides how to load and store it.

use vstd::prelude::*;
use crate::currency::Currency;
use crate::dates::valid_date;
use crate::models::{Account, AccountV, PendingTransaction, ScheduledTransaction, SubAccount,
    Transaction};
use crate::validation::{str_eq, valid_account_name};

verus! {

/// All tables of the ledger. Identifiers are assigned from `next_id`, which
/// is strictly greater than every identifier already in use.
pub struct Ledger {
    pub accounts: Vec<Account>,
    pub sub_accounts: Vec<SubAccount>,
    pub transactions: Vec<Transaction>,
    pub pending_transactions: Vec<PendingTransaction>,
    pub scheduled_transactions: Vec<ScheduledTransaction>,
    pub next_id: u64,
}

/// The mathematical image of a [`Ledger`]: every table as a sequence.
#[verifier::ext_equal]
pub ghost struct LedgerModel {
    pub accounts: Seq<AccountV>,
    pub sub_accounts: Seq<SubAccount>,
    pub transactions: Seq<Transaction>,
    pub pending_transactions: Seq<PendingTransaction>,
    pub scheduled_transactions: Seq<ScheduledTransaction>,
    pub next_id: u64,
}

impl View for Ledger {
    type V = LedgerModel;

    open spec fn view(&self) -> LedgerModel {
        LedgerModel {
            accounts: self.accounts@.map_values(|a: Account| a@),
            sub_accounts: self.sub_accounts@,
            transactions: self.transactions@,
            pending_transactions: self.pending_transactions@,
            scheduled_transactions: self.scheduled_transactions@,
            next_id: self.next_id,
        }
    }
}

/// Whether a sub-account belongs to the given account and currency.
pub open spec fn sub_matches(s: SubAccount, account_id: u64, currency: Currency) -> bool {
    s.account_id == account_id && s.currency == currency
}

/// Whether some sub-account belongs to the given account and currency.
pub open spec fn has_sub(subs: Seq<SubAccount>, account_id: u64, currency: Currency) -> bool {
    exists|i: int| 0 <= i < subs.len() && sub_matches(#[trigger] subs[i], account_id, currency)
}

/// The index of the sub-account of the given account and currency;
/// meaningful when `has_sub` holds (under the invariant it is unique).
pub open spec fn sub_idx(subs: Seq<SubAccount>, account_id: u64, currency: Currency) -> int {
    choose|i: int| 0 <= i < subs.len() && sub_matches(#[trigger] subs[i], account_id, currency)
}

/// Whether some sub-account carries the given identifier.
pub open spec fn has_sub_id(subs: Seq<SubAccount>, id: u64) -> bool {
    exists|i: int| 0 <= i < subs.len() && (#[trigger] subs[i]).id == id
}

/// The index of the sub-account with the given identifier.
pub open spec fn sub_id_idx(subs: Seq<SubAccount>, id: u64) -> int {
    choose|i: int| 0 <= i < subs.len() && (#[trigger] subs[i]).id == id
}

/// Whether some account carries the given identifier.
pub open spec fn has_account_id(accounts: Seq<AccountV>, id: u64) -> bool {
    exists|i: int| 0 <= i < accounts.len() && (#[trigger] accounts[i]).id == id
}

/// Whether some account carries the given holder name.
pub open spec fn has_account_name(accounts: Seq<AccountV>, name: Seq<char>) -> bool {
    exists|i: int| 0 <= i < accounts.len() && (#[trigger] accounts[i]).account_holder_name == name
}

/// Whether some staged top-up carries the given identifier.
pub open spec fn has_pending(pending: Seq<PendingTransaction>, id: u64) -> bool {
    exists|i: int| 0 <= i < pending.len() && (#[trigger] pending[i]).id == id
}

/// The index of the staged top-up with the given identifier.
pub open spec fn pending_idx(pending: Seq<PendingTransaction>, id: u64) -> int {
    choose|i: int| 0 <= i < pending.len() && (#[trigger] pending[i]).id == id
}

/// Whether some scheduled transfer carries the given identifier.
pub open spec fn has_scheduled(scheduled: Seq<ScheduledTransaction>, id: u64) -> bool {
    exists|i: int| 0 <= i < scheduled.len() && (#[trigger] scheduled[i]).id == id
}

/// The index of the scheduled transfer with the given identifier.
pub open spec fn scheduled_idx(scheduled: Seq<ScheduledTransaction>, id: u64) -> int {
    choose|i: int| 0 <= i < scheduled.len() && (#[trigger] scheduled[i]).id == id
}

/// Account table well-formedness: identifiers and holder names are unique,
/// identifiers stay below `next_id`, and every name is acceptable.
pub open spec fn accounts_ok(accounts: Seq<AccountV>, next_id: u64) -> bool {
    &&& forall|i: int, j: int| #![trigger accounts[i], accounts[j]]
        0 <= i < accounts.len() && 0 <= j < accounts.len() && i != j ==> accounts[i].id
            != accounts[j].id && accounts[i].account_holder_name
            != accounts[j].account_holder_name
    &&& forall|i: int|
        0 <= i < accounts.len() ==> (#[trigger] accounts[i]).id < next_id && valid_account_name(
            accounts[i].account_holder_name,
        )
}

/// Sub-account table well-formedness: identifiers are unique and below
/// `next_id`, and at most one sub-account exists per (account, currency)
/// pair.
pub open spec fn subs_ok(subs: Seq<SubAccount>, next_id: u64) -> bool {
    &&& forall|i: int, j: int| #![trigger subs[i], subs[j]]
        0 <= i < subs.len() && 0 <= j < subs.len() && i != j ==> subs[i].id != subs[j].id && !(
        subs[i].account_id == subs[j].account_id && subs[i].currency == subs[j].currency)
    &&& forall|i: int| 0 <= i < subs.len() ==> (#[trigger] subs[i]).id < next_id
}

/// Transaction history well-formedness: identifiers are unique and below
/// `next_id`.
pub open spec fn transactions_ok(transactions: Seq<Transaction>, next_id: u64) -> bool {
    &&& forall|i: int, j: int| #![trigger transactions[i], transactions[j]]
        0 <= i < transactions.len() && 0 <= j < transactions.len() && i != j
            ==> transactions[i].transaction_id != transactions[j].transaction_id
    &&& forall|i: int|
        0 <= i < transactions.len() ==> (#[trigger] transactions[i]).transaction_id < next_id
}

/// Staged top-up table well-formedness: identifiers are unique and below
/// `next_id`.
pub open spec fn pending_ok(pending: Seq<PendingTransaction>, next_id: u64) -> bool {
    &&& forall|i: int, j: int| #![trigger pending[i], pending[j]]
        0 <= i < pending.len() && 0 <= j < pending.len() && i != j ==> pending[i].id
            != pending[j].id
    &&& forall|i: int| 0 <= i < pending.len() ==> (#[trigger] pending[i]).id < next_id
}

/// Scheduled-transfer table well-formedness: identifiers are unique and
/// below `next_id`, and every scheduled date is a valid calendar date.
pub open spec fn scheduled_ok(scheduled: Seq<ScheduledTransaction>, next_id: u64) -> bool {
    &&& forall|i: int, j: int| #![trigger scheduled[i], scheduled[j]]
        0 <= i < scheduled.len() && 0 <= j < scheduled.len() && i != j ==> scheduled[i].id
            != scheduled[j].id
    &&& forall|i: int|
        0 <= i < scheduled.len() ==> (#[trigger] scheduled[i]).id < next_id && valid_date(
            scheduled[i].scheduled_date,
        )
}

/// The ledger invariant. Every public operation requires it of the ledger
/// it receives and ensures it of the ledger it leaves behind.
pub open spec fn ledger_inv(m: LedgerModel) -> bool {
    &&& accounts_ok(m.accounts, m.next_id)
    &&& subs_ok(m.sub_accounts, m.next_id)
    &&& transactions_ok(m.transactions, m.next_id)
    &&& pending_ok(m.pending_transactions, m.next_id)
    &&& scheduled_ok(m.scheduled_transactions, m.next_id)
}

impl Ledger {
    /// The ledger invariant, phrased on the value itself.
    pub open spec fn wf(&self) -> bool {
        ledger_inv(self@)
    }

    /// A fresh ledger holding only the reserve account, which funds
    /// approved top-ups.
    pub fn new(now: u64) -> (l: Ledger)
        ensures
            l.wf(),
            l@.accounts =~= seq![
                AccountV {
                    id: crate::models::ADMIN_ACCOUNT_ID,
                    account_holder_name: "admin"@,
                    created_at: now,
                    active: true,
                },
            ],
            l@.sub_accounts =~= Seq::<SubAccount>::empty(),
            l@.transactions =~= Seq::<Transaction>::empty(),
            l@.pending_transactions =~= Seq::<PendingTransaction>::empty(),
            l@.scheduled_transactions =~= Seq::<ScheduledTransaction>::empty(),
            l@.next_id == 1,
    {
        let mut accounts: Vec<Account> = Vec::new();
        let admin = Account {
            id: crate::models::ADMIN_ACCOUNT_ID,
            account_holder_name: String::from_str("admin"),
            created_at: now,
            active: true,
        };
        accounts.push(admin);
        let l = Ledger {
            accounts,
            sub_accounts: Vec::new(),
            transactions: Vec::new(),
            pending_transactions: Vec::new(),
            scheduled_transactions: Vec::new(),
            next_id: 1,
        };
        proof {
            reveal_strlit("admin");
            assert(l@.accounts =~= seq![
                AccountV {
                    id: crate::models::ADMIN_ACCOUNT_ID,
                    account_holder_name: "admin"@,
                    created_at: now,
                    active: true,
                },
            ]);
            assert(valid_account_name("admin"@));
        }
        l
    }
}

/// Under the invariant a matching sub-account index is the unique one that
/// `sub_idx` denotes.
pub proof fn lemma_sub_idx_is(subs: Seq<SubAccount>, next_id: u64, i: int, account_id: u64,
    currency: Currency)
    requires
        subs_ok(subs, next_id),
        0 <= i < subs.len(),
        sub_matches(subs[i], account_id, currency),
    ensures
        has_sub(subs, account_id, currency),
        sub_idx(subs, account_id, currency) == i,
{
    assert(has_sub(subs, account_id, currency));
    let j = sub_idx(subs, account_id, currency);
    assert(0 <= j < subs.len() && sub_matches(subs[j], account_id, currency));
}

/// Under the invariant a sub-account index with a given identifier is the
/// unique one that `sub_id_idx` denotes.
pub proof fn lemma_sub_id_idx_is(subs: Seq<SubAccount>, next_id: u64, i: int, id: u64)
    requires
        subs_ok(subs, next_id),
        0 <= i < subs.len(),
        subs[i].id == id,
    ensures
        has_sub_id(subs, id),
        sub_id_idx(subs, id) == i,
{
    assert(has_sub_id(subs, id));
    let j = sub_id_idx(subs, id);
    assert(0 <= j < subs.len() && subs[j].id == id);
}

/// Under the invariant a staged top-up index with a given identifier is the
/// unique one that `pending_idx` denotes.
pub proof fn lemma_pending_idx_is(pending: Seq<PendingTransaction>, next_id: u64, i: int, id: u64)
    requires
        pending_ok(pending, next_id),
        0 <= i < pending.len(),
        pending[i].id == id,
    ensures
        has_pending(pending, id),
        pending_idx(pending, id) == i,
{
    assert(has_pending(pending, id));
    let j = pending_idx(pending, id);
    assert(0 <= j < pending.len() && pending[j].id == id);
}

/// Under the invariant a scheduled-transfer index with a given identifier
/// is the unique one that `scheduled_idx` denotes.
pub proof fn lemma_scheduled_idx_is(scheduled: Seq<ScheduledTransaction>, next_id: u64, i: int,
    id: u64)
    requires
        scheduled_ok(scheduled, next_id),
        0 <= i < scheduled.len(),
        scheduled[i].id == id,
    ensures
        has_scheduled(scheduled, id),
        scheduled_idx(scheduled, id) == i,
{
    assert(has_scheduled(scheduled, id));
    let j = scheduled_idx(scheduled, id);
    assert(0 <= j < scheduled.len() && scheduled[j].id == id);
}

/// Finds the sub-account of the given account and currency.
pub(crate) fn find_sub_account(subs: &Vec<SubAccount>, account_id: u64, currency: Currency) -> (r:
    Option<usize>)
    ensures
        match r {
            Some(i) => i < subs@.len() && sub_matches(subs@[i as int], account_id, currency),
            None => !has_sub(subs@, account_id, currency),
        },
{
    let mut i: usize = 0;
    while i < subs.len()
        invariant
            i <= subs@.len(),
            forall|j: int| 0 <= j < i ==> !sub_matches(#[trigger] subs@[j], account_id, currency),
        decreases subs@.len() - i,
    {
        if subs[i].account_id == account_id && subs[i].currency == currency {
            return Some(i);
        }
        i += 1;
    }
    None
}

/// Finds the sub-account with the given identifier.
pub(crate) fn find_sub_account_by_id(subs: &Vec<SubAccount>, id: u64) -> (r: Option<usize>)
    ensures
        match r {
            Some(i) => i < subs@.len() && subs@[i as int].id == id,
            None => !has_sub_id(subs@, id),
        },
{
    let mut i: usize = 0;
    while i < subs.len()
        invariant
            i <= subs@.len(),
            forall|j: int| 0 <= j < i ==> (#[trigger] subs@[j]).id != id,
        decreases subs@.len() - i,
    {
        if subs[i].id == id {
            return Some(i);
        }
        i += 1;
    }
    None
}

/// Finds the account with the given identifier.
pub(crate) fn find_account_by_id(accounts: &Vec<Account>, id: u64) -> (r: Option<usize>)
    ensures
        match r {
            Some(i) => i < accounts@.len() && accounts@[i as int]@.id == id,
            None => !has_account_id(accounts@.map_values(|a: Account| a@), id),
        },
{
    let ghost m = accounts@.map_values(|a: Account| a@);
    let mut i: usize = 0;
    while i < accounts.len()
        invariant
            i <= accounts@.len(),
            m == accounts@.map_values(|a: Account| a@),
            forall|j: int| 0 <= j < i ==> (#[trigger] m[j]).id != id,
        decreases accounts@.len() - i,
    {
        if accounts[i].id == id {
            return Some(i);
        }
        proof {
            assert(m[i as int].id != id);
        }
        i += 1;
    }
    None
}

/// Finds the account with the given holder name.
pub(crate) fn find_account_by_name(accounts: &Vec<Account>, name: &str) -> (r: Option<usize>)
    ensures
        match r {
            Some(i) => i < accounts@.len() && accounts@[i as int]@.account_holder_name == name@,
            None => !has_account_name(accounts@.map_values(|a: Account| a@), name@),
        },
{
    let ghost m = accounts@.map_values(|a: Account| a@);
    let mut i: usize = 0;
    while i < accounts.len()
        invariant
            i <= accounts@.len(),
            m == accounts@.map_values(|a: Account| a@),
            forall|j: int| 0 <= j < i ==> (#[trigger] m[j]).account_holder_name != name@,
        decreases accounts@.len() - i,
    {
        if str_eq(accounts[i].account_holder_name.as_str(), name) {
            return Some(i);
        }
        proof {
            assert(m[i as int].account_holder_name != name@);
        }
        i += 1;
    }
    None
}

/// Finds the staged top-up with the given identifier.
pub(crate) fn find_pending(pending: &Vec<PendingTransaction>, id: u64) -> (r: Option<usize>)
    ensures
        match r {
            Some(i) => i < pending@.len() && pending@[i as int].id == id,
            None => !has_pending(pending@, id),
        },
{
    let mut i: usize = 0;
    while i < pending.len()
        invariant
            i <= pending@.len(),
            forall|j: int| 0 <= j < i ==> (#[trigger] pending@[j]).id != id,
        decreases pending@.len() - i,
    {
        if pending[i].id == id {
            return Some(i);
        }
        i += 1;
    }
    None
}

/// Finds the scheduled transfer with the given identifier.
pub(crate) fn find_scheduled(scheduled: &Vec<ScheduledTransaction>, id: u64) -> (r: Option<usize>)
    ensures
        match r {
            Some(i) => i < scheduled@.len() && scheduled@[i as int].id == id,
            None => !has_scheduled(scheduled@, id),
        },
{
    let mut i: usize = 0;
    while i < scheduled.len()
        invariant
            i <= scheduled@.len(),
            forall|j: int| 0 <= j < i ==> (#[trigger] scheduled@[j]).id != id,
        decreases scheduled@.len() - i,
    {
        if scheduled[i].id == id {
            return Some(i);
        }
        i += 1;
    }
    None
}

} // verus!
