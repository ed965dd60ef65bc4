//! The scheduled-transfer batch: one invocation executes every transfer
//! due today through the transfer engine, advances successful ones by a
//! calendar month (day clamped to the target month), and reports every
//! attempt so the caller can forward the outcomes to the alerting
//! collaborator.
//!
//! A failed transfer leaves its scheduled date untouched, so the same
//! occurrence stays due and is retried on the next run; one failure never
//! aborts the rest of the batch.

use vstd::prelude::*;
use crate::currency::Currency;
use crate::dates::{can_advance, next_month_date, spec_next_month, valid_date, Date, MAX_YEAR};
use crate::ledger::{ledger_inv, Ledger, LedgerModel};
use crate::models::{LedgerError, ScheduledTransaction};
use crate::moneytransfer::{spec_transfer, spec_transfer_err, transfer_money};

verus! {

/// The report of one attempted due transfer, for the alerting
/// collaborator.
#[derive(Clone, Copy, Debug)]
pub struct SchedulerOutcome {
    pub scheduled_id: u64,
    pub from_account_id: u64,
    pub to_account_id: u64,
    pub amount: u64,
    pub currency: Currency,
    pub succeeded: bool,
    pub error: Option<LedgerError>,
}

/// Whether a scheduled transfer is due today: exact date equality, at day
/// precision.
pub open spec fn spec_due(s: ScheduledTransaction, today: Date) -> bool {
    !s.executed && s.scheduled_date == today
}

/// Why the due entry at index `i` would fail, or `None` when its transfer
/// succeeds. An entry whose date cannot be advanced any further is not
/// executed at all (executing it without advancing would repeat it on
/// every run).
pub open spec fn spec_sched_entry_err(m: LedgerModel, i: int, today: Date) -> Option<LedgerError> {
    let s = m.scheduled_transactions[i];
    if !can_advance(s.scheduled_date) {
        Some(LedgerError::InvalidDate)
    } else {
        spec_transfer_err(m, s.from_account_id, s.to_account_id, s.amount, s.currency)
    }
}

/// The ledger after the batch has considered the entry at index `i`: a
/// non-due entry changes nothing; a due entry whose transfer fails changes
/// nothing (it stays due and will be retried); a due entry whose transfer
/// succeeds is applied through the transfer engine and its date advances
/// one month.
pub open spec fn spec_sched_step(m: LedgerModel, i: int, today: Date, now: u64) -> LedgerModel {
    let s = m.scheduled_transactions[i];
    if !spec_due(s, today) {
        m
    } else if spec_sched_entry_err(m, i, today) is Some {
        m
    } else {
        let m2 = spec_transfer(m, s.from_account_id, s.to_account_id, s.amount, s.currency, now);
        let advanced = ScheduledTransaction {
            scheduled_date: spec_next_month(s.scheduled_date),
            ..s
        };
        LedgerModel {
            scheduled_transactions: m2.scheduled_transactions.update(i, advanced),
            ..m2
        }
    }
}

/// The ledger after the batch has considered the first `n` entries, in
/// order.
pub open spec fn spec_sched_run(m: LedgerModel, today: Date, now: u64, n: int) -> LedgerModel
    decreases n,
{
    if n <= 0 {
        m
    } else {
        spec_sched_step(spec_sched_run(m, today, now, n - 1), n - 1, today, now)
    }
}

/// The outcome reported for the due entry at index `i`, judged on the
/// ledger as it stands when the entry is reached.
pub open spec fn spec_sched_outcome(m: LedgerModel, i: int, today: Date) -> SchedulerOutcome {
    let s = m.scheduled_transactions[i];
    let err = spec_sched_entry_err(m, i, today);
    SchedulerOutcome {
        scheduled_id: s.id,
        from_account_id: s.from_account_id,
        to_account_id: s.to_account_id,
        amount: s.amount,
        currency: s.currency,
        succeeded: err is None,
        error: err,
    }
}

/// The outcomes reported for the first `n` entries: one per due entry, in
/// order; entries that are not due report nothing.
pub open spec fn spec_sched_outcomes(m: LedgerModel, today: Date, now: u64, n: int) -> Seq<
    SchedulerOutcome,
>
    decreases n,
{
    if n <= 0 {
        Seq::empty()
    } else {
        let prev = spec_sched_outcomes(m, today, now, n - 1);
        let mprev = spec_sched_run(m, today, now, n - 1);
        if spec_due(mprev.scheduled_transactions[n - 1], today) {
            prev.push(spec_sched_outcome(mprev, n - 1, today))
        } else {
            prev
        }
    }
}

/// Runs the batch once for `today`: attempts every due scheduled transfer
/// through the transfer engine, advances the date of each success by one
/// calendar month (clamped to the target month's length), leaves each
/// failure due for retry, and returns one outcome per due entry for the
/// alerting collaborator. One failure never aborts the remaining batch.
pub fn process_scheduled_transactions(l: &mut Ledger, today: Date, now: u64) -> (outcomes: Vec<
    SchedulerOutcome,
>)
    requires
        old(l).wf(),
    ensures
        final(l).wf(),
        final(l)@ == spec_sched_run(old(l)@, today, now,
            old(l)@.scheduled_transactions.len() as int),
        outcomes@ == spec_sched_outcomes(old(l)@, today, now,
            old(l)@.scheduled_transactions.len() as int),
{
    let ghost m0 = l@;
    let mut outcomes: Vec<SchedulerOutcome> = Vec::new();
    let n = l.scheduled_transactions.len();
    let mut i: usize = 0;
    while i < n
        invariant
            i <= n,
            n == m0.scheduled_transactions.len(),
            ledger_inv(l@),
            l@.scheduled_transactions.len() == n,
            l@ == spec_sched_run(m0, today, now, i as int),
            outcomes@ == spec_sched_outcomes(m0, today, now, i as int),
        decreases n - i,
    {
        let ghost mpre = l@;
        let s = l.scheduled_transactions[i];
        let due = !s.executed && s.scheduled_date == today;
        if due {
            if s.scheduled_date.year == MAX_YEAR && s.scheduled_date.month == 12 {
                outcomes.push(SchedulerOutcome {
                    scheduled_id: s.id,
                    from_account_id: s.from_account_id,
                    to_account_id: s.to_account_id,
                    amount: s.amount,
                    currency: s.currency,
                    succeeded: false,
                    error: Some(LedgerError::InvalidDate),
                });
                proof {
                    assert(!can_advance(s.scheduled_date));
                    assert(l@ == spec_sched_step(mpre, i as int, today, now));
                    assert(outcomes@ == spec_sched_outcomes(m0, today, now, i + 1));
                }
            } else {
                match transfer_money(l, s.from_account_id, s.to_account_id, s.amount, s.currency,
                    now) {
                    Ok(_) => {
                        proof {
                            assert(valid_date(s.scheduled_date));
                        }
                        let nd = next_month_date(s.scheduled_date);
                        let advanced = ScheduledTransaction { scheduled_date: nd, ..s };
                        l.scheduled_transactions[i] = advanced;
                        outcomes.push(SchedulerOutcome {
                            scheduled_id: s.id,
                            from_account_id: s.from_account_id,
                            to_account_id: s.to_account_id,
                            amount: s.amount,
                            currency: s.currency,
                            succeeded: true,
                            error: None,
                        });
                        proof {
                            assert(l@ =~= spec_sched_step(mpre, i as int, today, now));
                            let m2 = l@;
                            assert forall|k: int| 0 <= k < m2.scheduled_transactions.len() implies
                                (#[trigger] m2.scheduled_transactions[k]).id
                                == mpre.scheduled_transactions[k].id && valid_date(
                                m2.scheduled_transactions[k].scheduled_date) by {
                                assert(valid_date(mpre.scheduled_transactions[k].scheduled_date));
                            }
                            assert forall|k: int| 0 <= k < m2.scheduled_transactions.len() implies
                                (#[trigger] m2.scheduled_transactions[k]).id < m2.next_id by {
                                assert(mpre.scheduled_transactions[k].id < mpre.next_id);
                            }
                            assert(outcomes@ == spec_sched_outcomes(m0, today, now, i + 1));
                        }
                    },
                    Err(e) => {
                        outcomes.push(SchedulerOutcome {
                            scheduled_id: s.id,
                            from_account_id: s.from_account_id,
                            to_account_id: s.to_account_id,
                            amount: s.amount,
                            currency: s.currency,
                            succeeded: false,
                            error: Some(e),
                        });
                        proof {
                            assert(l@ == spec_sched_step(mpre, i as int, today, now));
                            assert(outcomes@ == spec_sched_outcomes(m0, today, now, i + 1));
                        }
                    },
                }
            }
        } else {
            proof {
                assert(!spec_due(mpre.scheduled_transactions[i as int], today));
                assert(l@ == spec_sched_step(mpre, i as int, today, now));
                assert(outcomes@ == spec_sched_outcomes(m0, today, now, i + 1));
            }
        }
        i += 1;
    }
    outcomes
}

} // verus!
