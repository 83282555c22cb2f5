//! Laws of the rule engine, proved once over `spec_apply` and therefore
//! holding for every run of `handle_transaction`.

use vstd::prelude::*;

use crate::account::{mutated, mutation_fits, wf_accounts};
use crate::decimal::{grid_aligned, lemma_aligned_neg, lemma_trunc4_aligned_sum};
use crate::models::{Account, Outcome, Transaction, TransactionRecord, TransactionType};
use crate::transaction::{apply_fits, spec_apply};

verus! {

/// The account balance invariant: the total is exactly the available funds
/// plus the held funds.
pub open spec fn balanced(a: Account) -> bool {
    a.total@ == a.available@ + a.held@
}

/// All three balances sit on the `10^-4` grid.
pub open spec fn account_aligned(a: Account) -> bool {
    grid_aligned(a.available@) && grid_aligned(a.held@) && grid_aligned(a.total@)
}

/// The ledger invariant: every account balances and is grid-aligned, and
/// every recorded amount is grid-aligned.
pub open spec fn ledger_invariant(acc: Map<u16, Account>, rec: Map<u32, TransactionRecord>) -> bool {
    &&& forall|c: u16|
        #[trigger] acc.contains_key(c) ==> balanced(acc[c]) && account_aligned(acc[c])
    &&& forall|tx: u32| #[trigger] rec.contains_key(tx) ==> grid_aligned(rec[tx].amount@)
}

/// The event's amount, if it carries one, sits on the `10^-4` grid.
pub open spec fn event_aligned(t: Transaction) -> bool {
    match t.amount {
        Option::Some(a) => grid_aligned(a@),
        Option::None => true,
    }
}

/// A mutation by balanced, aligned deltas keeps an account balanced and
/// aligned: truncation is exact on grid-aligned sums.
proof fn lemma_mutated_keeps(a: Account, da: int, dh: int, dt: int)
    requires
        balanced(a),
        account_aligned(a),
        grid_aligned(da),
        grid_aligned(dh),
        grid_aligned(dt),
        da + dh == dt,
        mutation_fits(a, da, dh, dt),
    ensures
        balanced(mutated(a, da, dh, dt)),
        account_aligned(mutated(a, da, dh, dt)),
{
    lemma_trunc4_aligned_sum(a.available@, da);
    lemma_trunc4_aligned_sum(a.held@, dh);
    lemma_trunc4_aligned_sum(a.total@, dt);
}

/// The account balance invariant is preserved by every event whose amount is
/// grid-aligned, given that all recorded amounts are: `total == available +
/// held` holds at every observation point of such a run.
pub proof fn lemma_balance_invariant(
    acc: Map<u16, Account>,
    rec: Map<u32, TransactionRecord>,
    t: Transaction,
)
    requires
        ledger_invariant(acc, rec),
        event_aligned(t),
        apply_fits(acc, rec, t),
    ensures
        ledger_invariant(spec_apply(acc, rec, t).0, spec_apply(acc, rec, t).1),
{
    let c = t.client;
    let a0 = crate::transaction::lookup_account(acc, c);
    let r0 = crate::transaction::lookup_record(rec, t.tx);
    let base = crate::transaction::or_zeroed(a0, c);
    assert(balanced(base) && account_aligned(base));
    if !crate::transaction::locked_precheck_hit(a0, t.tx_type) {
        match t.tx_type {
            TransactionType::Deposit => {
                if !crate::transaction::amount_invalid(t) && r0 is None {
                    let amt = t.amount->0@;
                    lemma_mutated_keeps(base, amt, 0, amt);
                }
            },
            TransactionType::Withdrawal => {
                if !crate::transaction::amount_invalid(t) && base.available@ >= t.amount->0@
                    && r0 is None {
                    let amt = t.amount->0@;
                    lemma_aligned_neg(amt);
                    lemma_mutated_keeps(base, -amt, 0, -amt);
                }
            },
            TransactionType::Dispute => {
                if let Option::Some(r) = r0 {
                    if r.client == c && !r.disputed && r.amount@ > 0 {
                        lemma_aligned_neg(r.amount@);
                        lemma_mutated_keeps(base, -r.amount@, r.amount@, 0);
                    }
                }
            },
            TransactionType::Resolve => {
                if let Option::Some(r) = r0 {
                    if r.client == c && r.disputed && r.amount@ > 0 {
                        lemma_aligned_neg(r.amount@);
                        lemma_mutated_keeps(base, r.amount@, -r.amount@, 0);
                    }
                }
            },
            TransactionType::Chargeback => {
                if let Option::Some(r) = r0 {
                    if r.client == c && r.disputed && r.amount@ > 0 {
                        lemma_aligned_neg(r.amount@);
                        lemma_mutated_keeps(
                            Account { locked: true, ..base },
                            0,
                            -r.amount@,
                            -r.amount@,
                        );
                    }
                }
            },
        }
    }
}

/// Re-playing a deposit or withdrawal under an already-used transaction id
/// never changes any account's balances and never touches the records: at
/// most a zeroed account for the event's client appears.
pub proof fn lemma_duplicate_is_noop(
    acc: Map<u16, Account>,
    rec: Map<u32, TransactionRecord>,
    t: Transaction,
)
    requires
        t.tx_type is Deposit || t.tx_type is Withdrawal,
        rec.contains_key(t.tx),
    ensures
        spec_apply(acc, rec, t).1 == rec,
        spec_apply(acc, rec, t).2 != Outcome::Applied,
        forall|c: u16|
            #[trigger] acc.contains_key(c) ==> spec_apply(acc, rec, t).0.contains_key(c)
                && spec_apply(acc, rec, t).0[c] == acc[c],
        forall|c: u16|
            #[trigger] spec_apply(acc, rec, t).0.contains_key(c) ==> acc.contains_key(c) || (c
                == t.client && spec_apply(acc, rec, t).0[c] == Account::zeroed(c)),
{
}

/// Events of different clients bearing different transaction ids commute:
/// interleaving other clients' events does not change what a client's own
/// ordered events produce, nor their outcomes.
pub proof fn lemma_independent_events_commute(
    acc: Map<u16, Account>,
    rec: Map<u32, TransactionRecord>,
    t1: Transaction,
    t2: Transaction,
)
    requires
        t1.client != t2.client,
        t1.tx != t2.tx,
    ensures
        ({
            let s1 = spec_apply(acc, rec, t1);
            let s12 = spec_apply(s1.0, s1.1, t2);
            let s2 = spec_apply(acc, rec, t2);
            let s21 = spec_apply(s2.0, s2.1, t1);
            s12.0 == s21.0 && s12.1 == s21.1 && s12.2 == s2.2 && s21.2 == s1.2
        }),
{
    let s1 = spec_apply(acc, rec, t1);
    let s12 = spec_apply(s1.0, s1.1, t2);
    let s2 = spec_apply(acc, rec, t2);
    let s21 = spec_apply(s2.0, s2.1, t1);
    // each event's lookups are unaffected by the other's write-back
    assert(crate::transaction::lookup_account(s1.0, t2.client) == crate::transaction::lookup_account(
        acc,
        t2.client,
    ));
    assert(crate::transaction::lookup_record(s1.1, t2.tx) == crate::transaction::lookup_record(
        rec,
        t2.tx,
    ));
    assert(crate::transaction::lookup_account(s2.0, t1.client) == crate::transaction::lookup_account(
        acc,
        t1.client,
    ));
    assert(crate::transaction::lookup_record(s2.1, t1.tx) == crate::transaction::lookup_record(
        rec,
        t1.tx,
    ));
    // writes to distinct keys commute
    assert(s12.0 =~= s21.0);
    assert(s12.1 =~= s21.1);
}

/// A dispute-lifecycle event is never dropped because the account is locked:
/// disputes, resolves and chargebacks stay possible after a chargeback, so
/// transactions that predate the lock can still be reconciled.
pub proof fn lemma_lifecycle_not_blocked_by_lock(
    acc: Map<u16, Account>,
    rec: Map<u32, TransactionRecord>,
    t: Transaction,
)
    requires
        crate::transaction::is_lifecycle(t.tx_type),
    ensures
        spec_apply(acc, rec, t).2 != Outcome::AccountLocked,
{
}

/// An event leaves every other client's account exactly as it was: an event
/// only ever writes its own client's entry.
pub proof fn lemma_other_accounts_untouched(
    acc: Map<u16, Account>,
    rec: Map<u32, TransactionRecord>,
    t: Transaction,
    c: u16,
)
    requires
        c != t.client,
    ensures
        spec_apply(acc, rec, t).0.contains_key(c) == acc.contains_key(c),
        acc.contains_key(c) ==> spec_apply(acc, rec, t).0[c] == acc[c],
{
}

/// A deposit or withdrawal against a locked account is a strict no-op with
/// the `AccountLocked` outcome.
pub proof fn lemma_locked_account_noop(
    acc: Map<u16, Account>,
    rec: Map<u32, TransactionRecord>,
    t: Transaction,
)
    requires
        acc.contains_key(t.client),
        acc[t.client].locked,
        t.tx_type is Deposit || t.tx_type is Withdrawal,
    ensures
        spec_apply(acc, rec, t).0 == acc,
        spec_apply(acc, rec, t).1 == rec,
        spec_apply(acc, rec, t).2 == Outcome::AccountLocked,
{
}

/// Applying any event keeps every account stored under its own client id.
pub proof fn lemma_apply_preserves_wf(
    acc: Map<u16, Account>,
    rec: Map<u32, TransactionRecord>,
    t: Transaction,
)
    requires
        wf_accounts(acc),
    ensures
        wf_accounts(spec_apply(acc, rec, t).0),
{
}

} // verus!
