//! The transaction rule engine.
//!
//! `handle_transaction` applies one event to the two stores. Its contract pins
//! the new store contents down exactly: they equal `spec_apply` of the old
//! contents, a purely mathematical transition function on the map views.

use vstd::prelude::*;

use crate::account::{mutate_account_balance, mutated, mutation_fits};
use crate::decimal::Amount;
use crate::models::{Account, Outcome, Transaction, TransactionRecord, TransactionType};
use crate::store::{
    accounts_get, accounts_insert, accounts_of, records_get, records_insert, records_of,
    AccountsMap, TransactionsMap,
};

verus! {

/// Dispute-lifecycle events stay permitted on a locked account; they reconcile
/// transactions that predate the lock.
pub open spec fn is_lifecycle(tt: TransactionType) -> bool {
    tt is Dispute || tt is Resolve || tt is Chargeback
}

/// A deposit or withdrawal whose amount is absent or not positive is rejected.
pub open spec fn amount_invalid(t: Transaction) -> bool {
    match t.amount {
        Option::Some(a) => a@ <= 0,
        Option::None => true,
    }
}

/// The locked-account precheck: a non-lifecycle event against a locked
/// account is dropped before any rule runs.
pub open spec fn locked_precheck_hit(a0: Option<Account>, tt: TransactionType) -> bool {
    a0 matches Option::Some(a) && a.locked && !is_lifecycle(tt)
}

/// The account an event works on: the stored one, or a fresh zeroed account.
pub open spec fn or_zeroed(a0: Option<Account>, client: u16) -> Account {
    match a0 {
        Option::Some(a) => a,
        Option::None => Account::zeroed(client),
    }
}

/// The account write a rejected event still performs: looking the account up
/// creates it when absent, so rejection leaves a zeroed account behind.
pub open spec fn created_if_absent(a0: Option<Account>, client: u16) -> Option<Account> {
    match a0 {
        Option::Some(_) => Option::None,
        Option::None => Option::Some(Account::zeroed(client)),
    }
}

/// The record stored for a successful deposit or withdrawal.
pub open spec fn new_record(client: u16, amount: Amount) -> TransactionRecord {
    TransactionRecord { client, amount, disputed: false }
}

/// The amount with its sign flipped; withdrawals are recorded negative.
pub open spec fn negated(a: Amount) -> Amount {
    Amount { units: (-a@) as i128 }
}

/// What one event does to its own account entry and its own record entry:
/// `None` means the entry is left exactly as found. This is the whole rule
/// engine as one local function of the two entries the event may touch.
pub open spec fn step(a0: Option<Account>, r0: Option<TransactionRecord>, t: Transaction) -> (
    Option<Account>,
    Option<TransactionRecord>,
    Outcome,
) {
    if locked_precheck_hit(a0, t.tx_type) {
        (Option::None, Option::None, Outcome::AccountLocked)
    } else {
        match t.tx_type {
            TransactionType::Deposit => step_deposit(a0, r0, t),
            TransactionType::Withdrawal => step_withdrawal(a0, r0, t),
            TransactionType::Dispute => step_dispute(a0, r0, t),
            TransactionType::Resolve => step_resolve(a0, r0, t),
            TransactionType::Chargeback => step_chargeback(a0, r0, t),
        }
    }
}

/// Deposit: with a fresh transaction id, add the amount to `available` and
/// `total` and record it; a duplicate id changes no balance.
pub open spec fn step_deposit(
    a0: Option<Account>,
    r0: Option<TransactionRecord>,
    t: Transaction,
) -> (Option<Account>, Option<TransactionRecord>, Outcome) {
    if amount_invalid(t) {
        (Option::None, Option::None, Outcome::InvalidAmount)
    } else if r0 is Some {
        (created_if_absent(a0, t.client), Option::None, Outcome::DuplicateTransaction)
    } else {
        let amt = t.amount->0;
        (
            Option::Some(mutated(or_zeroed(a0, t.client), amt@, 0, amt@)),
            Option::Some(new_record(t.client, amt)),
            Outcome::Applied,
        )
    }
}

/// Withdrawal: needs sufficient available funds and a fresh transaction id;
/// subtracts from `available` and `total` and records the negated amount.
pub open spec fn step_withdrawal(
    a0: Option<Account>,
    r0: Option<TransactionRecord>,
    t: Transaction,
) -> (Option<Account>, Option<TransactionRecord>, Outcome) {
    if amount_invalid(t) {
        (Option::None, Option::None, Outcome::InvalidAmount)
    } else {
        let amt = t.amount->0;
        if or_zeroed(a0, t.client).available@ < amt@ {
            (created_if_absent(a0, t.client), Option::None, Outcome::InsufficientFunds)
        } else if r0 is Some {
            (created_if_absent(a0, t.client), Option::None, Outcome::DuplicateTransaction)
        } else {
            (
                Option::Some(mutated(or_zeroed(a0, t.client), -amt@, 0, -amt@)),
                Option::Some(new_record(t.client, negated(amt))),
                Outcome::Applied,
            )
        }
    }
}

/// Dispute: a deposit of the same client, not already disputed, moves its
/// amount from `available` to `held` and marks the record disputed.
pub open spec fn step_dispute(
    a0: Option<Account>,
    r0: Option<TransactionRecord>,
    t: Transaction,
) -> (Option<Account>, Option<TransactionRecord>, Outcome) {
    match r0 {
        Option::None => (created_if_absent(a0, t.client), Option::None, Outcome::RecordNotFound),
        Option::Some(r) => {
            if r.client != t.client || r.disputed {
                (created_if_absent(a0, t.client), Option::None, Outcome::WrongDisputeState)
            } else if r.amount@ <= 0 {
                (created_if_absent(a0, t.client), Option::None, Outcome::NotADeposit)
            } else {
                (
                    Option::Some(mutated(or_zeroed(a0, t.client), -r.amount@, r.amount@, 0)),
                    Option::Some(TransactionRecord { disputed: true, ..r }),
                    Outcome::Applied,
                )
            }
        },
    }
}

/// Resolve: a disputed deposit of the same client moves its amount back from
/// `held` to `available` and clears the disputed flag.
pub open spec fn step_resolve(
    a0: Option<Account>,
    r0: Option<TransactionRecord>,
    t: Transaction,
) -> (Option<Account>, Option<TransactionRecord>, Outcome) {
    match r0 {
        Option::None => (created_if_absent(a0, t.client), Option::None, Outcome::RecordNotFound),
        Option::Some(r) => {
            if r.client != t.client || !r.disputed {
                (created_if_absent(a0, t.client), Option::None, Outcome::WrongDisputeState)
            } else if r.amount@ <= 0 {
                (created_if_absent(a0, t.client), Option::None, Outcome::NotADeposit)
            } else {
                (
                    Option::Some(mutated(or_zeroed(a0, t.client), r.amount@, -r.amount@, 0)),
                    Option::Some(TransactionRecord { disputed: false, ..r }),
                    Outcome::Applied,
                )
            }
        },
    }
}

/// Chargeback: a disputed deposit of the same client is withdrawn from `held`
/// and `total`, the dispute closes, and the account locks for good.
pub open spec fn step_chargeback(
    a0: Option<Account>,
    r0: Option<TransactionRecord>,
    t: Transaction,
) -> (Option<Account>, Option<TransactionRecord>, Outcome) {
    match r0 {
        Option::None => (created_if_absent(a0, t.client), Option::None, Outcome::RecordNotFound),
        Option::Some(r) => {
            if r.client != t.client || !r.disputed {
                (created_if_absent(a0, t.client), Option::None, Outcome::WrongDisputeState)
            } else if r.amount@ <= 0 {
                (created_if_absent(a0, t.client), Option::None, Outcome::NotADeposit)
            } else {
                (
                    Option::Some(
                        mutated(
                            Account { locked: true, ..or_zeroed(a0, t.client) },
                            0,
                            -r.amount@,
                            -r.amount@,
                        ),
                    ),
                    Option::Some(TransactionRecord { disputed: false, ..r }),
                    Outcome::Applied,
                )
            }
        },
    }
}

/// The stored account of a client, if any.
pub open spec fn lookup_account(acc: Map<u16, Account>, c: u16) -> Option<Account> {
    if acc.contains_key(c) {
        Option::Some(acc[c])
    } else {
        Option::None
    }
}

/// The stored record of a transaction id, if any.
pub open spec fn lookup_record(rec: Map<u32, TransactionRecord>, tx: u32) -> Option<
    TransactionRecord,
> {
    if rec.contains_key(tx) {
        Option::Some(rec[tx])
    } else {
        Option::None
    }
}

/// Write an entry back, or leave the map alone.
pub open spec fn write_account(acc: Map<u16, Account>, c: u16, w: Option<Account>) -> Map<
    u16,
    Account,
> {
    match w {
        Option::Some(a) => acc.insert(c, a),
        Option::None => acc,
    }
}

/// Write an entry back, or leave the map alone.
pub open spec fn write_record(rec: Map<u32, TransactionRecord>, tx: u32, w: Option<
    TransactionRecord,
>) -> Map<u32, TransactionRecord> {
    match w {
        Option::Some(r) => rec.insert(tx, r),
        Option::None => rec,
    }
}

/// One event applied to the whole ledger state: look the two entries up, run
/// the local step, write the results back.
pub open spec fn spec_apply(
    acc: Map<u16, Account>,
    rec: Map<u32, TransactionRecord>,
    t: Transaction,
) -> (Map<u16, Account>, Map<u32, TransactionRecord>, Outcome) {
    let res = step(lookup_account(acc, t.client), lookup_record(rec, t.tx), t);
    (write_account(acc, t.client, res.0), write_record(rec, t.tx, res.1), res.2)
}

/// The machine-level bound: the balance sums the event's path computes stay
/// within `i128`. Rejected paths compute no sums and fit trivially.
pub open spec fn apply_fits(
    acc: Map<u16, Account>,
    rec: Map<u32, TransactionRecord>,
    t: Transaction,
) -> bool {
    let a0 = lookup_account(acc, t.client);
    let r0 = lookup_record(rec, t.tx);
    let base = or_zeroed(a0, t.client);
    if locked_precheck_hit(a0, t.tx_type) {
        true
    } else {
        match t.tx_type {
            TransactionType::Deposit => amount_invalid(t) || r0 is Some || mutation_fits(
                base,
                t.amount->0@,
                0,
                t.amount->0@,
            ),
            TransactionType::Withdrawal => amount_invalid(t) || base.available@ < t.amount->0@
                || r0 is Some || mutation_fits(base, -t.amount->0@, 0, -t.amount->0@),
            TransactionType::Dispute => match r0 {
                Option::None => true,
                Option::Some(r) => r.client != t.client || r.disputed || r.amount@ <= 0
                    || mutation_fits(base, -r.amount@, r.amount@, 0),
            },
            TransactionType::Resolve => match r0 {
                Option::None => true,
                Option::Some(r) => r.client != t.client || !r.disputed || r.amount@ <= 0
                    || mutation_fits(base, r.amount@, -r.amount@, 0),
            },
            TransactionType::Chargeback => match r0 {
                Option::None => true,
                Option::Some(r) => r.client != t.client || !r.disputed || r.amount@ <= 0
                    || mutation_fits(base, 0, -r.amount@, -r.amount@),
            },
        }
    }
}

/// Inserting a key twice keeps only the second value.
proof fn lemma_insert_twice<K, V>(m: Map<K, V>, k: K, v1: V, v2: V)
    ensures
        m.insert(k, v1).insert(k, v2) == m.insert(k, v2),
{
    assert(m.insert(k, v1).insert(k, v2) =~= m.insert(k, v2));
}

/// Whether an event is one of the dispute-lifecycle kinds.
pub fn is_lifecycle_event(tt: TransactionType) -> (r: bool)
    ensures
        r == is_lifecycle(tt),
{
    matches!(tt, TransactionType::Dispute | TransactionType::Resolve | TransactionType::Chargeback)
}

/// Look a client's account up, creating a zeroed one when absent, and return
/// a copy of what is now stored.
pub fn get_or_create_account(accounts: &mut AccountsMap, client: u16) -> (a: Account)
    ensures
        a == or_zeroed(lookup_account(accounts_of(*old(accounts)), client), client),
        accounts_of(*final(accounts)) == write_account(
            accounts_of(*old(accounts)),
            client,
            created_if_absent(lookup_account(accounts_of(*old(accounts)), client), client),
        ),
{
    match accounts_get(accounts, client) {
        Some(a) => a,
        None => {
            let a = Account::new(client);
            accounts_insert(accounts, client, a);
            a
        },
    }
}

/// Record a fresh transaction id, or report that it was already used. The
/// insert-if-absent is the sole idempotency guard against duplicate ids.
pub fn insert_transaction(
    tx_map: &mut TransactionsMap,
    tx: u32,
    client: u16,
    amount: Amount,
) -> (fresh: bool)
    ensures
        fresh == !records_of(*old(tx_map)).contains_key(tx),
        records_of(*final(tx_map)) == (if fresh {
            records_of(*old(tx_map)).insert(tx, new_record(client, amount))
        } else {
            records_of(*old(tx_map))
        }),
{
    match records_get(tx_map, tx) {
        Some(_) => false,
        None => {
            records_insert(tx_map, tx, TransactionRecord { client, amount, disputed: false });
            true
        },
    }
}

/// Apply one event to the stores. The new contents are exactly
/// `spec_apply` of the old contents; the returned outcome says what the
/// engine decided, and every rejection leaves all balances unchanged.
pub fn handle_transaction(
    transaction: Transaction,
    accounts: &mut AccountsMap,
    transactions: &mut TransactionsMap,
) -> (o: Outcome)
    requires
        apply_fits(accounts_of(*old(accounts)), records_of(*old(transactions)), transaction),
    ensures
        (accounts_of(*final(accounts)), records_of(*final(transactions)), o) == spec_apply(
            accounts_of(*old(accounts)),
            records_of(*old(transactions)),
            transaction,
        ),
{
    match accounts_get(accounts, transaction.client) {
        Some(a) => {
            if a.locked && !is_lifecycle_event(transaction.tx_type) {
                return Outcome::AccountLocked;
            }
        },
        None => {},
    }
    match transaction.tx_type {
        TransactionType::Deposit => handle_deposit(transaction, accounts, transactions),
        TransactionType::Withdrawal => handle_withdrawal(transaction, accounts, transactions),
        TransactionType::Dispute => handle_dispute(transaction, accounts, transactions),
        TransactionType::Resolve => handle_resolve(transaction, accounts, transactions),
        TransactionType::Chargeback => handle_chargeback(transaction, accounts, transactions),
    }
}

/// Deposit handler; see `step_deposit` for the rule it implements.
fn handle_deposit(
    transaction: Transaction,
    accounts: &mut AccountsMap,
    transactions: &mut TransactionsMap,
) -> (o: Outcome)
    requires
        transaction.tx_type is Deposit,
        !locked_precheck_hit(
            lookup_account(accounts_of(*old(accounts)), transaction.client),
            transaction.tx_type,
        ),
        apply_fits(accounts_of(*old(accounts)), records_of(*old(transactions)), transaction),
    ensures
        (accounts_of(*final(accounts)), records_of(*final(transactions)), o) == spec_apply(
            accounts_of(*old(accounts)),
            records_of(*old(transactions)),
            transaction,
        ),
{
    let amt = match transaction.amount {
        Some(a) => {
            if a.units <= 0 {
                return Outcome::InvalidAmount;
            }
            a
        },
        None => {
            return Outcome::InvalidAmount;
        },
    };
    let base = get_or_create_account(accounts, transaction.client);
    if insert_transaction(transactions, transaction.tx, transaction.client, amt) {
        let mut acct = base;
        mutate_account_balance(&mut acct, amt, Amount::zero(), amt);
        accounts_insert(accounts, transaction.client, acct);
        proof {
            lemma_insert_twice(
                accounts_of(*old(accounts)),
                transaction.client,
                Account::zeroed(transaction.client),
                acct,
            );
        }
        Outcome::Applied
    } else {
        Outcome::DuplicateTransaction
    }
}

/// Withdrawal handler; see `step_withdrawal` for the rule it implements.
fn handle_withdrawal(
    transaction: Transaction,
    accounts: &mut AccountsMap,
    transactions: &mut TransactionsMap,
) -> (o: Outcome)
    requires
        transaction.tx_type is Withdrawal,
        !locked_precheck_hit(
            lookup_account(accounts_of(*old(accounts)), transaction.client),
            transaction.tx_type,
        ),
        apply_fits(accounts_of(*old(accounts)), records_of(*old(transactions)), transaction),
    ensures
        (accounts_of(*final(accounts)), records_of(*final(transactions)), o) == spec_apply(
            accounts_of(*old(accounts)),
            records_of(*old(transactions)),
            transaction,
        ),
{
    let amt = match transaction.amount {
        Some(a) => {
            if a.units <= 0 {
                return Outcome::InvalidAmount;
            }
            a
        },
        None => {
            return Outcome::InvalidAmount;
        },
    };
    let base = get_or_create_account(accounts, transaction.client);
    if base.available.units < amt.units {
        return Outcome::InsufficientFunds;
    }
    let neg = Amount { units: -amt.units };
    if insert_transaction(transactions, transaction.tx, transaction.client, neg) {
        let mut acct = base;
        mutate_account_balance(&mut acct, neg, Amount::zero(), neg);
        accounts_insert(accounts, transaction.client, acct);
        proof {
            lemma_insert_twice(
                accounts_of(*old(accounts)),
                transaction.client,
                Account::zeroed(transaction.client),
                acct,
            );
        }
        Outcome::Applied
    } else {
        Outcome::DuplicateTransaction
    }
}

/// Dispute handler; see `step_dispute` for the rule it implements.
fn handle_dispute(
    transaction: Transaction,
    accounts: &mut AccountsMap,
    transactions: &mut TransactionsMap,
) -> (o: Outcome)
    requires
        transaction.tx_type is Dispute,
        apply_fits(accounts_of(*old(accounts)), records_of(*old(transactions)), transaction),
    ensures
        (accounts_of(*final(accounts)), records_of(*final(transactions)), o) == spec_apply(
            accounts_of(*old(accounts)),
            records_of(*old(transactions)),
            transaction,
        ),
{
    let base = get_or_create_account(accounts, transaction.client);
    match records_get(transactions, transaction.tx) {
        None => Outcome::RecordNotFound,
        Some(r) => {
            if r.client != transaction.client || r.disputed {
                Outcome::WrongDisputeState
            } else if r.amount.units <= 0 {
                Outcome::NotADeposit
            } else {
                records_insert(
                    transactions,
                    transaction.tx,
                    TransactionRecord { disputed: true, ..r },
                );
                let mut acct = base;
                mutate_account_balance(
                    &mut acct,
                    Amount { units: -r.amount.units },
                    r.amount,
                    Amount::zero(),
                );
                accounts_insert(accounts, transaction.client, acct);
                proof {
                    lemma_insert_twice(
                        accounts_of(*old(accounts)),
                        transaction.client,
                        Account::zeroed(transaction.client),
                        acct,
                    );
                }
                Outcome::Applied
            }
        },
    }
}

/// Resolve handler; see `step_resolve` for the rule it implements.
fn handle_resolve(
    transaction: Transaction,
    accounts: &mut AccountsMap,
    transactions: &mut TransactionsMap,
) -> (o: Outcome)
    requires
        transaction.tx_type is Resolve,
        apply_fits(accounts_of(*old(accounts)), records_of(*old(transactions)), transaction),
    ensures
        (accounts_of(*final(accounts)), records_of(*final(transactions)), o) == spec_apply(
            accounts_of(*old(accounts)),
            records_of(*old(transactions)),
            transaction,
        ),
{
    let base = get_or_create_account(accounts, transaction.client);
    match records_get(transactions, transaction.tx) {
        None => Outcome::RecordNotFound,
        Some(r) => {
            if r.client != transaction.client || !r.disputed {
                Outcome::WrongDisputeState
            } else if r.amount.units <= 0 {
                Outcome::NotADeposit
            } else {
                records_insert(
                    transactions,
                    transaction.tx,
                    TransactionRecord { disputed: false, ..r },
                );
                let mut acct = base;
                mutate_account_balance(
                    &mut acct,
                    r.amount,
                    Amount { units: -r.amount.units },
                    Amount::zero(),
                );
                accounts_insert(accounts, transaction.client, acct);
                proof {
                    lemma_insert_twice(
                        accounts_of(*old(accounts)),
                        transaction.client,
                        Account::zeroed(transaction.client),
                        acct,
                    );
                }
                Outcome::Applied
            }
        },
    }
}

/// Chargeback handler; see `step_chargeback` for the rule it implements.
fn handle_chargeback(
    transaction: Transaction,
    accounts: &mut AccountsMap,
    transactions: &mut TransactionsMap,
) -> (o: Outcome)
    requires
        transaction.tx_type is Chargeback,
        apply_fits(accounts_of(*old(accounts)), records_of(*old(transactions)), transaction),
    ensures
        (accounts_of(*final(accounts)), records_of(*final(transactions)), o) == spec_apply(
            accounts_of(*old(accounts)),
            records_of(*old(transactions)),
            transaction,
        ),
{
    let base = get_or_create_account(accounts, transaction.client);
    match records_get(transactions, transaction.tx) {
        None => Outcome::RecordNotFound,
        Some(r) => {
            if r.client != transaction.client || !r.disputed {
                Outcome::WrongDisputeState
            } else if r.amount.units <= 0 {
                Outcome::NotADeposit
            } else {
                records_insert(
                    transactions,
                    transaction.tx,
                    TransactionRecord { disputed: false, ..r },
                );
                let mut acct = base;
                acct.locked = true;
                mutate_account_balance(
                    &mut acct,
                    Amount::zero(),
                    Amount { units: -r.amount.units },
                    Amount { units: -r.amount.units },
                );
                accounts_insert(accounts, transaction.client, acct);
                proof {
                    lemma_insert_twice(
                        accounts_of(*old(accounts)),
                        transaction.client,
                        Account::zeroed(transaction.client),
                        acct,
                    );
                }
                Outcome::Applied
            }
        },
    }
}

/// Whether the three balance sums of this mutation stay representable.
fn deltas_fit(base: &Account, da: i128, dh: i128, dt: i128) -> (r: bool)
    ensures
        r == mutation_fits(*base, da as int, dh as int, dt as int),
{
    base.available.units.checked_add(da).is_some() && base.held.units.checked_add(dh).is_some()
        && base.total.units.checked_add(dt).is_some()
}

/// Runtime check for `handle_transaction`'s precondition: whether applying
/// this event stays within the machine's integer range. Events this returns
/// `false` for would overflow a balance; everything else is safe to apply.
pub fn can_apply(
    transaction: &Transaction,
    accounts: &AccountsMap,
    transactions: &TransactionsMap,
) -> (r: bool)
    ensures
        r == apply_fits(accounts_of(*accounts), records_of(*transactions), *transaction),
{
    let base = match accounts_get(accounts, transaction.client) {
        Some(a) => {
            if a.locked && !is_lifecycle_event(transaction.tx_type) {
                return true;
            }
            a
        },
        None => Account::new(transaction.client),
    };
    match transaction.tx_type {
        TransactionType::Deposit => {
            match transaction.amount {
                None => true,
                Some(a) => {
                    if a.units <= 0 {
                        true
                    } else if insert_would_collide(transactions, transaction.tx) {
                        true
                    } else {
                        deltas_fit(&base, a.units, 0, a.units)
                    }
                },
            }
        },
        TransactionType::Withdrawal => {
            match transaction.amount {
                None => true,
                Some(a) => {
                    if a.units <= 0 || base.available.units < a.units {
                        true
                    } else if insert_would_collide(transactions, transaction.tx) {
                        true
                    } else {
                        deltas_fit(&base, -a.units, 0, -a.units)
                    }
                },
            }
        },
        TransactionType::Dispute => {
            match records_get(transactions, transaction.tx) {
                None => true,
                Some(r) => {
                    if r.client != transaction.client || r.disputed || r.amount.units <= 0 {
                        true
                    } else {
                        deltas_fit(&base, -r.amount.units, r.amount.units, 0)
                    }
                },
            }
        },
        TransactionType::Resolve => {
            match records_get(transactions, transaction.tx) {
                None => true,
                Some(r) => {
                    if r.client != transaction.client || !r.disputed || r.amount.units <= 0 {
                        true
                    } else {
                        deltas_fit(&base, r.amount.units, -r.amount.units, 0)
                    }
                },
            }
        },
        TransactionType::Chargeback => {
            match records_get(transactions, transaction.tx) {
                None => true,
                Some(r) => {
                    if r.client != transaction.client || !r.disputed || r.amount.units <= 0 {
                        true
                    } else {
                        deltas_fit(&base, 0, -r.amount.units, -r.amount.units)
                    }
                },
            }
        },
    }
}

/// Whether a deposit or withdrawal event carries a usable amount; the
/// dispatcher drops funds-moving events without one before queueing them.
pub fn has_valid_amount(t: &Transaction) -> (r: bool)
    ensures
        r == !amount_invalid(*t),
{
    match t.amount {
        Some(a) => a.units > 0,
        None => false,
    }
}

/// Whether a transaction id is already taken.
fn insert_would_collide(transactions: &TransactionsMap, tx: u32) -> (r: bool)
    ensures
        r == records_of(*transactions).contains_key(tx),
{
    records_get(transactions, tx).is_some()
}

} // verus!
