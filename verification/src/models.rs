//! Data model: events, accounts, transaction records and engine outcomes.

use vstd::prelude::*;

use crate::decimal::Amount;

verus! {

/// The kind of a ledger event.
#[derive(Debug, PartialEq, Eq, Structural, Clone, Copy)]
pub enum TransactionType {
    Deposit,
    Withdrawal,
    Dispute,
    Resolve,
    Chargeback,
}

/// One input event: a deposit or withdrawal carries an amount, the
/// dispute-lifecycle events reference an earlier transaction id instead.
#[derive(Debug, Clone, Copy)]
pub struct Transaction {
    pub tx_type: TransactionType,
    pub client: u16,
    pub tx: u32,
    pub amount: Option<Amount>,
}

/// One client's balances. `available` is spendable, `held` is frozen by open
/// disputes, `total` tracks their sum, and a locked account no longer accepts
/// deposits or withdrawals.
#[derive(Debug, PartialEq, Eq, Structural, Clone, Copy)]
pub struct Account {
    pub client: u16,
    pub available: Amount,
    pub held: Amount,
    pub total: Amount,
    pub locked: bool,
}

impl Account {
    /// A fresh account with zero balances, unlocked.
    pub fn new(client: u16) -> (r: Account)
        ensures
            r == Account::zeroed(client),
    {
        Account {
            client,
            available: Amount { units: 0 },
            held: Amount { units: 0 },
            total: Amount { units: 0 },
            locked: false,
        }
    }

    /// The state every account starts in.
    pub open spec fn zeroed(client: u16) -> Account {
        Account {
            client,
            available: Amount { units: 0 },
            held: Amount { units: 0 },
            total: Amount { units: 0 },
            locked: false,
        }
    }
}

/// The stored trace of a successful deposit or withdrawal: the owning client,
/// the signed amount applied (positive for deposits, negative for
/// withdrawals), and whether a dispute is currently open against it.
#[derive(Debug, PartialEq, Eq, Structural, Clone, Copy)]
pub struct TransactionRecord {
    pub client: u16,
    pub amount: Amount,
    pub disputed: bool,
}

/// What the rule engine decided for one event. Every rejection is a no-op on
/// the ledger; none of them ends the run.
#[derive(Debug, PartialEq, Eq, Structural, Clone, Copy)]
pub enum Outcome {
    /// The event passed all checks and the ledger was updated.
    Applied,
    /// A deposit or withdrawal without an amount, or with one that is not positive.
    InvalidAmount,
    /// A deposit or withdrawal against a locked account.
    AccountLocked,
    /// A deposit or withdrawal whose transaction id was already used.
    DuplicateTransaction,
    /// A withdrawal larger than the available balance.
    InsufficientFunds,
    /// A dispute-lifecycle event whose transaction id is unknown.
    RecordNotFound,
    /// A dispute-lifecycle event against a record of another client, a dispute
    /// of an already disputed record, or a resolve/chargeback of one not under
    /// dispute.
    WrongDisputeState,
    /// A dispute-lifecycle event against a withdrawal record.
    NotADeposit,
}

} // verus!
