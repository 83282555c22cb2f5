//! The ledger state store: concurrent maps for accounts and transaction
//! records.
//!
//! Both stores are `dashmap::DashMap` instances. Verus sees each map as an
//! opaque value whose contents are named by an uninterpreted view
//! (`accounts_of`, `records_of`); the handful of operations the engine needs
//! are trusted wrappers whose contracts state, over those views, exactly what
//! the dashmap source shows.

use vstd::prelude::*;

use crate::models::{Account, TransactionRecord};

verus! {

#[verifier::external_type_specification]
#[verifier::external_body]
#[verifier::reject_recursive_types(K)]
#[verifier::reject_recursive_types(V)]
#[verifier::reject_recursive_types(S)]
pub struct ExDashMap<K, V, S>(dashmap::DashMap<K, V, S>);

/// Accounts keyed by client id.
pub type AccountsMap = dashmap::DashMap<u16, Account>;

/// Transaction records keyed by globally unique transaction id.
pub type TransactionsMap = dashmap::DashMap<u32, TransactionRecord>;

/// The contents of an accounts store, as a map from client id to account.
pub uninterp spec fn accounts_of(m: AccountsMap) -> Map<u16, Account>;

/// The contents of a transaction-record store, as a map from transaction id
/// to record.
pub uninterp spec fn records_of(m: TransactionsMap) -> Map<u32, TransactionRecord>;

/// The empty accounts view.
pub open spec fn no_accounts() -> Map<u16, Account> {
    Map::empty()
}

/// The empty record view.
pub open spec fn no_records() -> Map<u32, TransactionRecord> {
    Map::empty()
}

/// Relies on `dashmap::DashMap::new`: creates an empty map.
#[verifier::external_body]
pub(crate) fn new_accounts_map() -> (m: AccountsMap)
    ensures
        accounts_of(m) == no_accounts(),
{
    dashmap::DashMap::new()
}

/// Relies on `dashmap::DashMap::new`: creates an empty map.
#[verifier::external_body]
pub(crate) fn new_transactions_map() -> (m: TransactionsMap)
    ensures
        records_of(m) == no_records(),
{
    dashmap::DashMap::new()
}

/// Relies on `dashmap::DashMap::get`: returns the value stored under the key,
/// if any. The account is handed out by value.
#[verifier::external_body]
pub(crate) fn accounts_get(m: &AccountsMap, client: u16) -> (r: Option<Account>)
    ensures
        r == if accounts_of(*m).contains_key(client) {
            Some(accounts_of(*m)[client])
        } else {
            None::<Account>
        },
{
    m.get(&client).map(|e| *e)
}

/// Relies on `dashmap::DashMap::insert`: maps the key to the new value,
/// replacing any previous one.
#[verifier::external_body]
pub(crate) fn accounts_insert(m: &mut AccountsMap, client: u16, account: Account)
    ensures
        accounts_of(*final(m)) == accounts_of(*old(m)).insert(client, account),
{
    m.insert(client, account);
}

/// Relies on `dashmap::DashMap::get`: returns the value stored under the key,
/// if any. The record is handed out by value.
#[verifier::external_body]
pub(crate) fn records_get(m: &TransactionsMap, tx: u32) -> (r: Option<TransactionRecord>)
    ensures
        r == if records_of(*m).contains_key(tx) {
            Some(records_of(*m)[tx])
        } else {
            None::<TransactionRecord>
        },
{
    m.get(&tx).map(|e| *e)
}

/// Relies on `dashmap::DashMap::insert`: maps the key to the new value,
/// replacing any previous one.
#[verifier::external_body]
pub(crate) fn records_insert(m: &mut TransactionsMap, tx: u32, record: TransactionRecord)
    ensures
        records_of(*final(m)) == records_of(*old(m)).insert(tx, record),
{
    m.insert(tx, record);
}

/// Fresh, empty stores for one run: no accounts, no records.
pub fn new_stores() -> (r: (AccountsMap, TransactionsMap))
    ensures
        accounts_of(r.0) == no_accounts(),
        records_of(r.1) == no_records(),
{
    (new_accounts_map(), new_transactions_map())
}

/// A copy of the client's account, if one exists.
pub fn get_account(m: &AccountsMap, client: u16) -> (r: Option<Account>)
    ensures
        r == if accounts_of(*m).contains_key(client) {
            Some(accounts_of(*m)[client])
        } else {
            None::<Account>
        },
{
    accounts_get(m, client)
}

/// A copy of the record stored under the transaction id, if any.
pub fn get_transaction(m: &TransactionsMap, tx: u32) -> (r: Option<TransactionRecord>)
    ensures
        r == if records_of(*m).contains_key(tx) {
            Some(records_of(*m)[tx])
        } else {
            None::<TransactionRecord>
        },
{
    records_get(m, tx)
}

} // verus!
