use ledger_engine::decimal::Amount;
use ledger_engine::models::{Outcome, Transaction, TransactionType};
use ledger_engine::store::{get_account, get_transaction, new_stores, AccountsMap, TransactionsMap};
use ledger_engine::transaction::{can_apply, handle_transaction};

fn setup_test_environment() -> (AccountsMap, TransactionsMap) {
    new_stores()
}

fn new_transaction(
    tx_type: TransactionType,
    client: u16,
    tx: u32,
    amount: Option<Amount>,
) -> Transaction {
    Transaction { tx_type, client, tx, amount }
}

fn apply(t: Transaction, accounts: &mut AccountsMap, transactions: &mut TransactionsMap) -> Outcome {
    assert!(can_apply(&t, accounts, transactions));
    handle_transaction(t, accounts, transactions)
}

#[test]
fn test_deposit_valid() {
    let (mut accounts, mut transactions) = setup_test_environment();
    let deposit = new_transaction(TransactionType::Deposit, 1, 100, Some(Amount::from_int(100)));
    apply(deposit, &mut accounts, &mut transactions);

    let account = get_account(&accounts, 1).unwrap();
    assert_eq!(account.available, Amount::from_int(100));
    assert_eq!(account.total, Amount::from_int(100));
    assert_eq!(account.held, Amount::zero());
}

#[test]
fn test_withdrawal_sufficient_funds() {
    let (mut accounts, mut transactions) = setup_test_environment();
    let deposit = new_transaction(TransactionType::Deposit, 1, 100, Some(Amount::from_int(100)));
    apply(deposit, &mut accounts, &mut transactions);

    let withdrawal =
        new_transaction(TransactionType::Withdrawal, 1, 101, Some(Amount::from_int(50)));
    apply(withdrawal, &mut accounts, &mut transactions);

    let account = get_account(&accounts, 1).unwrap();
    assert_eq!(account.available, Amount::from_int(50));
    assert_eq!(account.total, Amount::from_int(50));
}

#[test]
fn test_withdrawal_insufficient_funds() {
    let (mut accounts, mut transactions) = setup_test_environment();
    let withdrawal =
        new_transaction(TransactionType::Withdrawal, 1, 100, Some(Amount::from_int(50)));
    apply(withdrawal, &mut accounts, &mut transactions);

    let account = get_account(&accounts, 1).unwrap();
    assert_eq!(account.available, Amount::zero());
    assert_eq!(account.held, Amount::zero());
    assert_eq!(account.total, Amount::zero());
}

#[test]
fn test_dispute_on_deposit() {
    let (mut accounts, mut transactions) = setup_test_environment();
    let deposit = new_transaction(TransactionType::Deposit, 1, 100, Some(Amount::from_int(100)));
    apply(deposit, &mut accounts, &mut transactions);

    let dispute = new_transaction(TransactionType::Dispute, 1, 100, None);
    apply(dispute, &mut accounts, &mut transactions);

    let account = get_account(&accounts, 1).unwrap();
    assert_eq!(account.available, Amount::zero());
    assert_eq!(account.held, Amount::from_int(100));

    let tx_record = get_transaction(&transactions, 100).unwrap();
    assert!(tx_record.disputed);
}

#[test]
fn test_resolve_dispute() {
    let (mut accounts, mut transactions) = setup_test_environment();
    let deposit = new_transaction(TransactionType::Deposit, 1, 100, Some(Amount::from_int(100)));
    apply(deposit, &mut accounts, &mut transactions);

    let dispute = new_transaction(TransactionType::Dispute, 1, 100, None);
    apply(dispute, &mut accounts, &mut transactions);

    let resolve = new_transaction(TransactionType::Resolve, 1, 100, None);
    apply(resolve, &mut accounts, &mut transactions);

    let account = get_account(&accounts, 1).unwrap();
    assert_eq!(account.available, Amount::from_int(100));
    assert_eq!(account.held, Amount::zero());

    let tx_record = get_transaction(&transactions, 100).unwrap();
    assert!(!tx_record.disputed);
}

#[test]
fn test_chargeback_dispute() {
    let (mut accounts, mut transactions) = setup_test_environment();
    let deposit = new_transaction(TransactionType::Deposit, 1, 100, Some(Amount::from_int(100)));
    apply(deposit, &mut accounts, &mut transactions);

    let dispute = new_transaction(TransactionType::Dispute, 1, 100, None);
    apply(dispute, &mut accounts, &mut transactions);

    let chargeback = new_transaction(TransactionType::Chargeback, 1, 100, None);
    apply(chargeback, &mut accounts, &mut transactions);

    let account = get_account(&accounts, 1).unwrap();
    assert_eq!(account.held, Amount::zero());
    assert_eq!(account.total, Amount::zero());
    assert!(account.locked);
}

#[test]
fn test_duplicate_transaction_id() {
    let (mut accounts, mut transactions) = setup_test_environment();
    let deposit1 = new_transaction(TransactionType::Deposit, 1, 100, Some(Amount::from_int(100)));
    apply(deposit1, &mut accounts, &mut transactions);

    let deposit2 = new_transaction(TransactionType::Deposit, 1, 100, Some(Amount::from_int(200)));
    apply(deposit2, &mut accounts, &mut transactions);

    let account = get_account(&accounts, 1).unwrap();
    assert_eq!(account.available, Amount::from_int(100));
}

#[test]
fn test_locked_account_ignores_transactions() {
    let (mut accounts, mut transactions) = setup_test_environment();
    let deposit = new_transaction(TransactionType::Deposit, 1, 100, Some(Amount::from_int(100)));
    apply(deposit, &mut accounts, &mut transactions);

    let dispute = new_transaction(TransactionType::Dispute, 1, 100, None);
    apply(dispute, &mut accounts, &mut transactions);

    let chargeback = new_transaction(TransactionType::Chargeback, 1, 100, None);
    apply(chargeback, &mut accounts, &mut transactions);

    let new_deposit = new_transaction(TransactionType::Deposit, 1, 101, Some(Amount::from_int(50)));
    apply(new_deposit, &mut accounts, &mut transactions);

    let account = get_account(&accounts, 1).unwrap();
    assert_eq!(account.total, Amount::zero());
}

#[test]
fn test_negative_amount_deposit_ignored() {
    let (mut accounts, mut transactions) = setup_test_environment();
    let deposit = new_transaction(TransactionType::Deposit, 1, 100, Some(Amount::from_int(-100)));
    apply(deposit, &mut accounts, &mut transactions);

    assert!(get_account(&accounts, 1).is_none());
}

#[test]
fn test_missing_amount_ignored() {
    let (mut accounts, mut transactions) = setup_test_environment();
    let deposit = new_transaction(TransactionType::Deposit, 1, 100, None);
    apply(deposit, &mut accounts, &mut transactions);

    assert!(get_account(&accounts, 1).is_none());
}

#[test]
fn rejected_withdrawal_reports_insufficient_funds() {
    let (mut accounts, mut transactions) = setup_test_environment();
    let deposit = new_transaction(TransactionType::Deposit, 1, 100, Some(Amount::from_int(100)));
    assert_eq!(apply(deposit, &mut accounts, &mut transactions), Outcome::Applied);

    let withdrawal =
        new_transaction(TransactionType::Withdrawal, 1, 101, Some(Amount::from_int(150)));
    assert_eq!(
        apply(withdrawal, &mut accounts, &mut transactions),
        Outcome::InsufficientFunds
    );

    let account = get_account(&accounts, 1).unwrap();
    assert_eq!(account.available, Amount::from_int(100));
    assert_eq!(account.total, Amount::from_int(100));
}

#[test]
fn outcome_of_each_rejection() {
    let (mut accounts, mut transactions) = setup_test_environment();

    let missing = new_transaction(TransactionType::Deposit, 1, 1, None);
    assert_eq!(apply(missing, &mut accounts, &mut transactions), Outcome::InvalidAmount);

    let negative = new_transaction(TransactionType::Withdrawal, 1, 1, Some(Amount::from_int(-5)));
    assert_eq!(apply(negative, &mut accounts, &mut transactions), Outcome::InvalidAmount);

    let unknown_dispute = new_transaction(TransactionType::Dispute, 1, 9, None);
    assert_eq!(
        apply(unknown_dispute, &mut accounts, &mut transactions),
        Outcome::RecordNotFound
    );

    let deposit = new_transaction(TransactionType::Deposit, 1, 10, Some(Amount::from_int(40)));
    assert_eq!(apply(deposit, &mut accounts, &mut transactions), Outcome::Applied);

    let duplicate = new_transaction(TransactionType::Deposit, 1, 10, Some(Amount::from_int(40)));
    assert_eq!(
        apply(duplicate, &mut accounts, &mut transactions),
        Outcome::DuplicateTransaction
    );

    let wrong_client_dispute = new_transaction(TransactionType::Dispute, 2, 10, None);
    assert_eq!(
        apply(wrong_client_dispute, &mut accounts, &mut transactions),
        Outcome::WrongDisputeState
    );

    let undisputed_resolve = new_transaction(TransactionType::Resolve, 1, 10, None);
    assert_eq!(
        apply(undisputed_resolve, &mut accounts, &mut transactions),
        Outcome::WrongDisputeState
    );

    let withdrawal = new_transaction(TransactionType::Withdrawal, 1, 11, Some(Amount::from_int(5)));
    assert_eq!(apply(withdrawal, &mut accounts, &mut transactions), Outcome::Applied);

    let dispute_withdrawal = new_transaction(TransactionType::Dispute, 1, 11, None);
    assert_eq!(
        apply(dispute_withdrawal, &mut accounts, &mut transactions),
        Outcome::NotADeposit
    );

    let dispute = new_transaction(TransactionType::Dispute, 1, 10, None);
    assert_eq!(apply(dispute, &mut accounts, &mut transactions), Outcome::Applied);

    let second_dispute = new_transaction(TransactionType::Dispute, 1, 10, None);
    assert_eq!(
        apply(second_dispute, &mut accounts, &mut transactions),
        Outcome::WrongDisputeState
    );

    let chargeback = new_transaction(TransactionType::Chargeback, 1, 10, None);
    assert_eq!(apply(chargeback, &mut accounts, &mut transactions), Outcome::Applied);

    let locked_deposit = new_transaction(TransactionType::Deposit, 1, 12, Some(Amount::from_int(1)));
    assert_eq!(
        apply(locked_deposit, &mut accounts, &mut transactions),
        Outcome::AccountLocked
    );
}

#[test]
fn lifecycle_still_works_on_locked_account() {
    let (mut accounts, mut transactions) = setup_test_environment();
    let d1 = new_transaction(TransactionType::Deposit, 1, 100, Some(Amount::from_int(100)));
    apply(d1, &mut accounts, &mut transactions);
    let d2 = new_transaction(TransactionType::Deposit, 1, 101, Some(Amount::from_int(50)));
    apply(d2, &mut accounts, &mut transactions);

    let dispute1 = new_transaction(TransactionType::Dispute, 1, 100, None);
    apply(dispute1, &mut accounts, &mut transactions);
    let chargeback = new_transaction(TransactionType::Chargeback, 1, 100, None);
    apply(chargeback, &mut accounts, &mut transactions);
    assert!(get_account(&accounts, 1).unwrap().locked);

    // a pre-lock deposit can still be disputed and resolved after the lock
    let dispute2 = new_transaction(TransactionType::Dispute, 1, 101, None);
    assert_eq!(apply(dispute2, &mut accounts, &mut transactions), Outcome::Applied);
    let account = get_account(&accounts, 1).unwrap();
    assert_eq!(account.available, Amount::zero());
    assert_eq!(account.held, Amount::from_int(50));

    let resolve = new_transaction(TransactionType::Resolve, 1, 101, None);
    assert_eq!(apply(resolve, &mut accounts, &mut transactions), Outcome::Applied);
    let account = get_account(&accounts, 1).unwrap();
    assert_eq!(account.available, Amount::from_int(50));
    assert_eq!(account.held, Amount::zero());
    assert!(account.locked);
}

#[test]
fn balances_stay_balanced_across_a_run() {
    let (mut accounts, mut transactions) = setup_test_environment();
    let events = vec![
        new_transaction(TransactionType::Deposit, 1, 1, Some(Amount::from_int(100))),
        new_transaction(TransactionType::Deposit, 2, 2, Some(Amount::from_int(30))),
        new_transaction(TransactionType::Withdrawal, 1, 3, Some(Amount::from_int(25))),
        new_transaction(TransactionType::Dispute, 1, 1, None),
        new_transaction(TransactionType::Resolve, 1, 1, None),
        new_transaction(TransactionType::Dispute, 2, 2, None),
        new_transaction(TransactionType::Chargeback, 2, 2, None),
    ];
    for e in events {
        apply(e, &mut accounts, &mut transactions);
        for c in [1u16, 2u16] {
            if let Some(a) = get_account(&accounts, c) {
                assert_eq!(a.total.units, a.available.units + a.held.units);
            }
        }
    }
}

#[test]
fn duplicate_withdrawal_id_is_noop() {
    let (mut accounts, mut transactions) = setup_test_environment();
    let deposit = new_transaction(TransactionType::Deposit, 1, 100, Some(Amount::from_int(100)));
    apply(deposit, &mut accounts, &mut transactions);
    let w1 = new_transaction(TransactionType::Withdrawal, 1, 101, Some(Amount::from_int(30)));
    assert_eq!(apply(w1, &mut accounts, &mut transactions), Outcome::Applied);
    let w2 = new_transaction(TransactionType::Withdrawal, 1, 101, Some(Amount::from_int(30)));
    assert_eq!(apply(w2, &mut accounts, &mut transactions), Outcome::DuplicateTransaction);

    let account = get_account(&accounts, 1).unwrap();
    assert_eq!(account.available, Amount::from_int(70));
    assert_eq!(account.total, Amount::from_int(70));
}

#[test]
fn fractional_deposit_is_truncated_onto_the_grid() {
    let (mut accounts, mut transactions) = setup_test_environment();
    // 1.00005 has more than four fractional digits; the balance keeps 1.0000
    let fine = Amount::from_scaled(100005, 5).unwrap();
    let deposit = new_transaction(TransactionType::Deposit, 1, 100, Some(fine));
    assert_eq!(apply(deposit, &mut accounts, &mut transactions), Outcome::Applied);

    let account = get_account(&accounts, 1).unwrap();
    assert_eq!(account.available, Amount::from_int(1));
    assert_eq!(account.total, Amount::from_int(1));
    // the record keeps the amount exactly as given
    assert_eq!(get_transaction(&transactions, 100).unwrap().amount, fine);
}
