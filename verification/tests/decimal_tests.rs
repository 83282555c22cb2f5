use ledger_engine::account::{mutate_account_balance, truncate_to_4};
use ledger_engine::decimal::Amount;
use ledger_engine::models::Account;

fn dec(mantissa: i128, scale: u32) -> Amount {
    Amount::from_scaled(mantissa, scale).unwrap()
}

#[test]
fn test_truncate_to_4() {
    assert_eq!(truncate_to_4(dec(12345678, 5)), dec(1234567, 4));

    assert_eq!(truncate_to_4(dec(12345, 2)), dec(12345, 2));
}

#[test]
fn test_mutate_account_balance() {
    let mut account = Account {
        client: 1,
        available: Amount::from_int(100),
        held: Amount::from_int(50),
        total: Amount::from_int(150),
        locked: false,
    };

    mutate_account_balance(
        &mut account,
        Amount::from_int(10),
        Amount::from_int(5),
        Amount::from_int(15),
    );

    assert_eq!(account.available, Amount::from_int(110));
    assert_eq!(account.held, Amount::from_int(55));
    assert_eq!(account.total, Amount::from_int(165));
}

#[test]
fn truncate_negative_toward_zero() {
    // -1.00005 truncates to -1.0000, never away from zero
    assert_eq!(truncate_to_4(dec(-100005, 5)), dec(-10000, 4));
    // magnitude never grows
    assert!(truncate_to_4(dec(-99999999, 8)).units >= dec(-99999999, 8).units);
}

#[test]
fn truncate_small_values_to_zero() {
    assert_eq!(truncate_to_4(dec(1, 8)), Amount::zero());
    assert_eq!(truncate_to_4(dec(-1, 8)), Amount::zero());
    assert_eq!(truncate_to_4(Amount::zero()), Amount::zero());
}

#[test]
fn from_scaled_rejects_deep_scales() {
    assert!(Amount::from_scaled(1, 9).is_none());
    assert_eq!(Amount::from_scaled(15, 1).unwrap(), Amount::from_scaled(1500, 3).unwrap());
    assert_eq!(Amount::from_int(2), Amount::from_scaled(2, 0).unwrap());
}

#[test]
fn mutate_truncates_each_field() {
    let mut account = Account {
        client: 7,
        available: Amount::from_int(1),
        held: Amount::zero(),
        total: Amount::from_int(1),
        locked: false,
    };
    // adding 0.00005 to available and total is truncated away
    mutate_account_balance(&mut account, dec(5, 5), Amount::zero(), dec(5, 5));
    assert_eq!(account.available, Amount::from_int(1));
    assert_eq!(account.held, Amount::zero());
    assert_eq!(account.total, Amount::from_int(1));
}
