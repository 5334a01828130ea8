use ledger_runtime::balances::{Pallet, TransferError};

#[test]
fn init_balances() {
    let mut balances = Pallet::new();

    assert_eq!(balances.balance(&"alice".to_string()), 0);
    balances.set_balance(&"alice".to_string(), 100);
    assert_eq!(balances.balance(&"alice".to_string()), 100);
    assert_eq!(balances.balance(&"bob".to_string()), 0);
}

#[test]
fn unwritten_accounts_read_zero() {
    let mut balances = Pallet::new();
    assert_eq!(balances.balance(&"alice".to_string()), 0);
    assert_eq!(balances.balance(&"".to_string()), 0);
    balances.set_balance(&"alice".to_string(), 7);
    assert_eq!(balances.balance(&"bob".to_string()), 0);
    assert_eq!(balances.balance(&"".to_string()), 0);
}

#[test]
fn set_then_get_returns_written_value() {
    let mut balances = Pallet::new();
    balances.set_balance(&"alice".to_string(), 42);
    assert_eq!(balances.balance(&"alice".to_string()), 42);
    balances.set_balance(&"alice".to_string(), 0);
    assert_eq!(balances.balance(&"alice".to_string()), 0);
    balances.set_balance(&"alice".to_string(), u128::MAX);
    assert_eq!(balances.balance(&"alice".to_string()), u128::MAX);
}

#[test]
fn empty_string_is_a_legal_account() {
    let mut balances = Pallet::new();
    balances.set_balance(&"".to_string(), 9);
    assert_eq!(balances.balance(&"".to_string()), 9);
    assert_eq!(balances.balance(&"a".to_string()), 0);
}

#[test]
fn transfer_of_zero_is_rejected() {
    let mut balances = Pallet::new();
    balances.set_balance(&"alice".to_string(), 1000);
    balances.set_balance(&"bob".to_string(), 500);
    let r = balances.transfer("alice".to_string(), "bob".to_string(), 0);
    assert_eq!(r, Err(TransferError::ZeroAmount));
    assert_eq!(balances.balance(&"alice".to_string()), 1000);
    assert_eq!(balances.balance(&"bob".to_string()), 500);

    let mut empty = Pallet::new();
    let r2 = empty.transfer("alice".to_string(), "bob".to_string(), 0);
    assert_eq!(r2, Err(TransferError::ZeroAmount));
}

#[test]
fn transfer_beyond_balance_is_rejected() {
    let mut balances = Pallet::new();
    balances.set_balance(&"alice".to_string(), 100);
    balances.set_balance(&"bob".to_string(), 5);
    let r = balances.transfer("alice".to_string(), "bob".to_string(), 101);
    assert_eq!(r, Err(TransferError::InsufficientBalance));
    assert_eq!(balances.balance(&"alice".to_string()), 100);
    assert_eq!(balances.balance(&"bob".to_string()), 5);

    let r2 = balances.transfer("carol".to_string(), "bob".to_string(), 1);
    assert_eq!(r2, Err(TransferError::InsufficientBalance));
    assert_eq!(balances.balance(&"bob".to_string()), 5);
}

#[test]
fn transfer_moves_exactly_the_amount() {
    let mut balances = Pallet::new();
    balances.set_balance(&"alice".to_string(), 1000);
    balances.set_balance(&"bob".to_string(), 500);
    let r = balances.transfer("alice".to_string(), "bob".to_string(), 200);
    assert_eq!(r, Ok(()));
    assert_eq!(balances.balance(&"alice".to_string()), 800);
    assert_eq!(balances.balance(&"bob".to_string()), 700);
    assert_eq!(
        balances.balance(&"alice".to_string()) + balances.balance(&"bob".to_string()),
        1500
    );
}

#[test]
fn transfer_to_an_unwritten_account_creates_it() {
    let mut balances = Pallet::new();
    balances.set_balance(&"alice".to_string(), 10);
    let r = balances.transfer("alice".to_string(), "bob".to_string(), 10);
    assert_eq!(r, Ok(()));
    assert_eq!(balances.balance(&"alice".to_string()), 0);
    assert_eq!(balances.balance(&"bob".to_string()), 10);
}

#[test]
fn transfer_overflowing_the_recipient_is_rejected() {
    let mut balances = Pallet::new();
    balances.set_balance(&"alice".to_string(), 10);
    balances.set_balance(&"bob".to_string(), u128::MAX);
    let r = balances.transfer("alice".to_string(), "bob".to_string(), 1);
    assert_eq!(r, Err(TransferError::RecipientOverflow));
    assert_eq!(balances.balance(&"alice".to_string()), 10);
    assert_eq!(balances.balance(&"bob".to_string()), u128::MAX);
}

#[test]
fn self_transfer_leaves_the_balance_unchanged() {
    let mut balances = Pallet::new();
    balances.set_balance(&"alice".to_string(), 300);
    let r = balances.transfer("alice".to_string(), "alice".to_string(), 200);
    assert_eq!(r, Ok(()));
    assert_eq!(balances.balance(&"alice".to_string()), 300);
}

#[test]
fn self_transfer_beyond_balance_is_rejected() {
    let mut balances = Pallet::new();
    balances.set_balance(&"alice".to_string(), 100);
    let r = balances.transfer("alice".to_string(), "alice".to_string(), 101);
    assert_eq!(r, Err(TransferError::InsufficientBalance));
    assert_eq!(balances.balance(&"alice".to_string()), 100);
}

#[test]
fn self_transfer_whose_credit_would_overflow_is_rejected() {
    let mut balances = Pallet::new();
    balances.set_balance(&"alice".to_string(), u128::MAX);
    let r = balances.transfer("alice".to_string(), "alice".to_string(), 1);
    assert_eq!(r, Err(TransferError::RecipientOverflow));
    assert_eq!(balances.balance(&"alice".to_string()), u128::MAX);
}
