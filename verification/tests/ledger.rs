use erc20::AccountId;
use erc20::Erc20;
use erc20::Error;

// The hosting layer hands every operation the already-authenticated caller;
// these tests play the host with a fixed caller identifier.
fn caller() -> AccountId {
    AccountId::from([0x1; 32])
}

#[test]
fn new_works() {
    let contract = Erc20::new(caller(), 777);
    assert_eq!(contract.total_supply(), 777);
}

#[test]
fn balance_works() {
    let contract = Erc20::new(caller(), 100);
    assert_eq!(contract.total_supply(), 100);
    assert_eq!(contract.balance_of(AccountId::from([0x1; 32])), 100);
    assert_eq!(contract.balance_of(AccountId::from([0x0; 32])), 0);
}

#[test]
fn transfer_works() {
    let mut erc20 = Erc20::new(caller(), 100);
    assert_eq!(erc20.balance_of(AccountId::from([0x0; 32])), 0);
    assert_eq!(erc20.transfer(caller(), AccountId::from([0x0; 32]), 10), Ok(()));
    assert_eq!(erc20.balance_of(AccountId::from([0x0; 32])), 10);
}

#[test]
fn transfer_from_works() {
    let mut erc20 = Erc20::new(caller(), 100);
    assert_eq!(erc20.balance_of(AccountId::from([0x1; 32])), 100);
    let _ = erc20.approve(caller(), AccountId::from([0x1; 32]), 20);
    let _ = erc20.transfer_from(
        caller(),
        AccountId::from([0x1; 32]),
        AccountId::from([0x0; 32]),
        10,
    );
    assert_eq!(erc20.balance_of(AccountId::from([0x0; 32])), 10);
}

#[test]
fn allowances_works() {
    let mut erc20 = Erc20::new(caller(), 100);
    assert_eq!(erc20.balance_of(AccountId::from([0x1; 32])), 100);
    let _ = erc20.approve(caller(), AccountId::from([0x1; 32]), 200);
    assert_eq!(erc20.allowance(AccountId::from([0x1; 32]), AccountId::from([0x1; 32])), 200);

    let _ = erc20.transfer_from(
        caller(),
        AccountId::from([0x1; 32]),
        AccountId::from([0x0; 32]),
        50,
    );
    assert_eq!(erc20.balance_of(AccountId::from([0x0; 32])), 50);
    assert_eq!(erc20.allowance(AccountId::from([0x1; 32]), AccountId::from([0x1; 32])), 150);

    let _ = erc20.transfer_from(
        caller(),
        AccountId::from([0x1; 32]),
        AccountId::from([0x0; 32]),
        100,
    );
    assert_eq!(erc20.balance_of(AccountId::from([0x0; 32])), 50);
    assert_eq!(erc20.allowance(AccountId::from([0x1; 32]), AccountId::from([0x1; 32])), 150);
}

#[test]
fn transfer_moves_exact_value() {
    let b = AccountId::from([0x2; 32]);
    let mut erc20 = Erc20::new(caller(), 100);
    assert_eq!(erc20.transfer(caller(), b, 10), Ok(()));
    assert_eq!(erc20.balance_of(caller()), 90);
    assert_eq!(erc20.balance_of(b), 10);
    assert_eq!(erc20.total_supply(), 100);
}

#[test]
fn transfer_insufficient_balance_changes_nothing() {
    let b = AccountId::from([0x2; 32]);
    let mut erc20 = Erc20::new(caller(), 100);
    assert_eq!(
        erc20.transfer(caller(), b, 150),
        Err(Error::InsufficientBalance)
    );
    assert_eq!(erc20.balance_of(caller()), 100);
    assert_eq!(erc20.balance_of(b), 0);
    assert_eq!(erc20.total_supply(), 100);
}

#[test]
fn transfer_from_insufficient_allowance_changes_nothing() {
    let spender = AccountId::from([0x3; 32]);
    let b = AccountId::from([0x2; 32]);
    let mut erc20 = Erc20::new(caller(), 100);
    let _ = erc20.approve(caller(), spender, 20);
    assert_eq!(
        erc20.transfer_from(spender, caller(), b, 30),
        Err(Error::InsufficientAllowance)
    );
    assert_eq!(erc20.balance_of(caller()), 100);
    assert_eq!(erc20.balance_of(b), 0);
    assert_eq!(erc20.allowance(caller(), spender), 20);
}

#[test]
fn transfer_from_insufficient_balance_keeps_allowance() {
    let spender = AccountId::from([0x3; 32]);
    let b = AccountId::from([0x2; 32]);
    let mut erc20 = Erc20::new(caller(), 100);
    let _ = erc20.approve(caller(), spender, 500);
    assert_eq!(
        erc20.transfer_from(spender, caller(), b, 200),
        Err(Error::InsufficientBalance)
    );
    assert_eq!(erc20.allowance(caller(), spender), 500);
    assert_eq!(erc20.balance_of(caller()), 100);
    assert_eq!(erc20.balance_of(b), 0);
}

#[test]
fn approve_overwrites_previous_value() {
    let spender = AccountId::from([0x3; 32]);
    let mut erc20 = Erc20::new(caller(), 100);
    assert_eq!(erc20.approve(caller(), spender, 20), Ok(()));
    assert_eq!(erc20.approve(caller(), spender, 7), Ok(()));
    assert_eq!(erc20.allowance(caller(), spender), 7);
}

#[test]
fn approve_zero_revokes() {
    let spender = AccountId::from([0x3; 32]);
    let mut erc20 = Erc20::new(caller(), 100);
    let _ = erc20.approve(caller(), spender, 20);
    let _ = erc20.approve(caller(), spender, 0);
    assert_eq!(erc20.allowance(caller(), spender), 0);
}

#[test]
fn approve_may_exceed_balance() {
    let spender = AccountId::from([0x3; 32]);
    let mut erc20 = Erc20::new(caller(), 100);
    assert_eq!(erc20.approve(caller(), spender, 1000), Ok(()));
    assert_eq!(erc20.allowance(caller(), spender), 1000);
}

#[test]
fn self_transfer_keeps_balance() {
    let mut erc20 = Erc20::new(caller(), 100);
    assert_eq!(erc20.transfer(caller(), caller(), 30), Ok(()));
    assert_eq!(erc20.balance_of(caller()), 100);
    assert_eq!(erc20.total_supply(), 100);
}

#[test]
fn self_transfer_needs_balance() {
    let mut erc20 = Erc20::new(caller(), 100);
    assert_eq!(
        erc20.transfer(caller(), caller(), 150),
        Err(Error::InsufficientBalance)
    );
    assert_eq!(erc20.balance_of(caller()), 100);
}

#[test]
fn zero_supply_is_legal() {
    let contract = Erc20::new(caller(), 0);
    assert_eq!(contract.total_supply(), 0);
    assert_eq!(contract.balance_of(caller()), 0);
}

#[test]
fn default_zero_for_untouched_keys() {
    let a = AccountId::from([0x4; 32]);
    let b = AccountId::from([0x5; 32]);
    let erc20 = Erc20::new(caller(), 100);
    assert_eq!(erc20.balance_of(a), 0);
    assert_eq!(erc20.allowance(caller(), b), 0);
    assert_eq!(erc20.allowance(a, b), 0);
}

#[test]
fn allowance_decrements_by_exact_value() {
    let spender = AccountId::from([0x3; 32]);
    let b = AccountId::from([0x2; 32]);
    let mut erc20 = Erc20::new(caller(), 100);
    let _ = erc20.approve(caller(), spender, 200);
    assert_eq!(erc20.transfer_from(spender, caller(), b, 50), Ok(()));
    assert_eq!(erc20.balance_of(b), 50);
    assert_eq!(erc20.allowance(caller(), spender), 150);
    assert_eq!(erc20.transfer_from(spender, caller(), b, 100), Err(Error::InsufficientBalance));
    assert_eq!(erc20.allowance(caller(), spender), 150);
    assert_eq!(erc20.balance_of(b), 50);
}
