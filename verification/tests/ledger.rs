use amm::error::AmmError;
use amm::ledger::{
    can_deposit, can_register, can_transfer, can_withdraw, holdings, total_supply, Holdings,
};
use near_contract_standards::fungible_token::FungibleToken;
use near_sdk::test_utils::accounts;
use near_sdk::AccountId;

fn empty_ledger() -> FungibleToken {
    let _ = near_sdk::mock::with_mocked_blockchain(|b| b.take_storage());
    FungibleToken::new(b"t".to_vec())
}

/// Alice holds 100, Bob holds 20, Charlie is registered and holds nothing.
fn small_ledger() -> FungibleToken {
    let mut ledger = empty_ledger();
    ledger.internal_register_account(&accounts(0));
    ledger.internal_register_account(&accounts(1));
    ledger.internal_register_account(&accounts(2));
    ledger.internal_deposit(&accounts(0), 100);
    ledger.internal_deposit(&accounts(1), 20);
    ledger
}

fn entry(ledger: &FungibleToken, account: &AccountId) -> Option<u128> {
    holdings(ledger, account, account).account
}

fn entries(ledger: &FungibleToken) -> [Option<u128>; 4] {
    [
        entry(ledger, &accounts(0)),
        entry(ledger, &accounts(1)),
        entry(ledger, &accounts(2)),
        entry(ledger, &accounts(3)),
    ]
}

/// Decides on what the ledger holds, and performs what was accepted.
fn transfer(
    ledger: &mut FungibleToken,
    from: &AccountId,
    to: &AccountId,
    amount: u128,
) -> Result<(), AmmError> {
    let seen = holdings(ledger, to, from);
    can_transfer(from == to, seen.account, seen.pool, seen.total_supply, amount)?;
    ledger.internal_transfer(from, to, amount, None);
    Ok(())
}

fn deposit(ledger: &mut FungibleToken, account: &AccountId, amount: u128) -> Result<(), AmmError> {
    can_deposit(entry(ledger, account), total_supply(ledger), amount)?;
    ledger.internal_deposit(account, amount);
    Ok(())
}

fn withdraw(ledger: &mut FungibleToken, account: &AccountId, amount: u128) -> Result<(), AmmError> {
    can_withdraw(entry(ledger, account), total_supply(ledger), amount)?;
    ledger.internal_withdraw(account, amount);
    Ok(())
}

fn register(ledger: &mut FungibleToken, account: &AccountId) -> Result<(), AmmError> {
    can_register(entry(ledger, account))?;
    ledger.internal_register_account(account);
    Ok(())
}

#[test]
fn a_read_shows_what_the_ledger_holds() {
    let ledger = small_ledger();
    assert_eq!(
        holdings(&ledger, &accounts(0), &accounts(1)),
        Holdings { pool: Some(100), account: Some(20), total_supply: 120 }
    );
    assert_eq!(
        holdings(&ledger, &accounts(3), &accounts(2)),
        Holdings { pool: None, account: Some(0), total_supply: 120 }
    );
    assert_eq!(total_supply(&ledger), 120);
    assert_eq!(total_supply(&empty_ledger()), 0);
}

#[test]
fn an_account_is_registered_once() {
    assert_eq!(can_register(None), Ok(()));
    assert_eq!(can_register(Some(0)), Err(AmmError::AccountAlreadyRegistered));
    assert_eq!(can_register(Some(7)), Err(AmmError::AccountAlreadyRegistered));
    let mut ledger = empty_ledger();
    assert_eq!(entry(&ledger, &accounts(0)), None);
    assert_eq!(register(&mut ledger, &accounts(0)), Ok(()));
    assert_eq!(entry(&ledger, &accounts(0)), Some(0));
    assert_eq!(deposit(&mut ledger, &accounts(0), 7), Ok(()));
    assert_eq!(register(&mut ledger, &accounts(0)), Err(AmmError::AccountAlreadyRegistered));
    assert_eq!(entry(&ledger, &accounts(0)), Some(7));
    assert_eq!(entry(&ledger, &accounts(1)), None);
    assert_eq!(total_supply(&ledger), 7);
}

#[test]
fn a_deposit_is_decided_on_the_balance_and_the_supply() {
    assert_eq!(can_deposit(None, 0, 5), Err(AmmError::AccountNotRegistered));
    assert_eq!(can_deposit(None, u128::MAX, u128::MAX), Err(AmmError::AccountNotRegistered));
    assert_eq!(can_deposit(Some(100), 120, u128::MAX - 99), Err(AmmError::BalanceOverflow));
    assert_eq!(can_deposit(Some(0), 120, u128::MAX - 119), Err(AmmError::TotalSupplyOverflow));
    assert_eq!(can_deposit(Some(u128::MAX), u128::MAX, 1), Err(AmmError::BalanceOverflow));
    assert_eq!(can_deposit(Some(0), 120, u128::MAX - 120), Ok(()));
    assert_eq!(can_deposit(Some(0), 0, 0), Ok(()));
    assert_eq!(can_deposit(Some(u128::MAX), u128::MAX, 0), Ok(()));
}

#[test]
fn a_deposit_adds_to_the_account_and_to_the_supply() {
    let mut ledger = small_ledger();
    assert_eq!(entries(&ledger), [Some(100), Some(20), Some(0), None]);
    assert_eq!(deposit(&mut ledger, &accounts(2), 5), Ok(()));
    assert_eq!(deposit(&mut ledger, &accounts(2), 0), Ok(()));
    assert_eq!(entries(&ledger), [Some(100), Some(20), Some(5), None]);
    assert_eq!(total_supply(&ledger), 125);
    assert_eq!(deposit(&mut ledger, &accounts(3), 5), Err(AmmError::AccountNotRegistered));
    assert_eq!(deposit(&mut ledger, &accounts(0), u128::MAX - 99), Err(AmmError::BalanceOverflow));
    assert_eq!(
        deposit(&mut ledger, &accounts(2), u128::MAX - 124),
        Err(AmmError::TotalSupplyOverflow)
    );
    assert_eq!(deposit(&mut ledger, &accounts(2), u128::MAX - 125), Ok(()));
    assert_eq!(entries(&ledger), [Some(100), Some(20), Some(u128::MAX - 120), None]);
    assert_eq!(total_supply(&ledger), u128::MAX);
}

#[test]
fn a_withdrawal_is_decided_on_the_balance_and_the_supply() {
    assert_eq!(can_withdraw(None, 120, 0), Err(AmmError::AccountNotRegistered));
    assert_eq!(can_withdraw(Some(100), 120, 101), Err(AmmError::InsufficientBalance));
    assert_eq!(can_withdraw(Some(0), 120, 1), Err(AmmError::InsufficientBalance));
    assert_eq!(can_withdraw(Some(100), 50, 51), Err(AmmError::TotalSupplyOverflow));
    assert_eq!(can_withdraw(Some(100), 50, 101), Err(AmmError::InsufficientBalance));
    assert_eq!(can_withdraw(Some(100), 120, 100), Ok(()));
    assert_eq!(can_withdraw(Some(0), 0, 0), Ok(()));
}

#[test]
fn a_withdrawal_takes_from_the_account_and_from_the_supply() {
    let mut ledger = small_ledger();
    assert_eq!(withdraw(&mut ledger, &accounts(0), 30), Ok(()));
    assert_eq!(entries(&ledger), [Some(70), Some(20), Some(0), None]);
    assert_eq!(total_supply(&ledger), 90);
    assert_eq!(withdraw(&mut ledger, &accounts(0), 71), Err(AmmError::InsufficientBalance));
    assert_eq!(withdraw(&mut ledger, &accounts(3), 0), Err(AmmError::AccountNotRegistered));
    assert_eq!(withdraw(&mut ledger, &accounts(0), 70), Ok(()));
    assert_eq!(withdraw(&mut ledger, &accounts(2), 0), Ok(()));
    assert_eq!(entries(&ledger), [Some(0), Some(20), Some(0), None]);
    assert_eq!(total_supply(&ledger), 20);
}

#[test]
fn a_withdrawal_that_the_supply_does_not_cover_is_refused() {
    let mut ledger = small_ledger();
    // A ledger whose supply was set below what its accounts hold.
    ledger.total_supply = 50;
    assert_eq!(withdraw(&mut ledger, &accounts(0), 51), Err(AmmError::TotalSupplyOverflow));
    assert_eq!(
        transfer(&mut ledger, &accounts(0), &accounts(1), 51),
        Err(AmmError::TotalSupplyOverflow)
    );
    assert_eq!(entries(&ledger), [Some(100), Some(20), Some(0), None]);
    assert_eq!(withdraw(&mut ledger, &accounts(0), 50), Ok(()));
    assert_eq!(entries(&ledger), [Some(50), Some(20), Some(0), None]);
    assert_eq!(total_supply(&ledger), 0);
}

#[test]
fn a_transfer_is_decided_in_the_order_of_the_ledger() {
    let refused = |e| Err::<(), AmmError>(e);
    assert_eq!(can_transfer(true, Some(9), Some(9), 9, 1), refused(AmmError::SameAccount));
    assert_eq!(can_transfer(true, None, None, 0, 0), refused(AmmError::SameAccount));
    assert_eq!(can_transfer(false, None, None, 0, 0), refused(AmmError::ZeroAmount));
    assert_eq!(can_transfer(false, Some(9), Some(9), 18, 0), refused(AmmError::ZeroAmount));
    assert_eq!(can_transfer(false, None, Some(9), 9, 1), refused(AmmError::AccountNotRegistered));
    assert_eq!(can_transfer(false, Some(9), None, 9, 10), refused(AmmError::InsufficientBalance));
    assert_eq!(can_transfer(false, Some(9), None, 8, 9), refused(AmmError::TotalSupplyOverflow));
    assert_eq!(can_transfer(false, Some(9), None, 9, 9), refused(AmmError::AccountNotRegistered));
    assert_eq!(
        can_transfer(false, Some(9), Some(u128::MAX - 8), 9, 9),
        refused(AmmError::BalanceOverflow)
    );
    assert_eq!(can_transfer(false, Some(9), Some(u128::MAX - 9), 9, 9), Ok(()));
    assert_eq!(can_transfer(false, Some(9), Some(0), u128::MAX, 9), Ok(()));
}

#[test]
fn a_transfer_moves_the_amount_and_keeps_the_supply() {
    let mut ledger = small_ledger();
    assert_eq!(transfer(&mut ledger, &accounts(0), &accounts(2), 60), Ok(()));
    assert_eq!(entries(&ledger), [Some(40), Some(20), Some(60), None]);
    assert_eq!(transfer(&mut ledger, &accounts(2), &accounts(1), 60), Ok(()));
    assert_eq!(entries(&ledger), [Some(40), Some(80), Some(0), None]);
    assert_eq!(total_supply(&ledger), 120);
    assert_eq!(transfer(&mut ledger, &accounts(0), &accounts(0), 1), Err(AmmError::SameAccount));
    assert_eq!(transfer(&mut ledger, &accounts(0), &accounts(1), 0), Err(AmmError::ZeroAmount));
    assert_eq!(
        transfer(&mut ledger, &accounts(3), &accounts(1), 1),
        Err(AmmError::AccountNotRegistered)
    );
    assert_eq!(
        transfer(&mut ledger, &accounts(0), &accounts(1), 41),
        Err(AmmError::InsufficientBalance)
    );
    assert_eq!(
        transfer(&mut ledger, &accounts(0), &accounts(3), 1),
        Err(AmmError::AccountNotRegistered)
    );
    assert_eq!(entries(&ledger), [Some(40), Some(80), Some(0), None]);
}

#[test]
fn a_transfer_that_the_receiver_cannot_hold_is_refused() {
    let mut ledger = small_ledger();
    assert_eq!(withdraw(&mut ledger, &accounts(0), 100), Ok(()));
    assert_eq!(deposit(&mut ledger, &accounts(2), u128::MAX - 20), Ok(()));
    assert_eq!(entries(&ledger), [Some(0), Some(20), Some(u128::MAX - 20), None]);
    // A ledger whose accounts hold more than its supply can say: the
    // receiver's balance would leave 128 bits.
    ledger.total_supply = 20;
    assert_eq!(transfer(&mut ledger, &accounts(1), &accounts(2), 20), Ok(()));
    assert_eq!(deposit(&mut ledger, &accounts(1), 1), Ok(()));
    assert_eq!(
        transfer(&mut ledger, &accounts(1), &accounts(2), 1),
        Err(AmmError::BalanceOverflow)
    );
    assert_eq!(entries(&ledger), [Some(0), Some(1), Some(u128::MAX), None]);
    assert_eq!(total_supply(&ledger), 21);
}

#[test]
fn two_ledgers_over_one_prefix_are_one_table() {
    let mut one = empty_ledger();
    let other = FungibleToken::new(b"t".to_vec());
    let apart = FungibleToken::new(b"u".to_vec());
    assert_eq!(entry(&other, &accounts(0)), None);
    assert_eq!(register(&mut one, &accounts(0)), Ok(()));
    assert_eq!(deposit(&mut one, &accounts(0), 9), Ok(()));
    // What a ledger holds is what the storage holds under its prefix.
    assert_eq!(entry(&other, &accounts(0)), Some(9));
    assert_eq!(entry(&apart, &accounts(0)), None);
    // The total supply is the ledger's own.
    assert_eq!(total_supply(&one), 9);
    assert_eq!(total_supply(&other), 0);
}
