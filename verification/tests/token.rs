use qrasl_ledgers::Origin;
use qrasl_ledgers::token::{Error, Event, Pallet};

#[test]
fn initial_total_supply_should_be_zero() {
    let ledger = Pallet::new();
    assert_eq!(ledger.total_supply(), 0);
}

#[test]
fn mint_works() {
    let mut ledger = Pallet::new();
    assert_eq!(
        ledger.mint(Origin::Root, 1, 100),
        Ok(Event::Minted { who: 1, amount: 100 })
    );
    assert_eq!(ledger.account_balance(1), 100);
    assert_eq!(ledger.total_supply(), 100);

    assert_eq!(
        ledger.mint(Origin::Root, 2, 50),
        Ok(Event::Minted { who: 2, amount: 50 })
    );
    assert_eq!(ledger.account_balance(2), 50);
    assert_eq!(ledger.total_supply(), 150);
}

#[test]
fn mint_fails_for_non_root_origin() {
    let mut ledger = Pallet::new();
    assert_eq!(ledger.mint(Origin::Signed(1), 1, 100), Err(Error::BadOrigin));
    assert_eq!(ledger.account_balance(1), 0);
    assert_eq!(ledger.total_supply(), 0);
}

#[test]
fn mint_fails_for_zero_amount() {
    let mut ledger = Pallet::new();
    assert_eq!(
        ledger.mint(Origin::Root, 1, 0),
        Err(Error::AmountMustBePositive)
    );
    assert_eq!(ledger.total_supply(), 0);
}

#[test]
fn mint_fails_on_total_supply_overflow() {
    let mut ledger = Pallet::new();
    ledger.mint(Origin::Root, 1, u64::MAX).unwrap();
    assert_eq!(ledger.mint(Origin::Root, 2, 1), Err(Error::Overflow));
    assert_eq!(ledger.total_supply(), u64::MAX);
    assert_eq!(ledger.account_balance(2), 0);
}

#[test]
fn mint_fails_on_balance_overflow() {
    let mut ledger = Pallet::new();
    ledger.mint(Origin::Root, 1, u64::MAX).unwrap();
    assert_eq!(ledger.mint(Origin::Root, 1, 1), Err(Error::Overflow));
    assert_eq!(ledger.account_balance(1), u64::MAX);
}

#[test]
fn transfer_works() {
    let mut ledger = Pallet::new();
    assert!(ledger.mint(Origin::Root, 1, 100).is_ok());
    assert_eq!(
        ledger.transfer(Origin::Signed(1), 2, 30),
        Ok(Event::Transferred { from: 1, to: 2, amount: 30 })
    );
    assert_eq!(ledger.account_balance(1), 70);
    assert_eq!(ledger.account_balance(2), 30);
    assert_eq!(ledger.total_supply(), 100);
}

#[test]
fn transfer_fails_on_insufficient_balance() {
    let mut ledger = Pallet::new();
    assert!(ledger.mint(Origin::Root, 1, 20).is_ok());
    assert_eq!(
        ledger.transfer(Origin::Signed(1), 2, 30),
        Err(Error::InsufficientBalance)
    );
    assert_eq!(ledger.account_balance(1), 20);
    assert_eq!(ledger.account_balance(2), 0);
}

#[test]
fn transfer_fails_for_zero_amount() {
    let mut ledger = Pallet::new();
    assert!(ledger.mint(Origin::Root, 1, 100).is_ok());
    assert_eq!(
        ledger.transfer(Origin::Signed(1), 2, 0),
        Err(Error::AmountMustBePositive)
    );
    assert_eq!(ledger.account_balance(1), 100);
}

#[test]
fn transfer_to_self_works() {
    let mut ledger = Pallet::new();
    assert!(ledger.mint(Origin::Root, 1, 100).is_ok());
    assert_eq!(
        ledger.transfer(Origin::Signed(1), 1, 30),
        Ok(Event::Transferred { from: 1, to: 1, amount: 30 })
    );
    assert_eq!(ledger.account_balance(1), 100);
    assert_eq!(ledger.total_supply(), 100);
}

#[test]
fn burn_works() {
    let mut ledger = Pallet::new();
    assert!(ledger.mint(Origin::Root, 1, 100).is_ok());
    assert_eq!(
        ledger.burn(Origin::Signed(1), 40),
        Ok(Event::Burned { who: 1, amount: 40 })
    );
    assert_eq!(ledger.account_balance(1), 60);
    assert_eq!(ledger.total_supply(), 60);
}

#[test]
fn burn_fails_on_insufficient_balance() {
    let mut ledger = Pallet::new();
    assert!(ledger.mint(Origin::Root, 1, 30).is_ok());
    assert_eq!(
        ledger.burn(Origin::Signed(1), 40),
        Err(Error::InsufficientBalance)
    );
    assert_eq!(ledger.account_balance(1), 30);
    assert_eq!(ledger.total_supply(), 30);
}

#[test]
fn burn_fails_for_zero_amount() {
    let mut ledger = Pallet::new();
    assert!(ledger.mint(Origin::Root, 1, 100).is_ok());
    assert_eq!(
        ledger.burn(Origin::Signed(1), 0),
        Err(Error::AmountMustBePositive)
    );
    assert_eq!(ledger.account_balance(1), 100);
}

#[test]
fn burn_all_tokens_works() {
    let mut ledger = Pallet::new();
    assert!(ledger.mint(Origin::Root, 1, 100).is_ok());
    assert_eq!(
        ledger.burn(Origin::Signed(1), 100),
        Ok(Event::Burned { who: 1, amount: 100 })
    );
    assert_eq!(ledger.account_balance(1), 0);
    assert_eq!(ledger.total_supply(), 0);
}

#[test]
fn burn_fails_on_total_supply_underflow_if_burning_more_than_total_supply_from_account_with_enough_balance(
) {
    let mut ledger = Pallet::new();
    // Inject an inconsistent state directly, as raw storage writes can:
    // the account holds more than the recorded issuance.
    ledger.set_balance(1, 200);
    ledger.set_total_supply(100);

    assert_eq!(ledger.burn(Origin::Signed(1), 150), Err(Error::Underflow));
    assert_eq!(ledger.account_balance(1), 200);
    assert_eq!(ledger.total_supply(), 100);
}

#[test]
fn transfer_requires_signed_caller() {
    let mut ledger = Pallet::new();
    assert!(ledger.mint(Origin::Root, 1, 100).is_ok());
    assert_eq!(ledger.transfer(Origin::Root, 2, 10), Err(Error::BadOrigin));
    assert_eq!(ledger.transfer(Origin::Unsigned, 2, 10), Err(Error::BadOrigin));
    assert_eq!(ledger.account_balance(1), 100);
    assert_eq!(ledger.account_balance(2), 0);
}

#[test]
fn burn_requires_signed_caller() {
    let mut ledger = Pallet::new();
    assert!(ledger.mint(Origin::Root, 1, 100).is_ok());
    assert_eq!(ledger.burn(Origin::Root, 10), Err(Error::BadOrigin));
    assert_eq!(ledger.burn(Origin::Unsigned, 10), Err(Error::BadOrigin));
    assert_eq!(ledger.total_supply(), 100);
}

#[test]
fn transfer_fails_on_receiver_overflow() {
    let mut ledger = Pallet::new();
    assert!(ledger.mint(Origin::Root, 1, 5).is_ok());
    ledger.set_balance(2, u64::MAX);
    assert_eq!(ledger.transfer(Origin::Signed(1), 2, 5), Err(Error::Overflow));
    assert_eq!(ledger.account_balance(1), 5);
    assert_eq!(ledger.account_balance(2), u64::MAX);
}

#[test]
fn supply_matches_sum_of_balances_after_mixed_calls() {
    let mut ledger = Pallet::new();
    assert!(ledger.mint(Origin::Root, 1, 100).is_ok());
    assert!(ledger.mint(Origin::Root, 2, 40).is_ok());
    assert!(ledger.transfer(Origin::Signed(1), 3, 25).is_ok());
    assert!(ledger.burn(Origin::Signed(2), 15).is_ok());
    assert!(ledger.transfer(Origin::Signed(3), 3, 5).is_ok());
    let sum: u64 =
        ledger.account_balance(1) + ledger.account_balance(2) + ledger.account_balance(3);
    assert_eq!(ledger.total_supply(), sum);
    assert_eq!(ledger.total_supply(), 125);
}
