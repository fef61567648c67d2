use state_machine::balances::BalancesModule;
use state_machine::errors::ErrorKind;
use state_machine::proof_of_existence::POEModule;
use state_machine::system::SystemModule;

#[test]
fn init_balance() {
    let mut balances = BalancesModule::new();
    let alice = String::from("alice");
    let bob = String::from("bob");

    assert_eq!(balances.balance(&alice), 0);
    balances.set_balance(alice.clone(), 100);
    assert_eq!(balances.balance(&alice), 100);
    assert_eq!(balances.balance(&bob), 0);
}

#[test]
fn transfer_balance() {
    let mut balances = BalancesModule::new();
    let alice = String::from("alice");
    let bob = String::from("bob");

    assert_eq!(balances.transfer(&alice, &bob, 51), Err(ErrorKind::InsufficientFunds));

    balances.set_balance(alice.clone(), 100);
    assert_eq!(balances.transfer(&alice, &bob, 51), Ok(()));
    assert_eq!(balances.balance(&alice), 49);
    assert_eq!(balances.balance(&bob), 51);

    assert_eq!(balances.transfer(&alice, &bob, 51), Err(ErrorKind::InsufficientFunds));
}

#[test]
fn transfer_conserves_total() {
    let mut balances = BalancesModule::new();
    let alice = String::from("alice");
    let bob = String::from("bob");

    balances.set_balance(alice.clone(), 70);
    balances.set_balance(bob.clone(), 30);
    let before = balances.balance(&alice) + balances.balance(&bob);
    assert_eq!(balances.transfer(&alice, &bob, 70), Ok(()));
    assert_eq!(balances.balance(&alice) + balances.balance(&bob), before);
    assert_eq!(balances.balance(&alice), 0);
    assert_eq!(balances.balance(&bob), 100);
}

#[test]
fn self_transfer_leaves_balance_unchanged() {
    let mut balances = BalancesModule::new();
    let alice = String::from("alice");

    balances.set_balance(alice.clone(), 40);
    assert_eq!(balances.transfer(&alice, &alice, 25), Ok(()));
    assert_eq!(balances.balance(&alice), 40);
    assert_eq!(balances.transfer(&alice, &alice, 41), Err(ErrorKind::InsufficientFunds));
    assert_eq!(balances.balance(&alice), 40);
}

#[test]
fn transfer_overflow_changes_nothing() {
    let mut balances = BalancesModule::new();
    let alice = String::from("alice");
    let bob = String::from("bob");

    balances.set_balance(alice.clone(), 5);
    balances.set_balance(bob.clone(), u128::MAX);
    assert_eq!(balances.transfer(&alice, &bob, 1), Err(ErrorKind::Overflow));
    assert_eq!(balances.balance(&alice), 5);
    assert_eq!(balances.balance(&bob), u128::MAX);
}

#[test]
fn insufficient_funds_changes_nothing() {
    let mut balances = BalancesModule::new();
    let alice = String::from("alice");
    let bob = String::from("bob");

    balances.set_balance(alice.clone(), 10);
    assert_eq!(balances.transfer(&alice, &bob, 11), Err(ErrorKind::InsufficientFunds));
    assert_eq!(balances.balance(&alice), 10);
    assert_eq!(balances.balance(&bob), 0);
}

#[test]
fn claim_lifecycle() {
    let mut poe = POEModule::new();
    let alice = String::from("alice");
    let bob = String::from("bob");
    let claim = String::from("Hello, world!");

    assert_eq!(poe.get_claim(&claim), None);
    assert_eq!(poe.create_claim(&alice, &claim), Ok(()));
    assert_eq!(poe.get_claim(&claim), Some(alice.clone()));

    assert_eq!(poe.create_claim(&bob, &claim), Err(ErrorKind::ClaimAlreadyExists));
    assert_eq!(poe.get_claim(&claim), Some(alice.clone()));

    assert_eq!(poe.revoke_claim(&bob, &claim), Err(ErrorKind::NotClaimOwner));
    assert_eq!(poe.get_claim(&claim), Some(alice.clone()));

    assert_eq!(poe.revoke_claim(&alice, &claim), Ok(()));
    assert_eq!(poe.get_claim(&claim), None);
}

#[test]
fn revoke_missing_claim_fails() {
    let mut poe = POEModule::new();
    let alice = String::from("alice");
    let claim = String::from("nothing here");

    assert_eq!(poe.revoke_claim(&alice, &claim), Err(ErrorKind::ClaimNotFound));
    assert_eq!(poe.get_claim(&claim), None);
}

#[test]
fn system_counters_start_at_zero_and_advance() {
    let mut system = SystemModule::new();
    let alice = String::from("alice");

    assert_eq!(system.block_number(), 0);
    assert_eq!(system.nonce(&alice), 0);

    system.inc_block_number();
    assert_eq!(system.block_number(), 1);

    system.inc_nonce(&alice);
    system.inc_nonce(&alice);
    assert_eq!(system.nonce(&alice), 2);
}
