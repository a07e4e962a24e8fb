use vesting_ledger::account::AccountId;
use vesting_ledger::errors::{AccessControlError, OwnableError, PausableError, PSP22Error};
use vesting_ledger::psp22::{PSP22Data, PSP22Event};

fn acc(id: u128) -> AccountId {
    AccountId::new(id)
}

#[test]
fn mint_transfer_burn_conserve_supply() {
    let mut l = PSP22Data::new();
    let a = acc(1);
    let b = acc(2);
    assert_eq!(l.mint(a, 1000), Ok(()));
    assert_eq!(l.transfer(a, b, 300), Ok(()));
    assert_eq!(l.burn(a, 100), Ok(()));
    assert_eq!(l.balance_of(a), 600);
    assert_eq!(l.balance_of(b), 300);
    assert_eq!(l.total_supply(), 900);
    assert_eq!(l.balance_of(a) + l.balance_of(b), l.total_supply());
}

#[test]
fn ledger_events_record_every_operation() {
    let mut l = PSP22Data::new();
    let a = acc(1);
    let b = acc(2);
    l.mint(a, 50).unwrap();
    l.transfer(a, b, 20).unwrap();
    l.burn(b, 5).unwrap();
    let ev = l.events();
    assert_eq!(ev.len(), 3);
    assert_eq!(ev[0], PSP22Event::Transfer { from: None, to: Some(a), amount: 50 });
    assert_eq!(ev[1], PSP22Event::Transfer { from: Some(a), to: Some(b), amount: 20 });
    assert_eq!(ev[2], PSP22Event::Transfer { from: Some(b), to: None, amount: 5 });
}

#[test]
fn mint_to_null_account_is_rejected() {
    let mut l = PSP22Data::new();
    assert_eq!(l.mint(AccountId::null(), 10), Err(PSP22Error::ZeroRecipientAddress));
    assert_eq!(l.total_supply(), 0);
}

#[test]
fn burn_from_null_account_is_rejected() {
    let mut l = PSP22Data::new();
    assert_eq!(l.burn(AccountId::null(), 10), Err(PSP22Error::ZeroSenderAddress));
}

#[test]
fn burn_more_than_balance_is_rejected() {
    let mut l = PSP22Data::new();
    let a = acc(1);
    l.mint(a, 10).unwrap();
    assert_eq!(l.burn(a, 11), Err(PSP22Error::InsufficientBalance));
    assert_eq!(l.balance_of(a), 10);
    assert_eq!(l.total_supply(), 10);
}

#[test]
fn mint_overflow_is_rejected_and_changes_nothing() {
    let mut l = PSP22Data::new();
    let a = acc(1);
    l.mint(a, u128::MAX).unwrap();
    assert_eq!(l.mint(a, 1), Err(PSP22Error::Overflow));
    assert_eq!(l.balance_of(a), u128::MAX);
    assert_eq!(l.total_supply(), u128::MAX);
    assert_eq!(l.events().len(), 1);
}

#[test]
fn transfer_failure_leaves_everything_unchanged() {
    let mut l = PSP22Data::new();
    let a = acc(1);
    let b = acc(2);
    l.mint(a, 100).unwrap();
    assert_eq!(l.transfer(a, b, 101), Err(PSP22Error::InsufficientBalance));
    assert_eq!(l.transfer(AccountId::null(), b, 1), Err(PSP22Error::ZeroSenderAddress));
    assert_eq!(l.transfer(a, AccountId::null(), 1), Err(PSP22Error::ZeroRecipientAddress));
    assert_eq!(l.balance_of(a), 100);
    assert_eq!(l.balance_of(b), 0);
    assert_eq!(l.events().len(), 1);
}

#[test]
fn self_transfer_moves_nothing_but_is_recorded() {
    let mut l = PSP22Data::new();
    let a = acc(1);
    l.mint(a, 100).unwrap();
    assert_eq!(l.transfer(a, a, 40), Ok(()));
    assert_eq!(l.balance_of(a), 100);
    assert_eq!(l.total_supply(), 100);
    assert_eq!(
        l.events()[1],
        PSP22Event::Transfer { from: Some(a), to: Some(a), amount: 40 }
    );
}

#[test]
fn allowance_lifecycle() {
    let mut l = PSP22Data::new();
    let owner = acc(1);
    let spender = acc(2);
    assert_eq!(l.allowance(owner, spender), 0);
    assert_eq!(l.increase_allowance(owner, spender, 70), Ok(()));
    assert_eq!(l.allowance(owner, spender), 70);
    assert_eq!(l.decrease_allowance(owner, spender, 30), Ok(()));
    assert_eq!(l.allowance(owner, spender), 40);
    assert_eq!(l.decrease_allowance(owner, spender, 41), Err(PSP22Error::InsufficientAllowance));
    assert_eq!(l.allowance(owner, spender), 40);
    assert_eq!(
        l.events()[0],
        PSP22Event::Approval { owner, spender, amount: 70 }
    );
    assert_eq!(
        l.events()[1],
        PSP22Event::Approval { owner, spender, amount: 40 }
    );
}

#[test]
fn increase_allowance_overflow_is_rejected() {
    let mut l = PSP22Data::new();
    let owner = acc(1);
    let spender = acc(2);
    l.increase_allowance(owner, spender, u128::MAX).unwrap();
    assert_eq!(l.increase_allowance(owner, spender, 1), Err(PSP22Error::Overflow));
    assert_eq!(l.allowance(owner, spender), u128::MAX);
}

#[test]
fn transfer_from_consumes_allowance() {
    let mut l = PSP22Data::new();
    let owner = acc(1);
    let spender = acc(2);
    let dest = acc(3);
    l.mint(owner, 100).unwrap();
    l.increase_allowance(owner, spender, 60).unwrap();
    assert_eq!(l.transfer_from(spender, owner, dest, 50), Ok(()));
    assert_eq!(l.balance_of(owner), 50);
    assert_eq!(l.balance_of(dest), 50);
    assert_eq!(l.allowance(owner, spender), 10);
    assert_eq!(l.transfer_from(spender, owner, dest, 11), Err(PSP22Error::InsufficientAllowance));
    assert_eq!(l.balance_of(owner), 50);
    assert_eq!(l.allowance(owner, spender), 10);
}

#[test]
fn transfer_from_without_allowance_is_rejected() {
    let mut l = PSP22Data::new();
    let owner = acc(1);
    let spender = acc(2);
    let dest = acc(3);
    l.mint(owner, 100).unwrap();
    assert_eq!(l.transfer_from(spender, owner, dest, 1), Err(PSP22Error::InsufficientAllowance));
    assert_eq!(l.balance_of(owner), 100);
    assert_eq!(l.balance_of(dest), 0);
}

#[test]
fn error_conversions_tag_their_source() {
    assert_eq!(
        PSP22Error::from_ownable(OwnableError::CallerIsNotOwner),
        PSP22Error::Custom("O::CallerIsNotOwner".to_owned())
    );
    assert_eq!(
        PSP22Error::from_ownable(OwnableError::ActionRedundant),
        PSP22Error::Custom("O::ActionRedundant".to_owned())
    );
    assert_eq!(
        PSP22Error::from_access_control(AccessControlError::MissingRole),
        PSP22Error::Custom("AC::MissingRole".to_owned())
    );
    assert_eq!(
        PSP22Error::from_access_control(AccessControlError::RoleRedundant),
        PSP22Error::Custom("AC::RoleRedundant".to_owned())
    );
    assert_eq!(
        PSP22Error::from_access_control(AccessControlError::InvalidCaller),
        PSP22Error::Custom("AC::InvalidCaller".to_owned())
    );
    assert_eq!(
        PSP22Error::from_pausable(PausableError::Paused),
        PSP22Error::Custom("P::Paused".to_owned())
    );
    assert_eq!(
        PSP22Error::from_pausable(PausableError::NotPaused),
        PSP22Error::Custom("P::NotPaused".to_owned())
    );
}
