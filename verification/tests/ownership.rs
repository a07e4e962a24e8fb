use vesting_ledger::account::AccountId;
use vesting_ledger::errors::OwnableError;
use vesting_ledger::ownable::{Ownable, OwnershipTransferred};

fn acc(id: u128) -> AccountId {
    AccountId::new(id)
}

#[test]
fn owner_can_hand_ownership_over() {
    let mut o = Ownable::new(acc(1));
    assert_eq!(o.owner(), Some(acc(1)));
    assert_eq!(o.transfer_ownership(acc(1), acc(2)), Ok(()));
    assert_eq!(o.owner(), Some(acc(2)));
    assert_eq!(o.events()[0], OwnershipTransferred { new: Some(acc(2)) });
}

#[test]
fn only_the_owner_may_transfer() {
    let mut o = Ownable::new(acc(1));
    assert_eq!(
        o.transfer_ownership(acc(3), acc(2)),
        Err(OwnableError::CallerIsNotOwner)
    );
    assert_eq!(o.owner(), Some(acc(1)));
}

#[test]
fn transferring_to_the_current_owner_is_redundant() {
    let mut o = Ownable::new(acc(1));
    assert_eq!(
        o.transfer_ownership(acc(1), acc(1)),
        Err(OwnableError::ActionRedundant)
    );
    assert_eq!(o.owner(), Some(acc(1)));
}

#[test]
fn renounced_ownership_locks_everyone_out() {
    let mut o = Ownable::new(acc(1));
    assert_eq!(o.renounce_ownership(acc(2)), Err(OwnableError::CallerIsNotOwner));
    assert_eq!(o.renounce_ownership(acc(1)), Ok(()));
    assert_eq!(o.owner(), None);
    assert_eq!(o.ensure_owner(acc(1)), Err(OwnableError::CallerIsNotOwner));
    assert_eq!(o.renounce_ownership(acc(1)), Err(OwnableError::CallerIsNotOwner));
    assert_eq!(o.events()[0], OwnershipTransferred { new: None });
}

#[test]
fn ensure_owner_accepts_exactly_the_owner() {
    let o = Ownable::new(acc(5));
    assert_eq!(o.ensure_owner(acc(5)), Ok(()));
    assert_eq!(o.ensure_owner(acc(6)), Err(OwnableError::CallerIsNotOwner));
}
