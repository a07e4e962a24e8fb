//! Ownership bookkeeping: one account (the owner) that privileged
//! actions are gated on. The caller is handed in explicitly, so a
//! deployment decides how identity is established.

use vstd::prelude::*;
use crate::account::AccountId;
use crate::errors::OwnableError;

verus! {

/// The audit record of an ownership change; `new` is `None` after the
/// owner renounced.
#[derive(PartialEq, Eq, Clone, Copy, Debug)]
pub struct OwnershipTransferred {
    pub new: Option<AccountId>,
}

/// The ownership state and its audit log.
pub struct Ownable {
    pub owner: Option<AccountId>,
    pub events: Vec<OwnershipTransferred>,
}

impl Ownable {
    /// A fresh state owned by `owner`.
    pub fn new(owner: AccountId) -> (r: Ownable)
        ensures
            r.owner == Some(owner),
            r.events@ == Seq::<OwnershipTransferred>::empty(),
    {
        let r = Ownable { owner: Some(owner), events: Vec::new() };
        proof {
            assert(r.events@ =~= Seq::<OwnershipTransferred>::empty());
        }
        r
    }

    /// The current owner, or `None` when ownership was renounced.
    pub fn owner(&self) -> (r: Option<AccountId>)
        ensures
            r == self.owner,
    {
        self.owner
    }

    /// The audit log so far.
    pub fn events(&self) -> (r: &Vec<OwnershipTransferred>)
        ensures
            r@ == self.events@,
    {
        &self.events
    }

    /// Succeeds exactly when `caller` is the current owner.
    pub fn ensure_owner(&self, caller: AccountId) -> (r: Result<(), OwnableError>)
        ensures
            self.owner == Some(caller) ==> r == Ok::<(), OwnableError>(()),
            self.owner != Some(caller) ==> r == Err::<(), OwnableError>(
                OwnableError::CallerIsNotOwner,
            ),
    {
        match self.owner {
            Some(o) => {
                if o == caller {
                    Ok(())
                } else {
                    Err(OwnableError::CallerIsNotOwner)
                }
            },
            None => Err(OwnableError::CallerIsNotOwner),
        }
    }

    /// Sets the stored owner without any check or event: the storage
    /// hook a deployment builds its own policy on.
    pub fn set_owner(&mut self, new_owner: Option<AccountId>)
        ensures
            final(self).owner == new_owner,
            final(self).events == old(self).events,
    {
        self.owner = new_owner;
    }

    /// Sets the owner and records an `OwnershipTransferred` event.
    pub fn update_owner(&mut self, new_owner: Option<AccountId>)
        ensures
            final(self).owner == new_owner,
            final(self).events@ == old(self).events@.push(OwnershipTransferred { new: new_owner }),
    {
        self.owner = new_owner;
        self.events.push(OwnershipTransferred { new: new_owner });
    }

    /// Leaves the state without an owner. Only the current owner may do
    /// so; afterwards no caller passes `ensure_owner` again.
    pub fn renounce_ownership(&mut self, caller: AccountId) -> (r: Result<(), OwnableError>)
        ensures
            old(self).owner != Some(caller) ==> r == Err::<(), OwnableError>(
                OwnableError::CallerIsNotOwner,
            ) && *final(self) == *old(self),
            old(self).owner == Some(caller) ==> r == Ok::<(), OwnableError>(())
                && final(self).owner is None && final(self).events@ == old(self).events@.push(
                OwnershipTransferred { new: None },
            ),
    {
        match self.ensure_owner(caller) {
            Err(e) => Err(e),
            Ok(()) => {
                self.update_owner(None);
                Ok(())
            },
        }
    }

    /// Hands ownership to `new_owner`. Only the current owner may do so,
    /// and handing it to the current owner is rejected as redundant.
    pub fn transfer_ownership(&mut self, caller: AccountId, new_owner: AccountId) -> (r: Result<
        (),
        OwnableError,
    >)
        ensures
            old(self).owner != Some(caller) ==> r == Err::<(), OwnableError>(
                OwnableError::CallerIsNotOwner,
            ) && *final(self) == *old(self),
            old(self).owner == Some(caller) && new_owner == caller ==> r == Err::<(), OwnableError>(
                OwnableError::ActionRedundant,
            ) && *final(self) == *old(self),
            old(self).owner == Some(caller) && new_owner != caller ==> r == Ok::<(), OwnableError>(
                (),
            ) && final(self).owner == Some(new_owner)
                && final(self).events@ == old(self).events@.push(
                OwnershipTransferred { new: Some(new_owner) },
            ),
    {
        match self.ensure_owner(caller) {
            Err(e) => Err(e),
            Ok(()) => {
                if new_owner == caller {
                    return Err(OwnableError::ActionRedundant);
                }
                self.update_owner(Some(new_owner));
                Ok(())
            },
        }
    }
}

} // verus!
