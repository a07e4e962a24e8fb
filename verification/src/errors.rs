//! The error taxonomy shared by the ledger and the vesting engine.

use vstd::prelude::*;

verus! {

/// Everything a mutating ledger or vesting operation can fail with. A
/// failed operation applies no part of its effect.
#[derive(PartialEq, Eq, Debug)]
pub enum PSP22Error {
    /// Escape hatch for rules layered on top of the core operations.
    Custom(String),
    /// The source balance does not cover the requested amount.
    InsufficientBalance,
    /// The (owner, spender) allowance does not cover the requested amount.
    InsufficientAllowance,
    /// The recipient is the null account.
    ZeroRecipientAddress,
    /// The sender is the null account.
    ZeroSenderAddress,
    /// A checked arithmetic step would have overflowed.
    Overflow,
    /// An outbound call to another component failed and no fallback applies.
    ExternalCallFailed,
    /// The caller lacks the capability for a privileged action.
    Unauthorized,
}

/// Failures of the ownership bookkeeping.
#[derive(PartialEq, Eq, Structural, Clone, Copy, Debug)]
pub enum OwnableError {
    /// The caller is not the current owner.
    CallerIsNotOwner,
    /// The requested change would leave the state exactly as it is.
    ActionRedundant,
}

/// Failures of a role-based access-control collaborator.
#[derive(PartialEq, Eq, Structural, Clone, Copy, Debug)]
pub enum AccessControlError {
    MissingRole,
    RoleRedundant,
    InvalidCaller,
}

/// Failures of a pausing switch collaborator.
#[derive(PartialEq, Eq, Structural, Clone, Copy, Debug)]
pub enum PausableError {
    Paused,
    NotPaused,
}

impl PSP22Error {
    /// Whether this is the `Custom` variant carrying exactly `msg`.
    pub open spec fn spec_is_custom(self, msg: Seq<char>) -> bool {
        match self {
            PSP22Error::Custom(m) => m@ == msg,
            _ => false,
        }
    }

    /// Folds an ownership failure into the shared taxonomy, as a tagged
    /// `Custom` message.
    pub fn from_ownable(e: OwnableError) -> (r: PSP22Error)
        ensures
            e == OwnableError::CallerIsNotOwner ==> r.spec_is_custom("O::CallerIsNotOwner"@),
            e == OwnableError::ActionRedundant ==> r.spec_is_custom("O::ActionRedundant"@),
    {
        match e {
            OwnableError::CallerIsNotOwner => {
                PSP22Error::Custom("O::CallerIsNotOwner".to_owned())
            },
            OwnableError::ActionRedundant => PSP22Error::Custom("O::ActionRedundant".to_owned()),
        }
    }

    /// Folds an access-control failure into the shared taxonomy.
    pub fn from_access_control(e: AccessControlError) -> (r: PSP22Error)
        ensures
            e == AccessControlError::MissingRole ==> r.spec_is_custom("AC::MissingRole"@),
            e == AccessControlError::RoleRedundant ==> r.spec_is_custom("AC::RoleRedundant"@),
            e == AccessControlError::InvalidCaller ==> r.spec_is_custom("AC::InvalidCaller"@),
    {
        match e {
            AccessControlError::MissingRole => PSP22Error::Custom("AC::MissingRole".to_owned()),
            AccessControlError::RoleRedundant => {
                PSP22Error::Custom("AC::RoleRedundant".to_owned())
            },
            AccessControlError::InvalidCaller => {
                PSP22Error::Custom("AC::InvalidCaller".to_owned())
            },
        }
    }

    /// Folds a pausing-switch failure into the shared taxonomy.
    pub fn from_pausable(e: PausableError) -> (r: PSP22Error)
        ensures
            e == PausableError::Paused ==> r.spec_is_custom("P::Paused"@),
            e == PausableError::NotPaused ==> r.spec_is_custom("P::NotPaused"@),
    {
        match e {
            PausableError::Paused => PSP22Error::Custom("P::Paused".to_owned()),
            PausableError::NotPaused => PSP22Error::Custom("P::NotPaused".to_owned()),
        }
    }
}

} // verus!
