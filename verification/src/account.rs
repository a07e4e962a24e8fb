//! Accounts, amounts and timestamps.

use vstd::prelude::*;

verus! {

/// An account identifier: an opaque fixed-size value, compared only for
/// equality. The all-zero identifier is the null account, which may never
/// send or receive value.
#[derive(PartialEq, Eq, Structural, Clone, Copy, Debug, Hash)]
pub struct AccountId {
    pub id: u128,
}

/// A quantity of the asset. All arithmetic over balances is checked:
/// overflow surfaces as an error, never as silent wrapping or clamping.
pub type Balance = u128;

/// A point in time, in the host's native unit since a fixed epoch.
pub type Timestamp = u64;

impl AccountId {
    /// Whether this is the null account.
    pub open spec fn spec_is_null(self) -> bool {
        self.id == 0
    }

    pub fn new(id: u128) -> (r: AccountId)
        ensures
            r.id == id,
    {
        AccountId { id }
    }

    /// The null account: no balance may be minted to it or moved from it.
    pub fn null() -> (r: AccountId)
        ensures
            r.spec_is_null(),
    {
        AccountId { id: 0 }
    }

    pub fn is_null(&self) -> (r: bool)
        ensures
            r == self.spec_is_null(),
    {
        self.id == 0
    }
}

/// Equality of asset references, where `None` stands for the native asset
/// and `Some(a)` for the foreign ledger identified by `a`.
pub fn asset_eq(x: &Option<AccountId>, y: &Option<AccountId>) -> (r: bool)
    ensures
        r == (*x == *y),
{
    match (x, y) {
        (None, None) => true,
        (Some(a), Some(b)) => a.id == b.id,
        _ => false,
    }
}

} // verus!
