//! The fungible ledger: per-account balances and per-(owner, spender)
//! allowances for one asset, with conservation of value.
//!
//! The well-formedness predicate [`PSP22Data::wf`] carries the conservation
//! invariant: the sum of all balances equals the recorded total supply,
//! which in turn equals everything ever minted minus everything ever
//! burned. Every mutating operation preserves it, and a failing operation
//! leaves the whole ledger untouched.

use vstd::prelude::*;
use crate::account::{AccountId, Balance};
use crate::errors::PSP22Error;

verus! {

/// One account's balance. At most one entry per account exists.
#[derive(Clone, Copy, Debug)]
pub struct BalanceEntry {
    pub account: AccountId,
    pub balance: Balance,
}

/// One (owner, spender) allowance. At most one entry per pair exists.
#[derive(Clone, Copy, Debug)]
pub struct AllowanceEntry {
    pub owner: AccountId,
    pub spender: AccountId,
    pub amount: Balance,
}

/// The audit record a mutating ledger operation appends.
#[derive(PartialEq, Eq, Clone, Copy, Debug)]
pub enum PSP22Event {
    /// Value moved: a mint has no sender, a burn has no recipient.
    Transfer { from: Option<AccountId>, to: Option<AccountId>, amount: Balance },
    /// An allowance was set to `amount`.
    Approval { owner: AccountId, spender: AccountId, amount: Balance },
}

/// The sum of all recorded balances.
pub open spec fn sum_balances(s: Seq<BalanceEntry>) -> int
    decreases s.len(),
{
    if s.len() == 0 {
        0
    } else {
        sum_balances(s.drop_last()) + s.last().balance
    }
}

/// The balance recorded for `a`, or zero when no entry exists.
pub open spec fn balance_in(s: Seq<BalanceEntry>, a: AccountId) -> Balance
    decreases s.len(),
{
    if s.len() == 0 {
        0
    } else if s.last().account == a {
        s.last().balance
    } else {
        balance_in(s.drop_last(), a)
    }
}

/// No account occurs twice.
pub open spec fn unique_accounts(s: Seq<BalanceEntry>) -> bool {
    forall|i: int, j: int| 0 <= i < j < s.len() ==> s[i].account != s[j].account
}

/// The allowance recorded for (`o`, `sp`), or zero when no entry exists.
pub open spec fn allowance_in(s: Seq<AllowanceEntry>, o: AccountId, sp: AccountId) -> Balance
    decreases s.len(),
{
    if s.len() == 0 {
        0
    } else if s.last().owner == o && s.last().spender == sp {
        s.last().amount
    } else {
        allowance_in(s.drop_last(), o, sp)
    }
}

/// No (owner, spender) pair occurs twice.
pub open spec fn unique_pairs(s: Seq<AllowanceEntry>) -> bool {
    forall|i: int, j: int|
        0 <= i < j < s.len() ==> !(s[i].owner == s[j].owner && s[i].spender == s[j].spender)
}

proof fn lemma_sum_nonneg(s: Seq<BalanceEntry>)
    ensures
        sum_balances(s) >= 0,
    decreases s.len(),
{
    if s.len() > 0 {
        lemma_sum_nonneg(s.drop_last());
    }
}

/// Any one recorded balance is at most the sum of all of them.
proof fn lemma_balance_le_sum(s: Seq<BalanceEntry>, a: AccountId)
    ensures
        balance_in(s, a) <= sum_balances(s),
    decreases s.len(),
{
    if s.len() > 0 {
        if s.last().account == a {
            lemma_sum_nonneg(s.drop_last());
        } else {
            lemma_balance_le_sum(s.drop_last(), a);
        }
    }
}

/// Two distinct accounts' balances together are at most the sum of all.
proof fn lemma_two_balances_le_sum(s: Seq<BalanceEntry>, a: AccountId, b: AccountId)
    requires
        a != b,
    ensures
        balance_in(s, a) + balance_in(s, b) <= sum_balances(s),
    decreases s.len(),
{
    if s.len() > 0 {
        if s.last().account == a {
            lemma_balance_le_sum(s.drop_last(), b);
        } else if s.last().account == b {
            lemma_balance_le_sum(s.drop_last(), a);
        } else {
            lemma_two_balances_le_sum(s.drop_last(), a, b);
            lemma_sum_nonneg(s.drop_last());
        }
    }
}

/// Under uniqueness, the entry found at `i` is the recorded balance.
proof fn lemma_balance_at(s: Seq<BalanceEntry>, i: int)
    requires
        unique_accounts(s),
        0 <= i < s.len(),
    ensures
        balance_in(s, s[i].account) == s[i].balance,
    decreases s.len(),
{
    if i < s.len() - 1 {
        assert(s[i].account != s.last().account);
        assert(forall|k: int, l: int|
            0 <= k < l < s.drop_last().len() ==> s.drop_last()[k].account
                != s.drop_last()[l].account);
        lemma_balance_at(s.drop_last(), i);
    }
}

/// An account with no entry has balance zero.
proof fn lemma_balance_absent(s: Seq<BalanceEntry>, a: AccountId)
    requires
        forall|k: int| 0 <= k < s.len() ==> s[k].account != a,
    ensures
        balance_in(s, a) == 0,
    decreases s.len(),
{
    if s.len() > 0 {
        lemma_balance_absent(s.drop_last(), a);
    }
}

/// Replacing the entry at `i` by one for the same account changes the sum
/// by the difference and the recorded balance of that account alone.
proof fn lemma_balance_update(s: Seq<BalanceEntry>, i: int, e: BalanceEntry)
    requires
        unique_accounts(s),
        0 <= i < s.len(),
        s[i].account == e.account,
    ensures
        unique_accounts(s.update(i, e)),
        sum_balances(s.update(i, e)) == sum_balances(s) - s[i].balance + e.balance,
        balance_in(s.update(i, e), e.account) == e.balance,
        forall|b: AccountId|
            b != e.account ==> balance_in(s.update(i, e), b) == balance_in(s, b),
    decreases s.len(),
{
    assert(forall|k: int|
        0 <= k < s.len() ==> s.update(i, e)[k].account == s[k].account);
    if i == s.len() - 1 {
        assert(s.update(i, e).drop_last() =~= s.drop_last());
        assert forall|b: AccountId|
            b != e.account implies balance_in(s.update(i, e), b) == balance_in(s, b) by {
            assert(s.update(i, e).last() == e);
            assert(balance_in(s.update(i, e), b) == balance_in(s.drop_last(), b));
            assert(balance_in(s, b) == balance_in(s.drop_last(), b));
        }
    } else {
        assert(s.update(i, e).drop_last() =~= s.drop_last().update(i, e));
        assert(forall|k: int, l: int|
            0 <= k < l < s.drop_last().len() ==> s.drop_last()[k].account
                != s.drop_last()[l].account);
        lemma_balance_update(s.drop_last(), i, e);
        assert forall|b: AccountId|
            b != e.account implies balance_in(s.update(i, e), b) == balance_in(s, b) by {
            assert(s.update(i, e).last() == s.last());
            if s.last().account != b {
                assert(balance_in(s.update(i, e), b) == balance_in(
                    s.drop_last().update(i, e),
                    b,
                ));
                assert(balance_in(s, b) == balance_in(s.drop_last(), b));
            }
        }
    }
}

/// Appending an entry for an account with no prior entry.
proof fn lemma_balance_push(s: Seq<BalanceEntry>, e: BalanceEntry)
    requires
        forall|k: int| 0 <= k < s.len() ==> s[k].account != e.account,
    ensures
        unique_accounts(s) ==> unique_accounts(s.push(e)),
        sum_balances(s.push(e)) == sum_balances(s) + e.balance,
        balance_in(s.push(e), e.account) == e.balance,
        forall|b: AccountId| b != e.account ==> balance_in(s.push(e), b) == balance_in(s, b),
{
    assert(s.push(e).drop_last() =~= s);
    assert(s.push(e).last() == e);
}

/// Under uniqueness, the allowance entry found at `i` is the recorded one.
proof fn lemma_allowance_at(s: Seq<AllowanceEntry>, i: int)
    requires
        unique_pairs(s),
        0 <= i < s.len(),
    ensures
        allowance_in(s, s[i].owner, s[i].spender) == s[i].amount,
    decreases s.len(),
{
    if i < s.len() - 1 {
        assert(!(s[i].owner == s.last().owner && s[i].spender == s.last().spender));
        assert(forall|k: int, l: int|
            0 <= k < l < s.drop_last().len() ==> !(s.drop_last()[k].owner
                == s.drop_last()[l].owner && s.drop_last()[k].spender
                == s.drop_last()[l].spender));
        lemma_allowance_at(s.drop_last(), i);
    }
}

/// A pair with no entry has allowance zero.
proof fn lemma_allowance_absent(s: Seq<AllowanceEntry>, o: AccountId, sp: AccountId)
    requires
        forall|k: int| 0 <= k < s.len() ==> !(s[k].owner == o && s[k].spender == sp),
    ensures
        allowance_in(s, o, sp) == 0,
    decreases s.len(),
{
    if s.len() > 0 {
        lemma_allowance_absent(s.drop_last(), o, sp);
    }
}

/// Replacing the allowance entry at `i` by one for the same pair.
proof fn lemma_allowance_update(s: Seq<AllowanceEntry>, i: int, e: AllowanceEntry)
    requires
        unique_pairs(s),
        0 <= i < s.len(),
        s[i].owner == e.owner,
        s[i].spender == e.spender,
    ensures
        unique_pairs(s.update(i, e)),
        allowance_in(s.update(i, e), e.owner, e.spender) == e.amount,
        forall|o: AccountId, sp: AccountId|
            !(o == e.owner && sp == e.spender) ==> allowance_in(s.update(i, e), o, sp)
                == allowance_in(s, o, sp),
    decreases s.len(),
{
    assert(forall|k: int|
        0 <= k < s.len() ==> s.update(i, e)[k].owner == s[k].owner && s.update(i, e)[k].spender
            == s[k].spender);
    if i == s.len() - 1 {
        assert(s.update(i, e).drop_last() =~= s.drop_last());
        assert forall|o: AccountId, sp: AccountId|
            !(o == e.owner && sp == e.spender) implies allowance_in(s.update(i, e), o, sp)
            == allowance_in(s, o, sp) by {
            assert(s.update(i, e).last() == e);
            assert(allowance_in(s.update(i, e), o, sp) == allowance_in(s.drop_last(), o, sp));
            assert(allowance_in(s, o, sp) == allowance_in(s.drop_last(), o, sp));
        }
    } else {
        assert(s.update(i, e).drop_last() =~= s.drop_last().update(i, e));
        assert(forall|k: int, l: int|
            0 <= k < l < s.drop_last().len() ==> !(s.drop_last()[k].owner
                == s.drop_last()[l].owner && s.drop_last()[k].spender
                == s.drop_last()[l].spender));
        lemma_allowance_update(s.drop_last(), i, e);
        assert forall|o: AccountId, sp: AccountId|
            !(o == e.owner && sp == e.spender) implies allowance_in(s.update(i, e), o, sp)
            == allowance_in(s, o, sp) by {
            assert(s.update(i, e).last() == s.last());
            if !(s.last().owner == o && s.last().spender == sp) {
                assert(allowance_in(s.update(i, e), o, sp) == allowance_in(
                    s.drop_last().update(i, e),
                    o,
                    sp,
                ));
                assert(allowance_in(s, o, sp) == allowance_in(s.drop_last(), o, sp));
            }
        }
    }
}

/// Appending an allowance entry for a pair with no prior entry.
proof fn lemma_allowance_push(s: Seq<AllowanceEntry>, e: AllowanceEntry)
    requires
        forall|k: int| 0 <= k < s.len() ==> !(s[k].owner == e.owner && s[k].spender == e.spender),
    ensures
        unique_pairs(s) ==> unique_pairs(s.push(e)),
        allowance_in(s.push(e), e.owner, e.spender) == e.amount,
        forall|o: AccountId, sp: AccountId|
            !(o == e.owner && sp == e.spender) ==> allowance_in(s.push(e), o, sp)
                == allowance_in(s, o, sp),
{
    assert(s.push(e).drop_last() =~= s);
    assert(s.push(e).last() == e);
}

/// The index of `a`'s entry, if one exists.
fn find_balance(v: &Vec<BalanceEntry>, a: AccountId) -> (r: Option<usize>)
    ensures
        match r {
            Some(i) => i < v@.len() && v@[i as int].account == a,
            None => forall|k: int| 0 <= k < v@.len() ==> v@[k].account != a,
        },
{
    let mut i: usize = 0;
    while i < v.len()
        invariant
            i <= v@.len(),
            forall|k: int| 0 <= k < i ==> v@[k].account != a,
        decreases v@.len() - i,
    {
        if v[i].account == a {
            return Some(i);
        }
        i += 1;
    }
    None
}

/// The index of the (`o`, `sp`) allowance entry, if one exists.
fn find_allowance(v: &Vec<AllowanceEntry>, o: AccountId, sp: AccountId) -> (r: Option<usize>)
    ensures
        match r {
            Some(i) => i < v@.len() && v@[i as int].owner == o && v@[i as int].spender == sp,
            None => forall|k: int|
                0 <= k < v@.len() ==> !(v@[k].owner == o && v@[k].spender == sp),
        },
{
    let mut i: usize = 0;
    while i < v.len()
        invariant
            i <= v@.len(),
            forall|k: int| 0 <= k < i ==> !(v@[k].owner == o && v@[k].spender == sp),
        decreases v@.len() - i,
    {
        if v[i].owner == o && v[i].spender == sp {
            return Some(i);
        }
        i += 1;
    }
    None
}

/// Adds `amount` to `a`'s recorded balance.
fn credit(v: &mut Vec<BalanceEntry>, a: AccountId, amount: Balance)
    requires
        unique_accounts(old(v)@),
        balance_in(old(v)@, a) + amount <= u128::MAX,
    ensures
        unique_accounts(final(v)@),
        sum_balances(final(v)@) == sum_balances(old(v)@) + amount,
        balance_in(final(v)@, a) == balance_in(old(v)@, a) + amount,
        forall|b: AccountId| b != a ==> balance_in(final(v)@, b) == balance_in(old(v)@, b),
{
    match find_balance(v, a) {
        Some(i) => {
            proof {
                lemma_balance_at(v@, i as int);
            }
            let nb = v[i].balance + amount;
            let e = BalanceEntry { account: a, balance: nb };
            proof {
                lemma_balance_update(v@, i as int, e);
            }
            v.set(i, e);
        },
        None => {
            let e = BalanceEntry { account: a, balance: amount };
            proof {
                lemma_balance_absent(v@, a);
                lemma_balance_push(v@, e);
            }
            v.push(e);
        },
    }
}

/// Removes `amount` from `a`'s recorded balance.
fn debit(v: &mut Vec<BalanceEntry>, a: AccountId, amount: Balance)
    requires
        unique_accounts(old(v)@),
        amount <= balance_in(old(v)@, a),
    ensures
        unique_accounts(final(v)@),
        sum_balances(final(v)@) == sum_balances(old(v)@) - amount,
        balance_in(final(v)@, a) == balance_in(old(v)@, a) - amount,
        forall|b: AccountId| b != a ==> balance_in(final(v)@, b) == balance_in(old(v)@, b),
{
    match find_balance(v, a) {
        Some(i) => {
            proof {
                lemma_balance_at(v@, i as int);
            }
            let nb = v[i].balance - amount;
            let e = BalanceEntry { account: a, balance: nb };
            proof {
                lemma_balance_update(v@, i as int, e);
            }
            v.set(i, e);
        },
        None => {
            proof {
                lemma_balance_absent(v@, a);
            }
        },
    }
}

/// Sets the (`o`, `sp`) allowance to `amount`.
fn set_allowance(v: &mut Vec<AllowanceEntry>, o: AccountId, sp: AccountId, amount: Balance)
    requires
        unique_pairs(old(v)@),
    ensures
        unique_pairs(final(v)@),
        allowance_in(final(v)@, o, sp) == amount,
        forall|o2: AccountId, s2: AccountId|
            !(o2 == o && s2 == sp) ==> allowance_in(final(v)@, o2, s2) == allowance_in(
                old(v)@,
                o2,
                s2,
            ),
{
    let e = AllowanceEntry { owner: o, spender: sp, amount };
    match find_allowance(v, o, sp) {
        Some(i) => {
            proof {
                lemma_allowance_update(v@, i as int, e);
            }
            v.set(i, e);
        },
        None => {
            proof {
                lemma_allowance_push(v@, e);
            }
            v.push(e);
        },
    }
}

/// The ledger state for one asset.
///
/// The fields are exposed so that contracts can speak of them; all
/// well-formed values arise from [`PSP22Data::new`] followed by the
/// operations below, each of which preserves [`PSP22Data::wf`].
pub struct PSP22Data {
    pub balances: Vec<BalanceEntry>,
    pub allowances: Vec<AllowanceEntry>,
    pub total_supply: Balance,
    pub events: Vec<PSP22Event>,
    /// Everything ever minted, kept only for the conservation statement.
    pub minted: Ghost<int>,
    /// Everything ever burned, kept only for the conservation statement.
    pub burned: Ghost<int>,
}

impl PSP22Data {
    /// The balance of `a`.
    pub open spec fn spec_balance_of(self, a: AccountId) -> Balance {
        balance_in(self.balances@, a)
    }

    /// The remaining allowance `o` has granted `sp`.
    pub open spec fn spec_allowance(self, o: AccountId, sp: AccountId) -> Balance {
        allowance_in(self.allowances@, o, sp)
    }

    pub open spec fn spec_total_supply(self) -> Balance {
        self.total_supply
    }

    pub open spec fn spec_events(self) -> Seq<PSP22Event> {
        self.events@
    }

    pub open spec fn spec_minted(self) -> int {
        self.minted@
    }

    pub open spec fn spec_burned(self) -> int {
        self.burned@
    }

    /// Well-formedness: unique entries, and conservation — the balances
    /// sum to the total supply, which is what was minted minus what was
    /// burned.
    pub open spec fn wf(self) -> bool {
        &&& unique_accounts(self.balances@)
        &&& unique_pairs(self.allowances@)
        &&& sum_balances(self.balances@) == self.total_supply
        &&& self.minted@ >= 0
        &&& self.burned@ >= 0
        &&& self.minted@ - self.burned@ == self.total_supply
    }

    /// Conservation of value: in every well-formed ledger, the balances
    /// sum to exactly the total minted minus the total burned. Every
    /// operation preserves well-formedness, so this holds after any
    /// sequence of mints, burns and transfers.
    pub proof fn lemma_conservation(self)
        requires
            self.wf(),
        ensures
            sum_balances(self.balances@) == self.spec_minted() - self.spec_burned(),
            sum_balances(self.balances@) == self.spec_total_supply(),
    {
    }

    /// An empty ledger: no supply, no balances, no allowances, no events.
    pub fn new() -> (r: PSP22Data)
        ensures
            r.wf(),
            r.spec_total_supply() == 0,
            r.spec_minted() == 0,
            r.spec_burned() == 0,
            r.spec_events() == Seq::<PSP22Event>::empty(),
            forall|a: AccountId| r.spec_balance_of(a) == 0,
            forall|o: AccountId, sp: AccountId| r.spec_allowance(o, sp) == 0,
    {
        let r = PSP22Data {
            balances: Vec::new(),
            allowances: Vec::new(),
            total_supply: 0,
            events: Vec::new(),
            minted: Ghost(0),
            burned: Ghost(0),
        };
        proof {
            assert(r.events@ =~= Seq::<PSP22Event>::empty());
        }
        r
    }

    /// The balance of `a`.
    pub fn balance_of(&self, a: AccountId) -> (r: Balance)
        requires
            self.wf(),
        ensures
            r == self.spec_balance_of(a),
    {
        match find_balance(&self.balances, a) {
            Some(i) => {
                proof {
                    lemma_balance_at(self.balances@, i as int);
                }
                self.balances[i].balance
            },
            None => {
                proof {
                    lemma_balance_absent(self.balances@, a);
                }
                0
            },
        }
    }

    /// The remaining allowance `o` has granted `sp`.
    pub fn allowance(&self, o: AccountId, sp: AccountId) -> (r: Balance)
        requires
            self.wf(),
        ensures
            r == self.spec_allowance(o, sp),
    {
        match find_allowance(&self.allowances, o, sp) {
            Some(i) => {
                proof {
                    lemma_allowance_at(self.allowances@, i as int);
                }
                self.allowances[i].amount
            },
            None => {
                proof {
                    lemma_allowance_absent(self.allowances@, o, sp);
                }
                0
            },
        }
    }

    pub fn total_supply(&self) -> (r: Balance)
        ensures
            r == self.spec_total_supply(),
    {
        self.total_supply
    }

    /// The audit log so far.
    pub fn events(&self) -> (r: &Vec<PSP22Event>)
        ensures
            r@ == self.spec_events(),
    {
        &self.events
    }

    /// What a successful `mint` does: `to` is credited, the supply and the
    /// minted total grow by `amount`, everything else stays.
    pub open spec fn mint_ok(pre: PSP22Data, post: PSP22Data, to: AccountId, amount: Balance) -> bool {
        &&& post.spec_balance_of(to) == pre.spec_balance_of(to) + amount
        &&& forall|b: AccountId| b != to ==> post.spec_balance_of(b) == pre.spec_balance_of(b)
        &&& post.spec_total_supply() == pre.spec_total_supply() + amount
        &&& post.spec_minted() == pre.spec_minted() + amount
        &&& post.spec_burned() == pre.spec_burned()
        &&& post.allowances == pre.allowances
        &&& post.spec_events() == pre.spec_events().push(
            PSP22Event::Transfer { from: None, to: Some(to), amount },
        )
    }

    /// Creates `amount` new units on `to`'s balance.
    ///
    /// Fails with `ZeroRecipientAddress` when `to` is the null account and
    /// with `Overflow` when the supply would not fit; a failure changes
    /// nothing.
    pub fn mint(&mut self, to: AccountId, amount: Balance) -> (r: Result<(), PSP22Error>)
        requires
            old(self).wf(),
        ensures
            final(self).wf(),
            to.spec_is_null() ==> r == Err::<(), PSP22Error>(PSP22Error::ZeroRecipientAddress)
                && *final(self) == *old(self),
            !to.spec_is_null() && old(self).spec_total_supply() + amount > u128::MAX ==> r == Err::<
                (),
                PSP22Error,
            >(PSP22Error::Overflow) && *final(self) == *old(self),
            !to.spec_is_null() && old(self).spec_total_supply() + amount <= u128::MAX ==> r == Ok::<
                (),
                PSP22Error,
            >(()) && Self::mint_ok(*old(self), *final(self), to, amount),
    {
        if to.is_null() {
            return Err(PSP22Error::ZeroRecipientAddress);
        }
        match self.total_supply.checked_add(amount) {
            None => Err(PSP22Error::Overflow),
            Some(ns) => {
                proof {
                    lemma_balance_le_sum(self.balances@, to);
                }
                credit(&mut self.balances, to, amount);
                self.total_supply = ns;
                self.minted = Ghost(self.minted@ + amount);
                self.events.push(PSP22Event::Transfer { from: None, to: Some(to), amount });
                Ok(())
            },
        }
    }

    /// What a successful `burn` does: `from` is debited, the supply
    /// shrinks and the burned total grows by `amount`, everything else
    /// stays.
    pub open spec fn burn_ok(pre: PSP22Data, post: PSP22Data, from: AccountId, amount: Balance) -> bool {
        &&& post.spec_balance_of(from) == pre.spec_balance_of(from) - amount
        &&& forall|b: AccountId| b != from ==> post.spec_balance_of(b) == pre.spec_balance_of(b)
        &&& post.spec_total_supply() == pre.spec_total_supply() - amount
        &&& post.spec_minted() == pre.spec_minted()
        &&& post.spec_burned() == pre.spec_burned() + amount
        &&& post.allowances == pre.allowances
        &&& post.spec_events() == pre.spec_events().push(
            PSP22Event::Transfer { from: Some(from), to: None, amount },
        )
    }

    /// Destroys `amount` units of `from`'s balance.
    ///
    /// Fails with `ZeroSenderAddress` when `from` is the null account and
    /// with `InsufficientBalance` when the balance does not cover
    /// `amount`; a failure changes nothing.
    pub fn burn(&mut self, from: AccountId, amount: Balance) -> (r: Result<(), PSP22Error>)
        requires
            old(self).wf(),
        ensures
            final(self).wf(),
            from.spec_is_null() ==> r == Err::<(), PSP22Error>(PSP22Error::ZeroSenderAddress)
                && *final(self) == *old(self),
            !from.spec_is_null() && old(self).spec_balance_of(from) < amount ==> r == Err::<
                (),
                PSP22Error,
            >(PSP22Error::InsufficientBalance) && *final(self) == *old(self),
            !from.spec_is_null() && old(self).spec_balance_of(from) >= amount ==> r == Ok::<
                (),
                PSP22Error,
            >(()) && Self::burn_ok(*old(self), *final(self), from, amount),
    {
        if from.is_null() {
            return Err(PSP22Error::ZeroSenderAddress);
        }
        let bal = self.balance_of(from);
        if bal < amount {
            return Err(PSP22Error::InsufficientBalance);
        }
        proof {
            lemma_balance_le_sum(self.balances@, from);
        }
        debit(&mut self.balances, from, amount);
        self.total_supply = self.total_supply - amount;
        self.burned = Ghost(self.burned@ + amount);
        self.events.push(PSP22Event::Transfer { from: Some(from), to: None, amount });
        Ok(())
    }

    /// What a successful `transfer` does to balances and events: `amount`
    /// moves from `from` to `to` (a self-transfer moves nothing), the
    /// supply and all other balances stay.
    pub open spec fn transfer_ok(
        pre: PSP22Data,
        post: PSP22Data,
        from: AccountId,
        to: AccountId,
        amount: Balance,
    ) -> bool {
        &&& post.spec_balance_of(from) == if from == to {
            pre.spec_balance_of(from) as int
        } else {
            pre.spec_balance_of(from) - amount
        }
        &&& from != to ==> post.spec_balance_of(to) == pre.spec_balance_of(to) + amount
        &&& forall|b: AccountId|
            b != from && b != to ==> post.spec_balance_of(b) == pre.spec_balance_of(b)
        &&& post.spec_total_supply() == pre.spec_total_supply()
        &&& post.spec_minted() == pre.spec_minted()
        &&& post.spec_burned() == pre.spec_burned()
        &&& post.allowances == pre.allowances
        &&& post.spec_events() == pre.spec_events().push(
            PSP22Event::Transfer { from: Some(from), to: Some(to), amount },
        )
    }

    /// Moves `amount` from `from` to `to`.
    ///
    /// Fails with `ZeroSenderAddress` / `ZeroRecipientAddress` on a null
    /// endpoint and with `InsufficientBalance` when `from`'s balance does
    /// not cover `amount`; a failure changes nothing. The destination
    /// balance never overflows, because both balances are bounded by the
    /// conserved total supply.
    pub fn transfer(&mut self, from: AccountId, to: AccountId, amount: Balance) -> (r: Result<
        (),
        PSP22Error,
    >)
        requires
            old(self).wf(),
        ensures
            final(self).wf(),
            from.spec_is_null() ==> r == Err::<(), PSP22Error>(PSP22Error::ZeroSenderAddress)
                && *final(self) == *old(self),
            !from.spec_is_null() && to.spec_is_null() ==> r == Err::<(), PSP22Error>(
                PSP22Error::ZeroRecipientAddress,
            ) && *final(self) == *old(self),
            !from.spec_is_null() && !to.spec_is_null() && old(self).spec_balance_of(from) < amount
                ==> r == Err::<(), PSP22Error>(PSP22Error::InsufficientBalance) && *final(self)
                == *old(self),
            !from.spec_is_null() && !to.spec_is_null() && old(self).spec_balance_of(from) >= amount
                ==> r == Ok::<(), PSP22Error>(()) && Self::transfer_ok(
                *old(self),
                *final(self),
                from,
                to,
                amount,
            ),
    {
        if from.is_null() {
            return Err(PSP22Error::ZeroSenderAddress);
        }
        if to.is_null() {
            return Err(PSP22Error::ZeroRecipientAddress);
        }
        let bal = self.balance_of(from);
        if bal < amount {
            return Err(PSP22Error::InsufficientBalance);
        }
        proof {
            lemma_balance_le_sum(self.balances@, from);
            if from != to {
                lemma_two_balances_le_sum(self.balances@, from, to);
            }
        }
        debit(&mut self.balances, from, amount);
        credit(&mut self.balances, to, amount);
        self.events.push(PSP22Event::Transfer { from: Some(from), to: Some(to), amount });
        Ok(())
    }

    /// What a successful `transfer_from` does: the balances move as in
    /// `transfer`, the (`from`, `spender`) allowance shrinks by `amount`,
    /// and an `Approval` event precedes the `Transfer` event.
    pub open spec fn transfer_from_ok(
        pre: PSP22Data,
        post: PSP22Data,
        spender: AccountId,
        from: AccountId,
        to: AccountId,
        amount: Balance,
    ) -> bool {
        &&& post.spec_balance_of(from) == if from == to {
            pre.spec_balance_of(from) as int
        } else {
            pre.spec_balance_of(from) - amount
        }
        &&& from != to ==> post.spec_balance_of(to) == pre.spec_balance_of(to) + amount
        &&& forall|b: AccountId|
            b != from && b != to ==> post.spec_balance_of(b) == pre.spec_balance_of(b)
        &&& post.spec_total_supply() == pre.spec_total_supply()
        &&& post.spec_minted() == pre.spec_minted()
        &&& post.spec_burned() == pre.spec_burned()
        &&& post.spec_allowance(from, spender) == pre.spec_allowance(from, spender) - amount
        &&& forall|o: AccountId, sp: AccountId|
            !(o == from && sp == spender) ==> post.spec_allowance(o, sp) == pre.spec_allowance(
                o,
                sp,
            )
        &&& post.spec_events() == pre.spec_events().push(
            PSP22Event::Approval {
                owner: from,
                spender,
                amount: (pre.spec_allowance(from, spender) - amount) as Balance,
            },
        ).push(PSP22Event::Transfer { from: Some(from), to: Some(to), amount })
    }

    /// Moves `amount` from `from` to `to` on behalf of `spender`,
    /// consuming that much of the (`from`, `spender`) allowance.
    ///
    /// Fails with `ZeroSenderAddress` / `ZeroRecipientAddress` on a null
    /// endpoint, with `InsufficientAllowance` when the allowance does not
    /// cover `amount`, and with `InsufficientBalance` when the balance
    /// does not; a failure changes nothing.
    pub fn transfer_from(
        &mut self,
        spender: AccountId,
        from: AccountId,
        to: AccountId,
        amount: Balance,
    ) -> (r: Result<(), PSP22Error>)
        requires
            old(self).wf(),
        ensures
            final(self).wf(),
            from.spec_is_null() ==> r == Err::<(), PSP22Error>(PSP22Error::ZeroSenderAddress)
                && *final(self) == *old(self),
            !from.spec_is_null() && to.spec_is_null() ==> r == Err::<(), PSP22Error>(
                PSP22Error::ZeroRecipientAddress,
            ) && *final(self) == *old(self),
            !from.spec_is_null() && !to.spec_is_null() && old(self).spec_allowance(from, spender)
                < amount ==> r == Err::<(), PSP22Error>(PSP22Error::InsufficientAllowance)
                && *final(self) == *old(self),
            !from.spec_is_null() && !to.spec_is_null() && old(self).spec_allowance(from, spender)
                >= amount && old(self).spec_balance_of(from) < amount ==> r == Err::<
                (),
                PSP22Error,
            >(PSP22Error::InsufficientBalance) && *final(self) == *old(self),
            !from.spec_is_null() && !to.spec_is_null() && old(self).spec_allowance(from, spender)
                >= amount && old(self).spec_balance_of(from) >= amount ==> r == Ok::<
                (),
                PSP22Error,
            >(()) && Self::transfer_from_ok(*old(self), *final(self), spender, from, to, amount),
    {
        if from.is_null() {
            return Err(PSP22Error::ZeroSenderAddress);
        }
        if to.is_null() {
            return Err(PSP22Error::ZeroRecipientAddress);
        }
        let allow = self.allowance(from, spender);
        if allow < amount {
            return Err(PSP22Error::InsufficientAllowance);
        }
        let bal = self.balance_of(from);
        if bal < amount {
            return Err(PSP22Error::InsufficientBalance);
        }
        let new_allow = allow - amount;
        set_allowance(&mut self.allowances, from, spender, new_allow);
        self.events.push(PSP22Event::Approval { owner: from, spender, amount: new_allow });
        proof {
            lemma_balance_le_sum(self.balances@, from);
            if from != to {
                lemma_two_balances_le_sum(self.balances@, from, to);
            }
        }
        debit(&mut self.balances, from, amount);
        credit(&mut self.balances, to, amount);
        self.events.push(PSP22Event::Transfer { from: Some(from), to: Some(to), amount });
        Ok(())
    }

    /// What a successful allowance change does: the (`owner`, `spender`)
    /// allowance becomes `new_amount`, everything else stays, and an
    /// `Approval` event records the new value.
    pub open spec fn allowance_set_ok(
        pre: PSP22Data,
        post: PSP22Data,
        owner: AccountId,
        spender: AccountId,
        new_amount: Balance,
    ) -> bool {
        &&& post.spec_allowance(owner, spender) == new_amount
        &&& forall|o: AccountId, sp: AccountId|
            !(o == owner && sp == spender) ==> post.spec_allowance(o, sp) == pre.spec_allowance(
                o,
                sp,
            )
        &&& post.balances == pre.balances
        &&& post.spec_total_supply() == pre.spec_total_supply()
        &&& post.spec_minted() == pre.spec_minted()
        &&& post.spec_burned() == pre.spec_burned()
        &&& post.spec_events() == pre.spec_events().push(
            PSP22Event::Approval { owner, spender, amount: new_amount },
        )
    }

    /// Raises the (`owner`, `spender`) allowance by `delta`.
    ///
    /// Fails with `ZeroSenderAddress` / `ZeroRecipientAddress` on a null
    /// endpoint and with `Overflow` when the allowance would not fit; a
    /// failure changes nothing.
    pub fn increase_allowance(
        &mut self,
        owner: AccountId,
        spender: AccountId,
        delta: Balance,
    ) -> (r: Result<(), PSP22Error>)
        requires
            old(self).wf(),
        ensures
            final(self).wf(),
            owner.spec_is_null() ==> r == Err::<(), PSP22Error>(PSP22Error::ZeroSenderAddress)
                && *final(self) == *old(self),
            !owner.spec_is_null() && spender.spec_is_null() ==> r == Err::<(), PSP22Error>(
                PSP22Error::ZeroRecipientAddress,
            ) && *final(self) == *old(self),
            !owner.spec_is_null() && !spender.spec_is_null() && old(self).spec_allowance(
                owner,
                spender,
            ) + delta > u128::MAX ==> r == Err::<(), PSP22Error>(PSP22Error::Overflow)
                && *final(self) == *old(self),
            !owner.spec_is_null() && !spender.spec_is_null() && old(self).spec_allowance(
                owner,
                spender,
            ) + delta <= u128::MAX ==> r == Ok::<(), PSP22Error>(()) && Self::allowance_set_ok(
                *old(self),
                *final(self),
                owner,
                spender,
                (old(self).spec_allowance(owner, spender) + delta) as Balance,
            ),
    {
        if owner.is_null() {
            return Err(PSP22Error::ZeroSenderAddress);
        }
        if spender.is_null() {
            return Err(PSP22Error::ZeroRecipientAddress);
        }
        let allow = self.allowance(owner, spender);
        match allow.checked_add(delta) {
            None => Err(PSP22Error::Overflow),
            Some(na) => {
                set_allowance(&mut self.allowances, owner, spender, na);
                self.events.push(PSP22Event::Approval { owner, spender, amount: na });
                Ok(())
            },
        }
    }

    /// Lowers the (`owner`, `spender`) allowance by `delta`.
    ///
    /// Fails with `ZeroSenderAddress` / `ZeroRecipientAddress` on a null
    /// endpoint and with `InsufficientAllowance` when the allowance would
    /// drop below zero; a failure changes nothing.
    pub fn decrease_allowance(
        &mut self,
        owner: AccountId,
        spender: AccountId,
        delta: Balance,
    ) -> (r: Result<(), PSP22Error>)
        requires
            old(self).wf(),
        ensures
            final(self).wf(),
            owner.spec_is_null() ==> r == Err::<(), PSP22Error>(PSP22Error::ZeroSenderAddress)
                && *final(self) == *old(self),
            !owner.spec_is_null() && spender.spec_is_null() ==> r == Err::<(), PSP22Error>(
                PSP22Error::ZeroRecipientAddress,
            ) && *final(self) == *old(self),
            !owner.spec_is_null() && !spender.spec_is_null() && old(self).spec_allowance(
                owner,
                spender,
            ) < delta ==> r == Err::<(), PSP22Error>(PSP22Error::InsufficientAllowance)
                && *final(self) == *old(self),
            !owner.spec_is_null() && !spender.spec_is_null() && old(self).spec_allowance(
                owner,
                spender,
            ) >= delta ==> r == Ok::<(), PSP22Error>(()) && Self::allowance_set_ok(
                *old(self),
                *final(self),
                owner,
                spender,
                (old(self).spec_allowance(owner, spender) - delta) as Balance,
            ),
    {
        if owner.is_null() {
            return Err(PSP22Error::ZeroSenderAddress);
        }
        if spender.is_null() {
            return Err(PSP22Error::ZeroRecipientAddress);
        }
        let allow = self.allowance(owner, spender);
        if allow < delta {
            return Err(PSP22Error::InsufficientAllowance);
        }
        let na = allow - delta;
        set_allowance(&mut self.allowances, owner, spender, na);
        self.events.push(PSP22Event::Approval { owner, spender, amount: na });
        Ok(())
    }
}

} // verus!
