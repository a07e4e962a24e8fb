//! The vesting ledger: creates vest entries, holds custody of deposited
//! assets, and pays out whatever a schedule has matured through a single
//! `release` operation that aggregates over every entry matching a
//! (receiver, asset) pair.
//!
//! Outbound concerns stay with the host: it queries the time oracles of
//! External schedules before calling `release` and hands the successful
//! readings in, so a failed query is simply an account with no reading
//! and the fallback pair applies. All bookkeeping is updated before the
//! payout transfer is made.

use vstd::prelude::*;
use crate::account::{asset_eq, AccountId, Balance, Timestamp};
use crate::errors::PSP22Error;
use crate::psp22::PSP22Data;
use crate::schedule::{
    linear_overflows,
    releasable_in_window,
    resolve_window,
    schedule_releasable,
    spec_resolve_window,
    lemma_zero_before_start,
    VestingSchedule,
};

verus! {

/// One deposit of an asset locked under a release schedule. Entries are
/// created once and never deleted; a fully released entry remains as an
/// auditable record with `released_amount == total_amount`.
#[derive(Clone, Copy, Debug)]
pub struct VestEntry {
    pub creator: AccountId,
    pub receiver: AccountId,
    /// `None` is the native asset, `Some(a)` a foreign ledger.
    pub asset: Option<AccountId>,
    pub total_amount: Balance,
    pub released_amount: Balance,
    pub schedule: VestingSchedule,
    pub created_at: Timestamp,
}

/// The audit record a vesting operation appends.
#[derive(PartialEq, Eq, Clone, Copy, Debug)]
pub enum VestingEvent {
    VestingScheduled {
        creator: AccountId,
        receiver: AccountId,
        asset: Option<AccountId>,
        amount: Balance,
        schedule: VestingSchedule,
    },
    TokenReleased {
        caller: AccountId,
        asset: Option<AccountId>,
        receiver: AccountId,
        amount: Balance,
    },
}

/// A successful time-oracle reading the host gathered before a release.
/// An oracle account with no reading is one whose query failed; its
/// schedules fall back to their embedded pair.
#[derive(Clone, Copy, Debug)]
pub struct OracleReading {
    pub oracle: AccountId,
    pub window: (Timestamp, Timestamp),
}

/// The first reading recorded for `a`, if any.
pub open spec fn oracle_response(rs: Seq<OracleReading>, a: AccountId) -> Option<
    (Timestamp, Timestamp),
>
    decreases rs.len(),
{
    if rs.len() == 0 {
        None
    } else if rs[0].oracle == a {
        Some(rs[0].window)
    } else {
        oracle_response(rs.drop_first(), a)
    }
}

fn lookup_oracle(rs: &Vec<OracleReading>, a: AccountId) -> (r: Option<(Timestamp, Timestamp)>)
    ensures
        r == oracle_response(rs@, a),
{
    let mut i: usize = 0;
    proof {
        assert(rs@.skip(0) =~= rs@);
    }
    while i < rs.len()
        invariant
            i <= rs@.len(),
            oracle_response(rs@, a) == oracle_response(rs@.skip(i as int), a),
        decreases rs@.len() - i,
    {
        proof {
            assert(rs@.skip(i as int)[0] == rs@[i as int]);
            assert(rs@.skip(i as int).drop_first() =~= rs@.skip(i as int + 1));
        }
        if rs[i].oracle == a {
            return Some(rs[i].window);
        }
        i += 1;
    }
    None
}

/// The oracle outcome that applies to an entry: only External schedules
/// consult the oracle.
pub open spec fn entry_response(e: VestEntry, rs: Seq<OracleReading>) -> Option<
    (Timestamp, Timestamp),
> {
    match e.schedule {
        VestingSchedule::External { oracle, .. } => oracle_response(rs, oracle),
        _ => None,
    }
}

fn entry_oracle_response(e: &VestEntry, readings: &Vec<OracleReading>) -> (r: Option<
    (Timestamp, Timestamp),
>)
    ensures
        r == entry_response(*e, readings@),
{
    match e.schedule {
        VestingSchedule::External { oracle, .. } => lookup_oracle(readings, oracle),
        _ => None,
    }
}

/// The time window an entry's schedule resolves to under the readings.
pub open spec fn entry_window(e: VestEntry, rs: Seq<OracleReading>) -> (Timestamp, Timestamp) {
    spec_resolve_window(e.schedule, entry_response(e, rs))
}

/// Whether an entry belongs to the (receiver, asset) pair of a release.
pub open spec fn entry_matches(e: VestEntry, receiver: AccountId, asset: Option<AccountId>) -> bool {
    e.receiver == receiver && e.asset == asset
}

/// The entry's released counter after a release at `now`: the releasable
/// amount, capped at the total, but never below what was already
/// released — counters only ever grow.
pub open spec fn entry_new_released(e: VestEntry, rs: Seq<OracleReading>, now: int) -> int {
    let rel = schedule_releasable(e.schedule, entry_response(e, rs), e.total_amount as int, now);
    let capped = if rel > e.total_amount {
        e.total_amount as int
    } else {
        rel
    };
    if capped > e.released_amount {
        capped
    } else {
        e.released_amount as int
    }
}

/// What a release at `now` pays out of one entry.
pub open spec fn entry_delta(e: VestEntry, rs: Seq<OracleReading>, now: int) -> int {
    entry_new_released(e, rs, now) - e.released_amount
}

/// What a release at `now` pays out in total over the matching entries.
pub open spec fn total_delta(
    s: Seq<VestEntry>,
    receiver: AccountId,
    asset: Option<AccountId>,
    rs: Seq<OracleReading>,
    now: int,
) -> int
    decreases s.len(),
{
    if s.len() == 0 {
        0
    } else {
        total_delta(s.drop_last(), receiver, asset, rs, now) + if entry_matches(
            s.last(),
            receiver,
            asset,
        ) {
            entry_delta(s.last(), rs, now)
        } else {
            0
        }
    }
}

/// Whether evaluating this entry's schedule at `now` overflows the
/// 128-bit intermediate product.
pub open spec fn entry_overflows(e: VestEntry, rs: Seq<OracleReading>, now: Timestamp) -> bool {
    linear_overflows(e.total_amount, entry_window(e, rs).0, entry_window(e, rs).1, now)
}

/// Whether a release at `now` fails a checked arithmetic step: some
/// matching entry's schedule math overflows, or the aggregated payout
/// exceeds the 128-bit range.
pub open spec fn release_overflows(
    s: Seq<VestEntry>,
    receiver: AccountId,
    asset: Option<AccountId>,
    rs: Seq<OracleReading>,
    now: Timestamp,
) -> bool {
    ||| exists|i: int|
        0 <= i < s.len() && entry_matches(s[i], receiver, asset) && entry_overflows(s[i], rs, now)
    ||| total_delta(s, receiver, asset, rs, now as int) > u128::MAX
}

/// Released counters never decrease and never exceed the total.
pub proof fn lemma_entry_released_bounds(e: VestEntry, rs: Seq<OracleReading>, now: int)
    requires
        e.released_amount <= e.total_amount,
    ensures
        e.released_amount <= entry_new_released(e, rs, now) <= e.total_amount,
{
}

/// A release at or after the close of the entry's window releases the
/// whole total: it pays exactly what was still outstanding and leaves
/// the counter at `total_amount`.
pub proof fn lemma_entry_full_release(e: VestEntry, rs: Seq<OracleReading>, now: int)
    requires
        e.released_amount <= e.total_amount,
        now >= entry_window(e, rs).1,
    ensures
        entry_new_released(e, rs, now) == e.total_amount,
        entry_delta(e, rs, now) == e.total_amount - e.released_amount,
{
}

/// A release before the entry's window opens pays nothing out of it and
/// leaves its counter exactly where it was.
pub proof fn lemma_entry_early_release(e: VestEntry, rs: Seq<OracleReading>, now: int)
    requires
        entry_window(e, rs).0 <= entry_window(e, rs).1,
        now < entry_window(e, rs).0,
    ensures
        entry_new_released(e, rs, now) == e.released_amount,
        entry_delta(e, rs, now) == 0,
{
    lemma_zero_before_start(
        e.total_amount as int,
        entry_window(e, rs).0 as int,
        entry_window(e, rs).1 as int,
        now,
    );
}

/// The amount still outstanding over the matching entries.
pub open spec fn total_outstanding(
    s: Seq<VestEntry>,
    receiver: AccountId,
    asset: Option<AccountId>,
) -> int
    decreases s.len(),
{
    if s.len() == 0 {
        0
    } else {
        total_outstanding(s.drop_last(), receiver, asset) + if entry_matches(
            s.last(),
            receiver,
            asset,
        ) {
            s.last().total_amount - s.last().released_amount
        } else {
            0
        }
    }
}

/// A release at or after the close of every matching window pays out
/// exactly everything still outstanding.
pub proof fn lemma_full_release_pays_outstanding(
    s: Seq<VestEntry>,
    receiver: AccountId,
    asset: Option<AccountId>,
    rs: Seq<OracleReading>,
    now: int,
)
    requires
        forall|i: int|
            0 <= i < s.len() && entry_matches(#[trigger] s[i], receiver, asset)
                ==> s[i].released_amount <= s[i].total_amount && now >= entry_window(s[i], rs).1,
    ensures
        total_delta(s, receiver, asset, rs, now) == total_outstanding(s, receiver, asset),
    decreases s.len(),
{
    if s.len() > 0 {
        assert(forall|i: int| 0 <= i < s.len() - 1 ==> s.drop_last()[i] == s[i]);
        lemma_full_release_pays_outstanding(s.drop_last(), receiver, asset, rs, now);
        if entry_matches(s.last(), receiver, asset) {
            assert(s[s.len() - 1] == s.last());
            lemma_entry_full_release(s.last(), rs, now);
        }
    }
}

/// A release before every matching window has opened pays nothing.
pub proof fn lemma_no_delta_before_start(
    s: Seq<VestEntry>,
    receiver: AccountId,
    asset: Option<AccountId>,
    rs: Seq<OracleReading>,
    now: int,
)
    requires
        forall|i: int|
            0 <= i < s.len() && entry_matches(#[trigger] s[i], receiver, asset) ==> entry_window(
                s[i],
                rs,
            ).0 <= entry_window(s[i], rs).1 && now < entry_window(s[i], rs).0,
    ensures
        total_delta(s, receiver, asset, rs, now) == 0,
    decreases s.len(),
{
    if s.len() > 0 {
        assert(forall|i: int| 0 <= i < s.len() - 1 ==> s.drop_last()[i] == s[i]);
        lemma_no_delta_before_start(s.drop_last(), receiver, asset, rs, now);
        let e = s.last();
        if entry_matches(e, receiver, asset) {
            assert(s[s.len() - 1] == e);
            lemma_zero_before_start(
                e.total_amount as int,
                entry_window(e, rs).0 as int,
                entry_window(e, rs).1 as int,
                now,
            );
        }
    }
}

/// Only a non-null receiver can be owed anything: the ledger never
/// creates entries for the null account.
proof fn lemma_null_receiver_zero_delta(
    s: Seq<VestEntry>,
    receiver: AccountId,
    asset: Option<AccountId>,
    rs: Seq<OracleReading>,
    now: int,
)
    requires
        receiver.spec_is_null(),
        forall|i: int| 0 <= i < s.len() ==> !(#[trigger] s[i]).receiver.spec_is_null(),
    ensures
        total_delta(s, receiver, asset, rs, now) == 0,
    decreases s.len(),
{
    if s.len() > 0 {
        assert(forall|i: int| 0 <= i < s.len() - 1 ==> s.drop_last()[i] == s[i]);
        lemma_null_receiver_zero_delta(s.drop_last(), receiver, asset, rs, now);
        assert(s[s.len() - 1] == s.last());
    }
}

/// A prefix never pays more than the whole sequence.
proof fn lemma_prefix_delta_le(
    s: Seq<VestEntry>,
    i: int,
    receiver: AccountId,
    asset: Option<AccountId>,
    rs: Seq<OracleReading>,
    now: int,
)
    requires
        0 <= i <= s.len(),
    ensures
        total_delta(s.take(i), receiver, asset, rs, now) <= total_delta(s, receiver, asset, rs, now),
    decreases s.len() - i,
{
    if i == s.len() {
        assert(s.take(i) =~= s);
    } else {
        lemma_prefix_delta_le(s, i + 1, receiver, asset, rs, now);
        assert(s.take(i + 1).drop_last() =~= s.take(i));
        assert(s.take(i + 1).last() == s[i]);
    }
}

/// Computes what a release at `now` would pay in total, with checked
/// arithmetic and without touching anything.
fn compute_delta(
    entries: &Vec<VestEntry>,
    receiver: AccountId,
    asset: Option<AccountId>,
    readings: &Vec<OracleReading>,
    now: Timestamp,
) -> (r: Result<Balance, PSP22Error>)
    ensures
        r matches Ok(v) ==> v == total_delta(entries@, receiver, asset, readings@, now as int)
            && !release_overflows(entries@, receiver, asset, readings@, now),
        r is Err ==> release_overflows(entries@, receiver, asset, readings@, now) && r == Err::<
            Balance,
            PSP22Error,
        >(PSP22Error::Overflow),
{
    let mut sum: Balance = 0;
    let mut i: usize = 0;
    while i < entries.len()
        invariant
            i <= entries@.len(),
            sum == total_delta(entries@.take(i as int), receiver, asset, readings@, now as int),
            forall|j: int|
                0 <= j < i && entry_matches(#[trigger] entries@[j], receiver, asset)
                    ==> !entry_overflows(entries@[j], readings@, now),
        decreases entries@.len() - i,
    {
        let e = entries[i];
        proof {
            assert(entries@.take(i as int + 1).drop_last() =~= entries@.take(i as int));
            assert(entries@.take(i as int + 1).last() == entries@[i as int]);
        }
        if receiver == e.receiver && asset_eq(&asset, &e.asset) {
            let resp = entry_oracle_response(&e, readings);
            let w = resolve_window(&e.schedule, resp);
            match releasable_in_window(e.total_amount, w.0, w.1, now) {
                Err(_) => {
                    proof {
                        assert(entry_overflows(entries@[i as int], readings@, now));
                    }
                    return Err(PSP22Error::Overflow);
                },
                Ok(rel) => {
                    let capped = if rel > e.total_amount {
                        e.total_amount
                    } else {
                        rel
                    };
                    let newr = if capped > e.released_amount {
                        capped
                    } else {
                        e.released_amount
                    };
                    let delta = newr - e.released_amount;
                    proof {
                        assert(newr == entry_new_released(entries@[i as int], readings@, now as int));
                    }
                    match sum.checked_add(delta) {
                        None => {
                            proof {
                                lemma_prefix_delta_le(
                                    entries@,
                                    i as int + 1,
                                    receiver,
                                    asset,
                                    readings@,
                                    now as int,
                                );
                            }
                            return Err(PSP22Error::Overflow);
                        },
                        Some(ns) => {
                            sum = ns;
                        },
                    }
                },
            }
        }
        i += 1;
    }
    proof {
        assert(entries@.take(entries@.len() as int) =~= entries@);
    }
    Ok(sum)
}

/// Advances the released counter of every matching entry to its value at
/// `now`, leaving every other entry untouched.
fn apply_release(
    entries: &mut Vec<VestEntry>,
    receiver: AccountId,
    asset: Option<AccountId>,
    readings: &Vec<OracleReading>,
    now: Timestamp,
)
    requires
        forall|j: int|
            0 <= j < old(entries)@.len() && entry_matches(
                #[trigger] old(entries)@[j],
                receiver,
                asset,
            ) ==> !entry_overflows(old(entries)@[j], readings@, now),
    ensures
        final(entries)@.len() == old(entries)@.len(),
        forall|j: int|
            0 <= j < old(entries)@.len() ==> #[trigger] final(entries)@[j] == (if entry_matches(
                old(entries)@[j],
                receiver,
                asset,
            ) {
                VestEntry {
                    released_amount: entry_new_released(
                        old(entries)@[j],
                        readings@,
                        now as int,
                    ) as Balance,
                    ..old(entries)@[j]
                }
            } else {
                old(entries)@[j]
            }),
{
    let mut i: usize = 0;
    while i < entries.len()
        invariant
            i <= entries@.len(),
            entries@.len() == old(entries)@.len(),
            forall|j: int| i <= j < entries@.len() ==> #[trigger] entries@[j] == old(entries)@[j],
            forall|j: int|
                0 <= j < i ==> #[trigger] entries@[j] == (if entry_matches(
                    old(entries)@[j],
                    receiver,
                    asset,
                ) {
                    VestEntry {
                        released_amount: entry_new_released(
                            old(entries)@[j],
                            readings@,
                            now as int,
                        ) as Balance,
                        ..old(entries)@[j]
                    }
                } else {
                    old(entries)@[j]
                }),
            forall|j: int|
                0 <= j < old(entries)@.len() && entry_matches(
                    #[trigger] old(entries)@[j],
                    receiver,
                    asset,
                ) ==> !entry_overflows(old(entries)@[j], readings@, now),
        decreases entries@.len() - i,
    {
        let e = entries[i];
        if receiver == e.receiver && asset_eq(&asset, &e.asset) {
            let resp = entry_oracle_response(&e, readings);
            let w = resolve_window(&e.schedule, resp);
            let rel = match releasable_in_window(e.total_amount, w.0, w.1, now) {
                Ok(v) => v,
                Err(_) => {
                    proof {
                        assert(false);
                    }
                    0
                },
            };
            let capped = if rel > e.total_amount {
                e.total_amount
            } else {
                rel
            };
            let newr = if capped > e.released_amount {
                capped
            } else {
                e.released_amount
            };
            entries.set(i, VestEntry { released_amount: newr, ..e });
        }
        i += 1;
    }
}

/// The vesting ledger state: the vest entries and the audit log.
///
/// The fields are exposed so that contracts can speak of them; all
/// well-formed values arise from [`VestingData::new`] followed by the
/// operations below, each of which preserves [`VestingData::wf`].
pub struct VestingData {
    pub entries: Vec<VestEntry>,
    pub events: Vec<VestingEvent>,
}

impl VestingData {
    /// Well-formedness: every entry is for a positive amount and a
    /// non-null receiver, and has released no more than its total.
    pub open spec fn wf(self) -> bool {
        forall|i: int|
            0 <= i < self.entries@.len() ==> (#[trigger] self.entries@[i]).released_amount
                <= self.entries@[i].total_amount && self.entries@[i].total_amount > 0
                && !self.entries@[i].receiver.spec_is_null()
    }

    pub open spec fn spec_entries(self) -> Seq<VestEntry> {
        self.entries@
    }

    pub open spec fn spec_events(self) -> Seq<VestingEvent> {
        self.events@
    }

    /// An empty vesting ledger.
    pub fn new() -> (r: VestingData)
        ensures
            r.wf(),
            r.spec_entries() == Seq::<VestEntry>::empty(),
            r.spec_events() == Seq::<VestingEvent>::empty(),
    {
        let r = VestingData { entries: Vec::new(), events: Vec::new() };
        proof {
            assert(r.entries@ =~= Seq::<VestEntry>::empty());
            assert(r.events@ =~= Seq::<VestingEvent>::empty());
        }
        r
    }

    /// The recorded vest entries.
    pub fn entries(&self) -> (r: &Vec<VestEntry>)
        ensures
            r@ == self.spec_entries(),
    {
        &self.entries
    }

    /// The audit log so far.
    pub fn events(&self) -> (r: &Vec<VestingEvent>)
        ensures
            r@ == self.spec_events(),
    {
        &self.events
    }

    /// The bookkeeping of a new vest: one new entry records the deposit
    /// and a `VestingScheduled` event is appended.
    pub open spec fn vest_recorded(
        pre: VestingData,
        post: VestingData,
        caller: AccountId,
        receiver: AccountId,
        asset: Option<AccountId>,
        amount: Balance,
        schedule: VestingSchedule,
        now: Timestamp,
    ) -> bool {
        &&& post.entries@ == pre.entries@.push(
            VestEntry {
                creator: caller,
                receiver,
                asset,
                total_amount: amount,
                released_amount: 0,
                schedule,
                created_at: now,
            },
        )
        &&& post.events@ == pre.events@.push(
            VestingEvent::VestingScheduled { creator: caller, receiver, asset, amount, schedule },
        )
    }

    /// What a successful `create_vest` does: the deposit moves from the
    /// caller into the vesting ledger's custody, and the vest is
    /// recorded.
    pub open spec fn create_ok(
        pre_v: VestingData,
        post_v: VestingData,
        pre_l: PSP22Data,
        post_l: PSP22Data,
        vester: AccountId,
        caller: AccountId,
        receiver: AccountId,
        asset: Option<AccountId>,
        amount: Balance,
        schedule: VestingSchedule,
        now: Timestamp,
    ) -> bool {
        &&& Self::vest_recorded(pre_v, post_v, caller, receiver, asset, amount, schedule, now)
        &&& PSP22Data::transfer_from_ok(pre_l, post_l, vester, caller, vester, amount)
    }

    /// Records a vest whose deposit is already secured elsewhere: the
    /// bookkeeping half of `create_vest`, for a deployment whose asset
    /// lives on a foreign ledger it has already pulled the deposit into.
    /// Rejects a zero amount and a null receiver; a failure changes
    /// nothing.
    pub fn record_vest(
        &mut self,
        caller: AccountId,
        receiver: AccountId,
        asset: Option<AccountId>,
        amount: Balance,
        schedule: VestingSchedule,
        now: Timestamp,
    ) -> (r: Result<(), PSP22Error>)
        requires
            old(self).wf(),
        ensures
            final(self).wf(),
            amount == 0 ==> (r matches Err(e) && e.spec_is_custom("ZeroAmount"@)) && *final(self)
                == *old(self),
            amount > 0 && receiver.spec_is_null() ==> r == Err::<(), PSP22Error>(
                PSP22Error::ZeroRecipientAddress,
            ) && *final(self) == *old(self),
            amount > 0 && !receiver.spec_is_null() ==> r == Ok::<(), PSP22Error>(())
                && Self::vest_recorded(
                *old(self),
                *final(self),
                caller,
                receiver,
                asset,
                amount,
                schedule,
                now,
            ),
    {
        if amount == 0 {
            return Err(PSP22Error::Custom("ZeroAmount".to_owned()));
        }
        if receiver.is_null() {
            return Err(PSP22Error::ZeroRecipientAddress);
        }
        self.entries.push(
            VestEntry {
                creator: caller,
                receiver,
                asset,
                total_amount: amount,
                released_amount: 0,
                schedule,
                created_at: now,
            },
        );
        self.events.push(
            VestingEvent::VestingScheduled { creator: caller, receiver, asset, amount, schedule },
        );
        Ok(())
    }

    /// Locks `amount` of `asset` for `receiver` under `schedule`.
    ///
    /// The deposit is pulled from `caller` into the custody account
    /// `vester` through the ledger's delegated transfer, so the caller
    /// must have granted `vester` a sufficient allowance beforehand.
    /// Rejects a zero amount and a null receiver; a ledger failure
    /// (null caller, insufficient allowance, insufficient balance)
    /// propagates unchanged. Any failure leaves both ledgers untouched —
    /// in particular no entry is created.
    pub fn create_vest(
        &mut self,
        ledger: &mut PSP22Data,
        vester: AccountId,
        caller: AccountId,
        receiver: AccountId,
        asset: Option<AccountId>,
        amount: Balance,
        schedule: VestingSchedule,
        now: Timestamp,
    ) -> (r: Result<(), PSP22Error>)
        requires
            old(self).wf(),
            old(ledger).wf(),
            !vester.spec_is_null(),
        ensures
            final(self).wf(),
            final(ledger).wf(),
            amount == 0 ==> (r matches Err(e) && e.spec_is_custom("ZeroAmount"@)) && *final(self)
                == *old(self) && *final(ledger) == *old(ledger),
            amount > 0 && receiver.spec_is_null() ==> r == Err::<(), PSP22Error>(
                PSP22Error::ZeroRecipientAddress,
            ) && *final(self) == *old(self) && *final(ledger) == *old(ledger),
            amount > 0 && !receiver.spec_is_null() && caller.spec_is_null() ==> r == Err::<
                (),
                PSP22Error,
            >(PSP22Error::ZeroSenderAddress) && *final(self) == *old(self) && *final(ledger)
                == *old(ledger),
            amount > 0 && !receiver.spec_is_null() && !caller.spec_is_null() && old(
                ledger,
            ).spec_allowance(caller, vester) < amount ==> r == Err::<(), PSP22Error>(
                PSP22Error::InsufficientAllowance,
            ) && *final(self) == *old(self) && *final(ledger) == *old(ledger),
            amount > 0 && !receiver.spec_is_null() && !caller.spec_is_null() && old(
                ledger,
            ).spec_allowance(caller, vester) >= amount && old(ledger).spec_balance_of(caller)
                < amount ==> r == Err::<(), PSP22Error>(PSP22Error::InsufficientBalance)
                && *final(self) == *old(self) && *final(ledger) == *old(ledger),
            amount > 0 && !receiver.spec_is_null() && !caller.spec_is_null() && old(
                ledger,
            ).spec_allowance(caller, vester) >= amount && old(ledger).spec_balance_of(caller)
                >= amount ==> r == Ok::<(), PSP22Error>(()) && Self::create_ok(
                *old(self),
                *final(self),
                *old(ledger),
                *final(ledger),
                vester,
                caller,
                receiver,
                asset,
                amount,
                schedule,
                now,
            ),
    {
        if amount == 0 {
            return Err(PSP22Error::Custom("ZeroAmount".to_owned()));
        }
        if receiver.is_null() {
            return Err(PSP22Error::ZeroRecipientAddress);
        }
        match ledger.transfer_from(vester, caller, vester, amount) {
            Err(e) => Err(e),
            Ok(()) => {
                match self.record_vest(caller, receiver, asset, amount, schedule, now) {
                    Ok(()) => Ok(()),
                    Err(e) => {
                        proof {
                            assert(false);
                        }
                        Err(e)
                    },
                }
            },
        }
    }

    /// The bookkeeping of a release at `now`: every matching entry's
    /// counter advances to its value at `now`, every other entry stays,
    /// and a `TokenReleased` event records the aggregated payout.
    pub open spec fn release_recorded(
        pre: VestingData,
        post: VestingData,
        caller: AccountId,
        receiver: AccountId,
        asset: Option<AccountId>,
        rs: Seq<OracleReading>,
        now: Timestamp,
        paid: int,
    ) -> bool {
        &&& paid == total_delta(pre.entries@, receiver, asset, rs, now as int)
        &&& post.entries@.len() == pre.entries@.len()
        &&& forall|j: int|
            0 <= j < pre.entries@.len() ==> #[trigger] post.entries@[j] == (if entry_matches(
                pre.entries@[j],
                receiver,
                asset,
            ) {
                VestEntry {
                    released_amount: entry_new_released(
                        pre.entries@[j],
                        rs,
                        now as int,
                    ) as Balance,
                    ..pre.entries@[j]
                }
            } else {
                pre.entries@[j]
            })
        &&& post.events@ == pre.events@.push(
            VestingEvent::TokenReleased { caller, asset, receiver, amount: paid as Balance },
        )
    }

    /// What a successful `release` does: the release is recorded, and
    /// when the payout is positive it moves from the custody account
    /// `vester` to `receiver` on the ledger.
    pub open spec fn release_ok(
        pre_v: VestingData,
        post_v: VestingData,
        pre_l: PSP22Data,
        post_l: PSP22Data,
        vester: AccountId,
        caller: AccountId,
        receiver: AccountId,
        asset: Option<AccountId>,
        rs: Seq<OracleReading>,
        now: Timestamp,
        paid: int,
    ) -> bool {
        &&& Self::release_recorded(pre_v, post_v, caller, receiver, asset, rs, now, paid)
        &&& if paid > 0 {
            PSP22Data::transfer_ok(pre_l, post_l, vester, receiver, paid as Balance)
        } else {
            post_l == pre_l
        }
    }

    /// What a release at `now` would pay for (`receiver`, `asset`),
    /// without changing anything.
    pub fn releasable(
        &self,
        receiver: AccountId,
        asset: Option<AccountId>,
        readings: &Vec<OracleReading>,
        now: Timestamp,
    ) -> (r: Result<Balance, PSP22Error>)
        ensures
            r matches Ok(v) ==> v == total_delta(self.entries@, receiver, asset, readings@, now as int)
                && !release_overflows(self.entries@, receiver, asset, readings@, now),
            r is Err ==> release_overflows(self.entries@, receiver, asset, readings@, now) && r
                == Err::<Balance, PSP22Error>(PSP22Error::Overflow),
    {
        compute_delta(&self.entries, receiver, asset, readings, now)
    }

    /// Brings every matching entry's counter up to `now` and returns the
    /// aggregated amount that became due, without touching any balance:
    /// the bookkeeping half of `release`, for a deployment whose asset
    /// lives on a foreign ledger. It is meant to run strictly before the
    /// outbound payout call, so that a reentrant release observes
    /// already-updated counters. Fails with `Overflow` when a checked
    /// arithmetic step would overflow; a failure changes nothing.
    pub fn record_release(
        &mut self,
        caller: AccountId,
        receiver: AccountId,
        asset: Option<AccountId>,
        now: Timestamp,
        readings: &Vec<OracleReading>,
    ) -> (r: Result<Balance, PSP22Error>)
        requires
            old(self).wf(),
        ensures
            final(self).wf(),
            release_overflows(old(self).entries@, receiver, asset, readings@, now) ==> r == Err::<
                Balance,
                PSP22Error,
            >(PSP22Error::Overflow) && *final(self) == *old(self),
            !release_overflows(old(self).entries@, receiver, asset, readings@, now) ==> r == Ok::<
                Balance,
                PSP22Error,
            >(total_delta(old(self).entries@, receiver, asset, readings@, now as int) as Balance)
                && Self::release_recorded(
                *old(self),
                *final(self),
                caller,
                receiver,
                asset,
                readings@,
                now,
                total_delta(old(self).entries@, receiver, asset, readings@, now as int),
            ),
    {
        let delta_sum = match compute_delta(&self.entries, receiver, asset, readings, now) {
            Err(e) => {
                return Err(e);
            },
            Ok(d) => d,
        };
        apply_release(&mut self.entries, receiver, asset, readings, now);
        proof {
            assert forall|j: int|
                0 <= j < old(self).entries@.len() implies (#[trigger] self.entries@[j]).released_amount
                <= self.entries@[j].total_amount && self.entries@[j].total_amount > 0
                && !self.entries@[j].receiver.spec_is_null() by {
                let e = old(self).entries@[j];
                lemma_entry_released_bounds(e, readings@, now as int);
            }
        }
        self.events.push(
            VestingEvent::TokenReleased { caller, asset, receiver, amount: delta_sum },
        );
        Ok(delta_sum)
    }

    /// Pays out everything that has matured for (`receiver`, `asset`).
    ///
    /// Any caller may invoke it; the payout always goes to `receiver`.
    /// Every matching entry's counter is brought up to `now` first, then
    /// the aggregated amount moves from the custody account `vester` to
    /// `receiver`. A release that finds nothing matured succeeds and
    /// pays zero without touching any balance. Fails with `Overflow`
    /// when a checked arithmetic step would overflow, and with
    /// `InsufficientBalance` when custody cannot cover the payout (an
    /// internal-invariant violation when deposits were taken honestly);
    /// a failure changes nothing.
    pub fn release(
        &mut self,
        ledger: &mut PSP22Data,
        vester: AccountId,
        caller: AccountId,
        receiver: AccountId,
        asset: Option<AccountId>,
        now: Timestamp,
        readings: &Vec<OracleReading>,
    ) -> (r: Result<Balance, PSP22Error>)
        requires
            old(self).wf(),
            old(ledger).wf(),
            !vester.spec_is_null(),
        ensures
            final(self).wf(),
            final(ledger).wf(),
            release_overflows(old(self).entries@, receiver, asset, readings@, now) ==> r == Err::<
                Balance,
                PSP22Error,
            >(PSP22Error::Overflow) && *final(self) == *old(self) && *final(ledger) == *old(ledger),
            !release_overflows(old(self).entries@, receiver, asset, readings@, now) && old(
                ledger,
            ).spec_balance_of(vester) < total_delta(
                old(self).entries@,
                receiver,
                asset,
                readings@,
                now as int,
            ) ==> r == Err::<Balance, PSP22Error>(PSP22Error::InsufficientBalance) && *final(self)
                == *old(self) && *final(ledger) == *old(ledger),
            !release_overflows(old(self).entries@, receiver, asset, readings@, now) && old(
                ledger,
            ).spec_balance_of(vester) >= total_delta(
                old(self).entries@,
                receiver,
                asset,
                readings@,
                now as int,
            ) ==> r == Ok::<Balance, PSP22Error>(
                total_delta(old(self).entries@, receiver, asset, readings@, now as int) as Balance,
            ) && Self::release_ok(
                *old(self),
                *final(self),
                *old(ledger),
                *final(ledger),
                vester,
                caller,
                receiver,
                asset,
                readings@,
                now,
                total_delta(old(self).entries@, receiver, asset, readings@, now as int),
            ),
            r is Ok ==> final(self).entries@.len() == old(self).entries@.len() && forall|j: int|
                0 <= j < old(self).entries@.len() ==> (#[trigger] final(self).entries@[j]).released_amount
                    >= old(self).entries@[j].released_amount,
    {
        let delta_sum = match compute_delta(&self.entries, receiver, asset, readings, now) {
            Err(e) => {
                return Err(e);
            },
            Ok(d) => d,
        };
        let custody = ledger.balance_of(vester);
        if custody < delta_sum {
            return Err(PSP22Error::InsufficientBalance);
        }
        apply_release(&mut self.entries, receiver, asset, readings, now);
        proof {
            assert forall|j: int|
                0 <= j < old(self).entries@.len() implies (#[trigger] self.entries@[j]).released_amount
                <= self.entries@[j].total_amount && self.entries@[j].total_amount > 0 && !self.entries@[j].receiver.spec_is_null() by {
                let e = old(self).entries@[j];
                lemma_entry_released_bounds(e, readings@, now as int);
            }
        }
        if delta_sum > 0 {
            proof {
                if receiver.spec_is_null() {
                    lemma_null_receiver_zero_delta(
                        old(self).entries@,
                        receiver,
                        asset,
                        readings@,
                        now as int,
                    );
                }
            }
            match ledger.transfer(vester, receiver, delta_sum) {
                Ok(()) => {},
                Err(_) => {
                    proof {
                        assert(false);
                    }
                },
            }
        }
        self.events.push(
            VestingEvent::TokenReleased { caller, asset, receiver, amount: delta_sum },
        );
        Ok(delta_sum)
    }
}

} // verus!
