//! Vesting schedules and the pure evaluator mapping (schedule, now) to the
//! cumulative releasable amount, together with the time-window resolution
//! for schedules that delegate to an external time oracle.

use vstd::prelude::*;
use vstd::arithmetic::div_mod::{
    lemma_div_is_ordered,
    lemma_div_multiples_vanish,
    lemma_div_pos_is_pos,
};
use vstd::arithmetic::mul::{
    lemma_mul_inequality,
    lemma_mul_is_commutative,
    lemma_mul_nonnegative,
};
use crate::account::{AccountId, Balance, Timestamp};
use crate::errors::PSP22Error;

verus! {

/// How much of a vested total is releasable at a given time. Immutable
/// once a vest entry is created.
#[derive(PartialEq, Eq, Structural, Clone, Copy, Debug)]
pub enum VestingSchedule {
    /// The entire amount is releasable immediately.
    Instant,
    /// Nothing before `start`, everything at or after `end`, and the
    /// truncated proportional share in between.
    Linear { start: Timestamp, end: Timestamp },
    /// The (start, end) pair comes from a time oracle queried at release
    /// time; when that query fails, the fallback pair fixed at creation
    /// takes its place and the Linear rule applies.
    External { oracle: AccountId, fallback_start: Timestamp, fallback_end: Timestamp },
}

/// The cumulative amount the Linear rule releases from `total` inside the
/// window (`start`, `end`) at time `now`: all of it at or after `end`,
/// none at or before `start`, and in between the proportional share with
/// integer division truncated toward zero.
pub open spec fn linear_releasable(total: int, start: int, end: int, now: int) -> int {
    if now >= end {
        total
    } else if now <= start {
        0
    } else {
        total * (now - start) / (end - start)
    }
}

/// The releasable amount is never negative and never exceeds the total.
pub proof fn lemma_releasable_bounds(total: int, start: int, end: int, now: int)
    requires
        total >= 0,
    ensures
        0 <= linear_releasable(total, start, end, now) <= total,
{
    if now < end && now > start {
        let dt = now - start;
        let d = end - start;
        lemma_mul_nonnegative(total, dt);
        lemma_div_pos_is_pos(total * dt, d);
        lemma_mul_inequality(dt, d, total);
        lemma_mul_is_commutative(total, dt);
        lemma_mul_is_commutative(total, d);
        lemma_div_is_ordered(total * dt, total * d, d);
        lemma_div_multiples_vanish(total, d);
    }
}

/// Monotonicity of the evaluator: more time never means less releasable.
pub proof fn lemma_releasable_monotonic(total: int, start: int, end: int, t1: int, t2: int)
    requires
        total >= 0,
        t1 <= t2,
    ensures
        linear_releasable(total, start, end, t1) <= linear_releasable(total, start, end, t2),
{
    if t2 >= end {
        lemma_releasable_bounds(total, start, end, t1);
    } else if t1 <= start {
        lemma_releasable_bounds(total, start, end, t2);
    } else {
        let d = end - start;
        lemma_mul_inequality(t1 - start, t2 - start, total);
        lemma_mul_is_commutative(total, t1 - start);
        lemma_mul_is_commutative(total, t2 - start);
        lemma_div_is_ordered(total * (t1 - start), total * (t2 - start), d);
    }
}

/// Before a well-ordered window opens, nothing is releasable.
pub proof fn lemma_zero_before_start(total: int, start: int, end: int, now: int)
    requires
        start <= end,
        now < start,
    ensures
        linear_releasable(total, start, end, now) == 0,
{
}

/// At or after the close of the window, everything is releasable.
pub proof fn lemma_total_at_end(total: int, start: int, end: int, now: int)
    requires
        now >= end,
    ensures
        linear_releasable(total, start, end, now) == total,
{
}

/// Whether evaluating the Linear rule at `now` would overflow the
/// 128-bit intermediate product. Only times strictly inside the window
/// divide at all, so only they can overflow.
pub open spec fn linear_overflows(
    total: Balance,
    start: Timestamp,
    end: Timestamp,
    now: Timestamp,
) -> bool {
    start < now < end && total * (now - start) > u128::MAX
}

/// Evaluates the Linear rule with checked arithmetic.
///
/// Returns exactly `linear_releasable`, or `Overflow` precisely when the
/// intermediate product exceeds the 128-bit range.
pub fn releasable_in_window(
    total: Balance,
    start: Timestamp,
    end: Timestamp,
    now: Timestamp,
) -> (r: Result<Balance, PSP22Error>)
    ensures
        r matches Ok(v) ==> v == linear_releasable(total as int, start as int, end as int, now as int),
        r is Err <==> linear_overflows(total, start, end, now),
        r is Err ==> r == Err::<Balance, PSP22Error>(PSP22Error::Overflow),
{
    if now >= end {
        Ok(total)
    } else if now <= start {
        Ok(0)
    } else {
        let dt = (now - start) as u128;
        let dur = (end - start) as u128;
        match total.checked_mul(dt) {
            None => Err(PSP22Error::Overflow),
            Some(p) => Ok(p / dur),
        }
    }
}

/// The (start, end) window a schedule resolves to, given the outcome of
/// the oracle query for an External schedule: `None` stands for a query
/// that failed or returned malformed data, in which case the fallback
/// pair embedded in the schedule takes its place. Instant resolves to a
/// window that closed at the epoch, so everything is releasable at once.
pub open spec fn spec_resolve_window(
    s: VestingSchedule,
    response: Option<(Timestamp, Timestamp)>,
) -> (Timestamp, Timestamp) {
    match s {
        VestingSchedule::Instant => (0, 0),
        VestingSchedule::Linear { start, end } => (start, end),
        VestingSchedule::External { oracle: _, fallback_start, fallback_end } => match response {
            Some(w) => w,
            None => (fallback_start, fallback_end),
        },
    }
}

/// Resolves the schedule's time window; the vesting engine never fails on
/// a misbehaving oracle, it substitutes the fallback pair.
pub fn resolve_window(s: &VestingSchedule, response: Option<(Timestamp, Timestamp)>) -> (r: (
    Timestamp,
    Timestamp,
))
    ensures
        r == spec_resolve_window(*s, response),
{
    match s {
        VestingSchedule::Instant => (0, 0),
        VestingSchedule::Linear { start, end } => (*start, *end),
        VestingSchedule::External { oracle: _, fallback_start, fallback_end } => match response {
            Some(w) => w,
            None => (*fallback_start, *fallback_end),
        },
    }
}

/// The cumulative releasable amount of a schedule at `now`, under a given
/// oracle outcome.
pub open spec fn schedule_releasable(
    s: VestingSchedule,
    response: Option<(Timestamp, Timestamp)>,
    total: int,
    now: int,
) -> int {
    let w = spec_resolve_window(s, response);
    linear_releasable(total, w.0 as int, w.1 as int, now)
}

/// Monotonicity lifted to whole schedules, the oracle outcome held fixed.
pub proof fn lemma_schedule_monotonic(
    s: VestingSchedule,
    response: Option<(Timestamp, Timestamp)>,
    total: int,
    t1: int,
    t2: int,
)
    requires
        total >= 0,
        t1 <= t2,
    ensures
        schedule_releasable(s, response, total, t1) <= schedule_releasable(s, response, total, t2),
{
    let w = spec_resolve_window(s, response);
    lemma_releasable_monotonic(total, w.0 as int, w.1 as int, t1, t2);
}

/// An External schedule whose oracle query failed behaves exactly like
/// the Linear schedule over its fallback pair, at every time and for
/// every amount.
pub proof fn lemma_fallback_matches_linear(
    oracle: AccountId,
    fallback_start: Timestamp,
    fallback_end: Timestamp,
    response: Option<(Timestamp, Timestamp)>,
    total: int,
    now: int,
)
    ensures
        schedule_releasable(
            VestingSchedule::External { oracle, fallback_start, fallback_end },
            None,
            total,
            now,
        ) == schedule_releasable(
            VestingSchedule::Linear { start: fallback_start, end: fallback_end },
            response,
            total,
            now,
        ),
{
}

/// An Instant schedule releases everything from the first instant on.
pub proof fn lemma_instant_full(
    response: Option<(Timestamp, Timestamp)>,
    total: int,
    now: int,
)
    requires
        now >= 0,
    ensures
        schedule_releasable(VestingSchedule::Instant, response, total, now) == total,
{
}

} // verus!
