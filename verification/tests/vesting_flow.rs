use vesting_ledger::account::AccountId;
use vesting_ledger::errors::PSP22Error;
use vesting_ledger::psp22::PSP22Data;
use vesting_ledger::vesting::{OracleReading, VestingData, VestingEvent};
use vesting_ledger::schedule::VestingSchedule;

fn acc(id: u128) -> AccountId {
    AccountId::new(id)
}

/// A ledger with `amount` minted to the depositor and approved for the
/// custody account.
fn funded(depositor: AccountId, vester: AccountId, amount: u128) -> PSP22Data {
    let mut l = PSP22Data::new();
    l.mint(depositor, amount).unwrap();
    l.increase_allowance(depositor, vester, amount).unwrap();
    l
}

#[test]
fn create_vest_takes_custody_and_records_the_entry() {
    let vester = acc(99);
    let depositor = acc(1);
    let receiver = acc(2);
    let mut l = funded(depositor, vester, 900);
    let mut v = VestingData::new();
    let schedule = VestingSchedule::Linear { start: 0, end: 90 };
    assert_eq!(
        v.create_vest(&mut l, vester, depositor, receiver, None, 900, schedule, 5),
        Ok(())
    );
    assert_eq!(l.balance_of(depositor), 0);
    assert_eq!(l.balance_of(vester), 900);
    assert_eq!(v.entries().len(), 1);
    let e = &v.entries()[0];
    assert_eq!(e.creator, depositor);
    assert_eq!(e.receiver, receiver);
    assert_eq!(e.asset, None);
    assert_eq!(e.total_amount, 900);
    assert_eq!(e.released_amount, 0);
    assert_eq!(e.created_at, 5);
    assert_eq!(
        v.events()[0],
        VestingEvent::VestingScheduled {
            creator: depositor,
            receiver,
            asset: None,
            amount: 900,
            schedule,
        }
    );
}

#[test]
fn create_vest_with_zero_amount_is_rejected() {
    let vester = acc(99);
    let depositor = acc(1);
    let mut l = funded(depositor, vester, 100);
    let mut v = VestingData::new();
    let r = v.create_vest(
        &mut l,
        vester,
        depositor,
        acc(2),
        None,
        0,
        VestingSchedule::Instant,
        0,
    );
    assert_eq!(r, Err(PSP22Error::Custom("ZeroAmount".to_owned())));
    assert_eq!(v.entries().len(), 0);
    assert_eq!(l.balance_of(depositor), 100);
}

#[test]
fn create_vest_for_null_receiver_is_rejected() {
    let vester = acc(99);
    let depositor = acc(1);
    let mut l = funded(depositor, vester, 100);
    let mut v = VestingData::new();
    let r = v.create_vest(
        &mut l,
        vester,
        depositor,
        AccountId::null(),
        None,
        10,
        VestingSchedule::Instant,
        0,
    );
    assert_eq!(r, Err(PSP22Error::ZeroRecipientAddress));
    assert_eq!(v.entries().len(), 0);
}

#[test]
fn create_vest_with_short_allowance_is_rejected_without_a_trace() {
    let vester = acc(99);
    let depositor = acc(1);
    let mut l = PSP22Data::new();
    l.mint(depositor, 100).unwrap();
    l.increase_allowance(depositor, vester, 40).unwrap();
    let mut v = VestingData::new();
    let r = v.create_vest(
        &mut l,
        vester,
        depositor,
        acc(2),
        None,
        50,
        VestingSchedule::Instant,
        0,
    );
    assert_eq!(r, Err(PSP22Error::InsufficientAllowance));
    assert_eq!(v.entries().len(), 0);
    assert_eq!(v.events().len(), 0);
    assert_eq!(l.balance_of(depositor), 100);
    assert_eq!(l.balance_of(vester), 0);
    assert_eq!(l.allowance(depositor, vester), 40);
}

#[test]
fn release_before_start_pays_zero_and_changes_nothing() {
    let vester = acc(99);
    let depositor = acc(1);
    let receiver = acc(2);
    let mut l = funded(depositor, vester, 900);
    let mut v = VestingData::new();
    let schedule = VestingSchedule::Linear { start: 100, end: 200 };
    v.create_vest(&mut l, vester, depositor, receiver, None, 900, schedule, 0)
        .unwrap();
    let r = v.release(&mut l, vester, acc(7), receiver, None, 50, &Vec::new());
    assert_eq!(r, Ok(0));
    assert_eq!(v.entries()[0].released_amount, 0);
    assert_eq!(l.balance_of(receiver), 0);
    assert_eq!(l.balance_of(vester), 900);
    assert_eq!(
        v.events()[1],
        VestingEvent::TokenReleased { caller: acc(7), asset: None, receiver, amount: 0 }
    );
}

#[test]
fn release_midway_pays_the_exact_linear_share() {
    let vester = acc(99);
    let depositor = acc(1);
    let receiver = acc(2);
    let mut l = funded(depositor, vester, 900);
    let mut v = VestingData::new();
    let schedule = VestingSchedule::Linear { start: 0, end: 90 };
    v.create_vest(&mut l, vester, depositor, receiver, None, 900, schedule, 0)
        .unwrap();
    assert_eq!(
        v.release(&mut l, vester, acc(7), receiver, None, 30, &Vec::new()),
        Ok(300)
    );
    assert_eq!(v.entries()[0].released_amount, 300);
    assert_eq!(l.balance_of(receiver), 300);
    assert_eq!(l.balance_of(vester), 600);
    // At 91 the window has closed: the rest comes out, exactly once.
    assert_eq!(
        v.release(&mut l, vester, acc(7), receiver, None, 91, &Vec::new()),
        Ok(600)
    );
    assert_eq!(v.entries()[0].released_amount, 900);
    assert_eq!(l.balance_of(receiver), 900);
    assert_eq!(l.balance_of(vester), 0);
}

#[test]
fn release_at_maturity_pays_exactly_the_outstanding_amount() {
    let vester = acc(99);
    let depositor = acc(1);
    let receiver = acc(2);
    let mut l = funded(depositor, vester, 500);
    let mut v = VestingData::new();
    let schedule = VestingSchedule::Linear { start: 10, end: 20 };
    v.create_vest(&mut l, vester, depositor, receiver, None, 500, schedule, 0)
        .unwrap();
    assert_eq!(
        v.release(&mut l, vester, acc(7), receiver, None, 20, &Vec::new()),
        Ok(500)
    );
    assert_eq!(v.entries()[0].released_amount, 500);
    // Releasing again after maturity finds nothing outstanding.
    assert_eq!(
        v.release(&mut l, vester, acc(7), receiver, None, 1000, &Vec::new()),
        Ok(0)
    );
    assert_eq!(v.entries()[0].released_amount, 500);
    assert_eq!(l.balance_of(receiver), 500);
}

#[test]
fn released_amount_never_decreases_even_when_time_runs_backwards() {
    let vester = acc(99);
    let depositor = acc(1);
    let receiver = acc(2);
    let mut l = funded(depositor, vester, 900);
    let mut v = VestingData::new();
    let schedule = VestingSchedule::Linear { start: 0, end: 90 };
    v.create_vest(&mut l, vester, depositor, receiver, None, 900, schedule, 0)
        .unwrap();
    assert_eq!(
        v.release(&mut l, vester, acc(7), receiver, None, 30, &Vec::new()),
        Ok(300)
    );
    // A lying time source moving backwards pays nothing and takes nothing back.
    assert_eq!(
        v.release(&mut l, vester, acc(7), receiver, None, 20, &Vec::new()),
        Ok(0)
    );
    assert_eq!(v.entries()[0].released_amount, 300);
    assert_eq!(l.balance_of(receiver), 300);
}

#[test]
fn instant_schedule_pays_everything_at_once() {
    let vester = acc(99);
    let depositor = acc(1);
    let receiver = acc(2);
    let mut l = funded(depositor, vester, 250);
    let mut v = VestingData::new();
    v.create_vest(&mut l, vester, depositor, receiver, None, 250, VestingSchedule::Instant, 0)
        .unwrap();
    assert_eq!(
        v.release(&mut l, vester, acc(7), receiver, None, 0, &Vec::new()),
        Ok(250)
    );
    assert_eq!(l.balance_of(receiver), 250);
}

#[test]
fn failed_oracle_behaves_exactly_like_the_fallback_linear_schedule() {
    let vester = acc(99);
    let depositor = acc(1);
    let rx_ext = acc(2);
    let rx_lin = acc(3);
    let mut l = funded(depositor, vester, 2000);
    let mut v = VestingData::new();
    let ext = VestingSchedule::External {
        oracle: acc(55),
        fallback_start: 100,
        fallback_end: 200,
    };
    let lin = VestingSchedule::Linear { start: 100, end: 200 };
    v.create_vest(&mut l, vester, depositor, rx_ext, None, 1000, ext, 0)
        .unwrap();
    v.create_vest(&mut l, vester, depositor, rx_lin, None, 1000, lin, 0)
        .unwrap();
    // No reading for oracle 55: its query failed.
    let empty: Vec<OracleReading> = Vec::new();
    for t in [0u64, 100, 130, 150, 199, 200, 500] {
        let a = v.release(&mut l, vester, acc(7), rx_ext, None, t, &empty);
        let b = v.release(&mut l, vester, acc(7), rx_lin, None, t, &empty);
        assert_eq!(a, b);
    }
    assert_eq!(l.balance_of(rx_ext), l.balance_of(rx_lin));
    assert_eq!(l.balance_of(rx_ext), 1000);
}

#[test]
fn oracle_reading_overrides_the_fallback_pair() {
    let vester = acc(99);
    let depositor = acc(1);
    let receiver = acc(2);
    let mut l = funded(depositor, vester, 600);
    let mut v = VestingData::new();
    let ext = VestingSchedule::External {
        oracle: acc(55),
        fallback_start: 1000,
        fallback_end: 2000,
    };
    v.create_vest(&mut l, vester, depositor, receiver, None, 600, ext, 0)
        .unwrap();
    let readings = vec![OracleReading { oracle: acc(55), window: (0, 6) }];
    // Under the oracle's window (0, 6), half the time has passed at 3.
    assert_eq!(
        v.release(&mut l, vester, acc(7), receiver, None, 3, &readings),
        Ok(300)
    );
    // Without the reading the fallback window (1000, 2000) has not opened.
    assert_eq!(
        v.release(&mut l, vester, acc(7), receiver, None, 4, &Vec::new()),
        Ok(0)
    );
    assert_eq!(v.entries()[0].released_amount, 300);
}

#[test]
fn two_deposits_for_one_receiver_aggregate_in_a_single_release() {
    let vester = acc(99);
    let depositor = acc(1);
    let receiver = acc(2);
    let mut l = funded(depositor, vester, 1000);
    let mut v = VestingData::new();
    let lin = VestingSchedule::Linear { start: 0, end: 90 };
    v.create_vest(&mut l, vester, depositor, receiver, None, 900, lin, 0)
        .unwrap();
    v.create_vest(&mut l, vester, depositor, receiver, None, 100, VestingSchedule::Instant, 0)
        .unwrap();
    // At 30: 300 of the linear deposit plus all 100 of the instant one.
    assert_eq!(
        v.release(&mut l, vester, acc(7), receiver, None, 30, &Vec::new()),
        Ok(400)
    );
    assert_eq!(v.entries()[0].released_amount, 300);
    assert_eq!(v.entries()[1].released_amount, 100);
    assert_eq!(l.balance_of(receiver), 400);
    assert_eq!(l.balance_of(vester), 600);
    assert_eq!(
        v.events()[2],
        VestingEvent::TokenReleased { caller: acc(7), asset: None, receiver, amount: 400 }
    );
}

#[test]
fn release_with_no_matching_entries_is_a_successful_no_op() {
    let vester = acc(99);
    let mut l = PSP22Data::new();
    let mut v = VestingData::new();
    assert_eq!(
        v.release(&mut l, vester, acc(7), acc(2), None, 1000, &Vec::new()),
        Ok(0)
    );
    assert_eq!(v.events().len(), 1);
}

#[test]
fn release_only_touches_the_matching_pair() {
    let vester = acc(99);
    let depositor = acc(1);
    let rx_a = acc(2);
    let rx_b = acc(3);
    let asset = Some(acc(42));
    let mut l = funded(depositor, vester, 300);
    let mut v = VestingData::new();
    v.create_vest(&mut l, vester, depositor, rx_a, None, 100, VestingSchedule::Instant, 0)
        .unwrap();
    v.create_vest(&mut l, vester, depositor, rx_b, None, 100, VestingSchedule::Instant, 0)
        .unwrap();
    v.create_vest(&mut l, vester, depositor, rx_a, asset, 100, VestingSchedule::Instant, 0)
        .unwrap();
    assert_eq!(
        v.release(&mut l, vester, acc(7), rx_a, None, 5, &Vec::new()),
        Ok(100)
    );
    assert_eq!(v.entries()[0].released_amount, 100);
    assert_eq!(v.entries()[1].released_amount, 0);
    assert_eq!(v.entries()[2].released_amount, 0);
}

#[test]
fn schedule_math_overflow_aborts_the_release_untouched() {
    let vester = acc(99);
    let depositor = acc(1);
    let receiver = acc(2);
    let mut l = funded(depositor, vester, u128::MAX);
    let mut v = VestingData::new();
    let schedule = VestingSchedule::Linear { start: 0, end: 10 };
    v.create_vest(&mut l, vester, depositor, receiver, None, u128::MAX, schedule, 0)
        .unwrap();
    assert_eq!(
        v.release(&mut l, vester, acc(7), receiver, None, 5, &Vec::new()),
        Err(PSP22Error::Overflow)
    );
    assert_eq!(v.entries()[0].released_amount, 0);
    assert_eq!(l.balance_of(vester), u128::MAX);
    // At maturity no multiplication happens and the full amount comes out.
    assert_eq!(
        v.release(&mut l, vester, acc(7), receiver, None, 10, &Vec::new()),
        Ok(u128::MAX)
    );
    assert_eq!(l.balance_of(receiver), u128::MAX);
}

#[test]
fn foreign_asset_bookkeeping_mirrors_the_native_path() {
    // A deployment around a foreign ledger records the vest after it has
    // pulled the deposit itself, asks what is due, then records the
    // release before making the outbound payout.
    let asset = Some(acc(42));
    let receiver = acc(2);
    let mut v = VestingData::new();
    let lin = VestingSchedule::Linear { start: 0, end: 90 };
    assert_eq!(v.record_vest(acc(1), receiver, asset, 900, lin, 0), Ok(()));
    assert_eq!(v.releasable(receiver, asset, &Vec::new(), 30), Ok(300));
    assert_eq!(v.entries()[0].released_amount, 0);
    assert_eq!(
        v.record_release(acc(7), receiver, asset, 30, &Vec::new()),
        Ok(300)
    );
    assert_eq!(v.entries()[0].released_amount, 300);
    assert_eq!(
        v.events()[1],
        VestingEvent::TokenReleased { caller: acc(7), asset, receiver, amount: 300 }
    );
}

#[test]
fn record_vest_rejects_what_create_vest_rejects() {
    let mut v = VestingData::new();
    assert_eq!(
        v.record_vest(acc(1), acc(2), None, 0, VestingSchedule::Instant, 0),
        Err(PSP22Error::Custom("ZeroAmount".to_owned()))
    );
    assert_eq!(
        v.record_vest(acc(1), AccountId::null(), None, 5, VestingSchedule::Instant, 0),
        Err(PSP22Error::ZeroRecipientAddress)
    );
    assert_eq!(v.entries().len(), 0);
    assert_eq!(v.events().len(), 0);
}

#[test]
fn short_custody_aborts_the_release_untouched() {
    let vester = acc(99);
    let depositor = acc(1);
    let receiver = acc(2);
    let mut l = funded(depositor, vester, 100);
    let mut v = VestingData::new();
    v.create_vest(&mut l, vester, depositor, receiver, None, 100, VestingSchedule::Instant, 0)
        .unwrap();
    // Custody drained behind the vesting ledger's back: an internal
    // invariant violation that must abort without partial credit.
    l.burn(vester, 60).unwrap();
    assert_eq!(
        v.release(&mut l, vester, acc(7), receiver, None, 5, &Vec::new()),
        Err(PSP22Error::InsufficientBalance)
    );
    assert_eq!(v.entries()[0].released_amount, 0);
    assert_eq!(l.balance_of(receiver), 0);
}
