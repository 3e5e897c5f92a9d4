use creditra_credit::accrual::apply_accrual;
use creditra_credit::lifecycle::{open_credit_line, suspend_credit_line};
use creditra_credit::types::{
    AccountId, ContractError, CreditLineData, GracePeriodConfig, GraceWaiverMode,
};

const YEAR: u64 = 31_536_000;

fn drawn_line(amount: i128, rate: u32) -> CreditLineData {
    let mut line = open_credit_line(false, None, AccountId { key: b"b".to_vec() }, 1_000_000, rate, 10, 0)
        .unwrap()
        .line;
    line.utilized_amount += amount;
    line
}

#[test]
fn one_year_accrual_capitalises_interest() {
    let line = apply_accrual(drawn_line(10_000, 300), YEAR, None).unwrap();
    assert_eq!(line.utilized_amount, 10_300);
    assert_eq!(line.accrued_interest, 300);
    assert_eq!(line.last_accrual_ts, YEAR);
}

#[test]
fn zero_accrual_does_not_move_the_checkpoint() {
    let line = apply_accrual(drawn_line(10_000, 300), 60, None).unwrap();
    assert_eq!(line.utilized_amount, 10_000);
    assert_eq!(line.last_accrual_ts, 0);
}

#[test]
fn nothing_accrues_without_utilization() {
    let line = apply_accrual(drawn_line(0, 300), YEAR, None).unwrap();
    assert_eq!(line.accrued_interest, 0);
    assert_eq!(line.last_accrual_ts, 0);
}

#[test]
fn accruing_twice_at_the_same_time_adds_nothing() {
    let once = apply_accrual(drawn_line(10_000, 300), YEAR, None).unwrap();
    let twice = apply_accrual(once.clone(), YEAR, None).unwrap();
    assert_eq!(once, twice);
}

#[test]
fn interest_overflowing_i128_reports_overflow() {
    let mut line = drawn_line(0, 10_000);
    line.utilized_amount = i128::MAX - 10;
    // The interest fits in u128 but the new balance does not fit in i128.
    assert_eq!(apply_accrual(line, 10, None), Err(ContractError::Overflow));
}

fn suspended_at(ts: u64, amount: i128) -> CreditLineData {
    let line = drawn_line(amount, 1_000);
    let line = suspend_credit_line(false, Some(line), ts, None).unwrap();
    assert_eq!(line.last_accrual_ts, ts);
    line
}

#[test]
fn full_waiver_inside_grace_window_accrues_nothing() {
    let cfg = GracePeriodConfig { grace_period_seconds: YEAR, waiver_mode: GraceWaiverMode::FullWaiver, reduced_rate_bps: 0 };
    let line = suspended_at(YEAR, 10_000);
    let after = apply_accrual(line.clone(), 2 * YEAR, Some(cfg)).unwrap();
    assert_eq!(after, line);
}

#[test]
fn reduced_rate_inside_grace_window() {
    let cfg = GracePeriodConfig { grace_period_seconds: YEAR, waiver_mode: GraceWaiverMode::ReducedRate, reduced_rate_bps: 100 };
    let line = suspended_at(YEAR, 10_000);
    let after = apply_accrual(line, 2 * YEAR, Some(cfg)).unwrap();
    assert_eq!(after.accrued_interest, 1_000 + 110);
}

#[test]
fn period_straddling_grace_end_is_split() {
    let cfg = GracePeriodConfig { grace_period_seconds: YEAR, waiver_mode: GraceWaiverMode::FullWaiver, reduced_rate_bps: 0 };
    let line = suspended_at(YEAR, 10_000);
    // Accrual at suspension time added one year at 1_000 bps.
    assert_eq!(line.accrued_interest, 1_000);
    let after = apply_accrual(line, 3 * YEAR, Some(cfg)).unwrap();
    // One waived year inside the window, one full-rate year after it.
    assert_eq!(after.accrued_interest, 1_000 + 1_100);
}

#[test]
fn period_after_grace_window_accrues_at_full_rate() {
    let cfg = GracePeriodConfig { grace_period_seconds: 10, waiver_mode: GraceWaiverMode::FullWaiver, reduced_rate_bps: 0 };
    let mut line = suspended_at(YEAR, 10_000);
    line.last_accrual_ts = YEAR + 10;
    let after = apply_accrual(line.clone(), 2 * YEAR + 10, Some(cfg)).unwrap();
    assert_eq!(after.accrued_interest, line.accrued_interest + 1_100);
}

#[test]
fn grace_window_never_raises_interest() {
    let reduced = GracePeriodConfig { grace_period_seconds: YEAR, waiver_mode: GraceWaiverMode::ReducedRate, reduced_rate_bps: 500 };
    let line = suspended_at(YEAR, 10_000);
    let with_grace = apply_accrual(line.clone(), 3 * YEAR, Some(reduced)).unwrap();
    let without = apply_accrual(line, 3 * YEAR, None).unwrap();
    assert_eq!(without.accrued_interest - 1_000, 2_200);
    assert_eq!(with_grace.accrued_interest - 1_000, 550 + 1_100);
    assert!(with_grace.accrued_interest <= without.accrued_interest);
}

#[test]
fn interest_grows_with_elapsed_time() {
    let mut last = 0;
    for years in 1..5u64 {
        let line = apply_accrual(drawn_line(10_000, 300), years * YEAR, None).unwrap();
        assert!(line.accrued_interest >= last);
        assert_eq!(line.accrued_interest, 300 * years as i128);
        assert_eq!(line.utilized_amount - line.accrued_interest, 10_000);
        last = line.accrued_interest;
    }
}
