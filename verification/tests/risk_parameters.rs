use creditra_credit::accrual::apply_accrual;
use creditra_credit::lifecycle::{default_credit_line, open_credit_line, reinstate_credit_line, suspend_credit_line};
use creditra_credit::risk::{compute_rate_from_score, update_risk_parameters};
use creditra_credit::types::{
    AccountId, ContractError, CreditLineData, CreditStatus, RateChangeConfig, RateFormulaConfig,
    Revert,
};

fn acct(name: &str) -> AccountId {
    AccountId { key: name.as_bytes().to_vec() }
}

fn line_at(limit: i128, rate: u32, score: u32, now: u64) -> CreditLineData {
    open_credit_line(false, None, acct("borrower"), limit, rate, score, now).unwrap().line
}

fn update(line: &CreditLineData, limit: i128, rate: u32, score: u32, now: u64) -> Result<CreditLineData, Revert> {
    update_risk_parameters(false, Some(line.clone()), limit, rate, score, None, None, now, None)
}

// ── timestamps (the ledger starts at 1_000; lines open with 10_000 / 500 bps / 10) ──

#[test]
fn rate_update_ts_advances_forward() {
    let line = line_at(10_000, 500, 10, 1_000);
    let line = update(&line, 10_000, 600, 10, 2_000).unwrap();
    assert_eq!(line.last_rate_update_ts, 2_000);
}

#[test]
fn rate_update_ts_regression_rejected() {
    let line = line_at(10_000, 500, 10, 1_000);
    let line = update(&line, 10_000, 600, 10, 2_000).unwrap();
    assert_eq!(update(&line, 10_000, 700, 10, 1_500), Err(Revert::Code(ContractError::Paused)));
}

#[test]
fn rate_update_ts_equal_rejected() {
    let line = line_at(10_000, 500, 10, 1_000);
    let line = update(&line, 10_000, 600, 10, 2_000).unwrap();
    assert_eq!(update(&line, 10_000, 700, 10, 2_000), Err(Revert::Code(ContractError::Paused)));
}

#[test]
fn rate_update_ts_first_write_always_passes() {
    let line = line_at(10_000, 500, 10, 1_000);
    let line = update(&line, 10_000, 600, 10, 3_000).unwrap();
    assert_eq!(line.last_rate_update_ts, 3_000);
}

#[test]
fn suspension_ts_set_on_suspend() {
    let line = line_at(10_000, 500, 10, 1_000);
    let line = suspend_credit_line(false, Some(line), 2_000, None).unwrap();
    assert_eq!(line.suspension_ts, 2_000);
}

/// Reinstatement is valid only from Defaulted, so unlike a reinstatement
/// straight from Suspended (which reverts), the suspended line is marked
/// Defaulted before it is reinstated; the suspension timestamp is then
/// cleared and a later suspension at an earlier time is accepted.
#[test]
fn suspension_ts_cleared_when_a_suspended_then_defaulted_line_is_reinstated() {
    let line = line_at(10_000, 500, 10, 1_000);
    let mut line = suspend_credit_line(false, Some(line), 2_000, None).unwrap();
    line.status = CreditStatus::Defaulted;
    let line = reinstate_credit_line(false, Some(line), CreditStatus::Active, 3_000, None).unwrap();
    assert_eq!(line.suspension_ts, 0);
    let line = suspend_credit_line(false, Some(line), 1_500, None).unwrap();
    assert_eq!(line.suspension_ts, 1_500);
}

#[test]
fn accrual_ts_regression_is_noop() {
    let mut line = line_at(10_000, 500, 10, 1_000);
    line = apply_accrual(line, 2_000, None).unwrap();
    line.utilized_amount += 1_000;
    let ts_before = line.last_accrual_ts;
    let line = apply_accrual(line, 1_500, None).unwrap();
    assert_eq!(line.last_accrual_ts, ts_before);
}

// ── overflow audit ──────────────────────────────────────────────────────────

#[test]
fn max_rate_large_principal_long_elapsed_does_not_panic() {
    let principal: i128 = 1_000_000_000_000_000_000;
    let mut line = line_at(principal, 10_000, 50, 0);
    line = apply_accrual(line, 1, None).unwrap();
    line.utilized_amount += principal;
    let one_thousand_years: u64 = 1_000 * 31_536_000;
    let line = update(&line, i128::MAX, 10_000, 50, 1 + one_thousand_years).unwrap();
    assert!(line.accrued_interest > 0, "expected positive accrued interest, got {}", line.accrued_interest);
    assert!(line.utilized_amount > principal, "utilized_amount must have grown from accrual");
}

#[test]
fn overflow_path_returns_contract_error_overflow_deterministically() {
    let huge_principal: i128 = i128::MAX / 2;
    let mut line = line_at(huge_principal, 10_000, 50, 0);
    line = apply_accrual(line, 1, None).unwrap();
    line.utilized_amount += huge_principal;
    assert_eq!(update(&line, i128::MAX, 10_000, 50, 2), Err(Revert::Code(ContractError::Overflow)));
}

#[test]
fn overflow_path_is_deterministic_same_inputs_same_error() {
    let huge_principal: i128 = i128::MAX / 2;
    for _ in 0..2 {
        let mut line = line_at(huge_principal, 10_000, 50, 0);
        line = apply_accrual(line, 1, None).unwrap();
        line.utilized_amount += huge_principal;
        assert_eq!(update(&line, i128::MAX, 10_000, 50, 2), Err(Revert::Code(ContractError::Overflow)));
    }
}

// ── validation (lines open with 10_000 / 500 bps / 50) ─────────────────────

#[test]
fn update_risk_negative_limit_panics() {
    let line = line_at(10_000, 500, 50, 0);
    assert_eq!(update(&line, -100, 500, 50, 0), Err(Revert::Code(ContractError::NegativeLimit)));
}

#[test]
fn update_risk_score_too_high_panics() {
    let line = line_at(10_000, 500, 50, 0);
    assert_eq!(update(&line, 10_000, 500, 101, 0), Err(Revert::Code(ContractError::ScoreTooHigh)));
}

#[test]
fn update_risk_rate_too_high_panics() {
    let line = line_at(10_000, 500, 50, 0);
    assert_eq!(update(&line, 10_000, 10_001, 50, 0), Err(Revert::Code(ContractError::RateTooHigh)));
}

#[test]
fn update_risk_rate_change_exceeds_limit() {
    let line = line_at(10_000, 500, 50, 0);
    let cfg = RateChangeConfig { max_rate_change_bps: 100, rate_change_min_interval: 0 };
    assert_eq!(
        update_risk_parameters(false, Some(line), 10_000, 700, 50, None, Some(cfg), 0, None),
        Err(Revert::RateChangeTooLarge)
    );
}

#[test]
fn update_risk_rate_change_within_limit() {
    let line = line_at(10_000, 500, 50, 0);
    let cfg = RateChangeConfig { max_rate_change_bps: 200, rate_change_min_interval: 0 };
    let line = update_risk_parameters(false, Some(line), 10_000, 600, 50, None, Some(cfg), 0, None).unwrap();
    assert_eq!(line.interest_rate_bps, 600);
}

#[test]
fn update_risk_rate_change_min_interval_enforced() {
    let line = line_at(10_000, 500, 50, 1_000);
    let cfg = RateChangeConfig { max_rate_change_bps: 1_000, rate_change_min_interval: 100 };
    let line = update_risk_parameters(false, Some(line), 10_000, 600, 50, None, Some(cfg), 2_000, None).unwrap();
    assert_eq!(
        update_risk_parameters(false, Some(line.clone()), 10_000, 700, 50, None, Some(cfg), 2_050, None),
        Err(Revert::Code(ContractError::RateTooHigh))
    );
    let line = update_risk_parameters(false, Some(line), 10_000, 700, 50, None, Some(cfg), 2_100, None).unwrap();
    assert_eq!(line.interest_rate_bps, 700);
    assert_eq!(line.last_rate_update_ts, 2_100);
}

#[test]
fn update_risk_missing_line_reverts() {
    assert_eq!(
        update_risk_parameters(false, None, 10_000, 500, 50, None, None, 0, None),
        Err(Revert::Code(ContractError::CreditLineNotFound))
    );
}

// ── restricted status ───────────────────────────────────────────────────────

#[test]
fn restricted_rejects_new_draws_and_allows_repayment() {
    let mut line = line_at(10_000, 300, 50, 0);
    line.utilized_amount += 5_000;
    let line = update(&line, 2_000, 300, 50, 0).unwrap();
    assert_eq!(line.status, CreditStatus::Restricted);
    assert_eq!(line.utilized_amount, 5_000);
    assert_eq!(line.credit_limit, 2_000);
}

#[test]
fn restricted_line_cured_when_limit_covers_utilization() {
    let mut line = line_at(10_000, 300, 50, 0);
    line.utilized_amount += 5_000;
    let line = update(&line, 2_000, 300, 50, 0).unwrap();
    assert_eq!(line.status, CreditStatus::Restricted);
    let line = update(&line, 5_000, 300, 50, 0).unwrap();
    assert_eq!(line.status, CreditStatus::Active);
}

#[test]
fn limit_update_keeps_suspended_status() {
    let line = line_at(10_000, 300, 50, 0);
    let line = suspend_credit_line(false, Some(line), 0, None).unwrap();
    let line = update(&line, 5_000, 300, 50, 0).unwrap();
    assert_eq!(line.status, CreditStatus::Suspended);
}

#[test]
fn limit_below_debt_does_not_revive_a_closed_line() {
    let mut line = line_at(10_000, 300, 50, 0);
    line.utilized_amount += 500;
    line.status = CreditStatus::Closed;
    let line = update(&line, 100, 300, 50, 0).unwrap();
    assert_eq!(line.status, CreditStatus::Closed);
    let line = update(&line, 10_000, 300, 50, 0).unwrap();
    assert_eq!(line.status, CreditStatus::Closed);
}

#[test]
fn update_writes_the_new_risk_score() {
    let line = line_at(10_000, 500, 50, 0);
    let line = update(&line, 10_000, 500, 80, 0).unwrap();
    assert_eq!(line.risk_score, 80);
    assert_eq!(line.credit_limit, 10_000);
}

#[test]
fn inverted_formula_bounds_revert_only_after_validation() {
    let bad = RateFormulaConfig { base_rate_bps: 200, slope_bps_per_score: 10, min_rate_bps: 900, max_rate_bps: 300 };
    let line = line_at(10_000, 500, 50, 0);
    assert_eq!(
        update_risk_parameters(false, Some(line.clone()), -1, 500, 50, Some(bad), None, 0, None),
        Err(Revert::Code(ContractError::NegativeLimit))
    );
    assert_eq!(
        update_risk_parameters(false, None, 10_000, 500, 50, Some(bad), None, 0, None),
        Err(Revert::Code(ContractError::CreditLineNotFound))
    );
    assert_eq!(
        update_risk_parameters(false, Some(line), 10_000, 500, 50, Some(bad), None, 0, None),
        Err(Revert::RateBoundsInverted)
    );
}

// ── rate formula ───────────────────────────────────────────────────────────

#[test]
fn rate_formula_is_linear_then_clamped() {
    let cfg = RateFormulaConfig { base_rate_bps: 200, slope_bps_per_score: 10, min_rate_bps: 300, max_rate_bps: 900 };
    assert_eq!(compute_rate_from_score(&cfg, 0), 300);
    assert_eq!(compute_rate_from_score(&cfg, 50), 700);
    assert_eq!(compute_rate_from_score(&cfg, 100), 900);
}

#[test]
fn rate_formula_saturates_and_caps_at_max_interest_rate() {
    let cfg = RateFormulaConfig { base_rate_bps: u32::MAX, slope_bps_per_score: u32::MAX, min_rate_bps: 0, max_rate_bps: 50_000 };
    assert_eq!(compute_rate_from_score(&cfg, 100), 10_000);
}

#[test]
fn update_with_formula_ignores_supplied_rate() {
    let cfg = RateFormulaConfig { base_rate_bps: 200, slope_bps_per_score: 10, min_rate_bps: 300, max_rate_bps: 900 };
    let line = line_at(10_000, 500, 50, 1_000);
    let line = update_risk_parameters(false, Some(line), 10_000, 9_999, 20, Some(cfg), None, 2_000, None).unwrap();
    assert_eq!(line.interest_rate_bps, 400);
    assert_eq!(line.last_rate_update_ts, 2_000);
}

#[test]
fn higher_risk_score_never_lowers_the_rate() {
    let cfg = RateFormulaConfig { base_rate_bps: 100, slope_bps_per_score: 37, min_rate_bps: 200, max_rate_bps: 3_000 };
    let mut prev = 0;
    for score in 0..=100u32 {
        let rate = compute_rate_from_score(&cfg, score);
        assert!(rate >= prev);
        assert!((200..=3_000).contains(&rate));
        prev = rate;
    }
}

#[test]
fn paused_contract_refuses_guarded_operations() {
    let line = line_at(10_000, 500, 50, 0);
    assert_eq!(
        update_risk_parameters(true, Some(line.clone()), 10_000, 600, 50, None, None, 0, None),
        Err(Revert::Code(ContractError::Paused))
    );
    assert_eq!(suspend_credit_line(true, Some(line.clone()), 0, None), Err(ContractError::Paused));
    assert_eq!(default_credit_line(true, Some(line.clone()), 0, None), Err(ContractError::Paused));
    assert_eq!(
        reinstate_credit_line(true, Some(line), CreditStatus::Active, 0, None),
        Err(ContractError::Paused)
    );
    assert_eq!(
        open_credit_line(true, None, acct("b"), 10_000, 500, 50, 0),
        Err(ContractError::Paused)
    );
    assert_eq!(default_credit_line(true, None, 0, None), Err(ContractError::Paused));
}
