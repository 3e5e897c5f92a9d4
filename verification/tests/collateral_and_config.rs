use creditra_credit::borrow::draw_status_error;
use creditra_credit::collateral::{deposit_collateral, required_collateral, withdraw_collateral};
use creditra_credit::config::{init, InitialState, SCHEMA_VERSION};
use creditra_credit::storage::{
    assert_not_paused, assert_ts_monotonic, set_draw_min_interval, set_reentrancy_guard,
    total_utilized_after,
};
use creditra_credit::types::{ContractError, CreditStatus};

#[test]
fn deposit_adds_to_balance() {
    assert_eq!(deposit_collateral(100, 50, true), Ok(150));
    assert_eq!(deposit_collateral(100, 0, true), Err(ContractError::InvalidAmount));
    assert_eq!(deposit_collateral(100, -5, true), Err(ContractError::InvalidAmount));
    assert_eq!(deposit_collateral(100, 5, false), Err(ContractError::MissingLiquidityToken));
    assert_eq!(deposit_collateral(i128::MAX, 1, true), Err(ContractError::Overflow));
}

#[test]
fn withdraw_without_debt_can_take_everything() {
    assert_eq!(withdraw_collateral(500, 500, None, None, true), Ok(0));
    assert_eq!(withdraw_collateral(500, 200, Some(0), None, true), Ok(300));
    assert_eq!(withdraw_collateral(500, 501, None, None, true), Err(ContractError::InsufficientRepaymentBalance));
    assert_eq!(withdraw_collateral(500, 0, None, None, true), Err(ContractError::InvalidAmount));
    assert_eq!(withdraw_collateral(500, 10, None, None, false), Err(ContractError::MissingLiquidityToken));
}

#[test]
fn withdraw_keeps_minimum_collateral_ratio() {
    // 1_000 of debt at the default 150% requires 1_500 of collateral.
    assert_eq!(required_collateral(1_000, 15_000), Some(1_500));
    assert_eq!(withdraw_collateral(2_000, 500, Some(1_000), None, true), Ok(1_500));
    assert_eq!(
        withdraw_collateral(2_000, 501, Some(1_000), None, true),
        Err(ContractError::CollateralRatioBelowMinimum)
    );
    // A configured 200% ratio requires 2_000.
    assert_eq!(
        withdraw_collateral(2_000, 1, Some(1_000), Some(20_000), true),
        Err(ContractError::CollateralRatioBelowMinimum)
    );
    assert_eq!(
        withdraw_collateral(2_000, 1, Some(i128::MAX), None, true),
        Err(ContractError::Overflow)
    );
}

#[test]
fn required_collateral_truncates_toward_zero() {
    assert_eq!(required_collateral(1, 15_000), Some(1));
    assert_eq!(required_collateral(-1, 15_000), Some(-1));
    assert_eq!(required_collateral(i128::MAX, 2), None);
}

#[test]
fn init_already_initialized_panics() {
    assert_eq!(init(true), Err(ContractError::AlreadyInitialized));
}

#[test]
fn init_sets_default_configuration() {
    assert_eq!(
        init(false),
        Ok(InitialState {
            credit_line_count: 0,
            total_utilized: 0,
            schema_version: SCHEMA_VERSION,
            min_collateral_ratio_bps: 15_000,
        })
    );
}

#[test]
fn guards_behave_as_documented() {
    assert_eq!(assert_not_paused(false), Ok(()));
    assert_eq!(assert_not_paused(true), Err(ContractError::Paused));
    assert_eq!(assert_ts_monotonic(0, 0), Ok(()));
    assert_eq!(assert_ts_monotonic(0, 5), Ok(()));
    assert_eq!(assert_ts_monotonic(5, 6), Ok(()));
    assert_eq!(assert_ts_monotonic(5, 5), Err(ContractError::Paused));
    assert_eq!(assert_ts_monotonic(5, 4), Err(ContractError::Paused));
    assert_eq!(set_reentrancy_guard(false), Ok(()));
    assert_eq!(set_reentrancy_guard(true), Err(ContractError::Reentrancy));
    assert_eq!(set_draw_min_interval(0), None);
    assert_eq!(set_draw_min_interval(60), Some(60));
}

#[test]
fn draw_status_rules() {
    assert_eq!(draw_status_error(CreditStatus::Active), None);
    assert_eq!(draw_status_error(CreditStatus::Restricted), None);
    assert_eq!(draw_status_error(CreditStatus::Suspended), Some(ContractError::CreditLineSuspended));
    assert_eq!(draw_status_error(CreditStatus::Defaulted), Some(ContractError::CreditLineDefaulted));
    assert_eq!(draw_status_error(CreditStatus::Closed), Some(ContractError::CreditLineClosed));
}

#[test]
fn total_utilized_tracks_line_changes() {
    assert_eq!(total_utilized_after(1_000, Some(400), 700), Ok(1_300));
    assert_eq!(total_utilized_after(1_000, Some(400), 0), Ok(600));
    assert_eq!(total_utilized_after(1_000, None, 0), Ok(1_000));
    assert_eq!(total_utilized_after(1_000, None, 250), Ok(1_250));
    assert_eq!(total_utilized_after(i128::MAX, Some(0), 1), Err(ContractError::Overflow));
    assert_eq!(total_utilized_after(0, Some(i128::MIN), 1), Err(ContractError::Overflow));
}

#[test]
fn deposit_then_withdraw_restores_balance() {
    let deposited = deposit_collateral(250, 100, true).unwrap();
    assert_eq!(withdraw_collateral(deposited, 100, None, None, true), Ok(250));
}
