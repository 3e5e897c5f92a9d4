use creditra_credit::borrow::draw_status_error;
use creditra_credit::lifecycle::{
    close_credit_line, default_credit_line, open_credit_line, suspend_credit_line, LineUpdate,
};
use creditra_credit::types::{AccountId, ContractError, CreditLineData, CreditStatus, Revert};

fn acct(name: &str) -> AccountId {
    AccountId { key: name.as_bytes().to_vec() }
}

fn open_line(borrower: &AccountId) -> CreditLineData {
    open_credit_line(false, None, borrower.clone(), 1_000, 300, 70, 0).unwrap().line
}

fn closed(update: Result<LineUpdate, Revert>) -> CreditLineData {
    match update {
        Ok(LineUpdate::Store(line)) => line,
        other => panic!("expected a stored line, got {:?}", other),
    }
}

fn suspended(line: CreditLineData) -> CreditLineData {
    suspend_credit_line(false, Some(line), 0, None).unwrap()
}

fn defaulted(line: CreditLineData) -> CreditLineData {
    match default_credit_line(false, Some(line), 0, None) {
        Ok(LineUpdate::Store(l)) => l,
        other => panic!("expected a defaulted line, got {:?}", other),
    }
}

#[test]
fn borrower_can_close_when_utilization_is_zero() {
    let (admin, borrower) = (acct("admin"), acct("borrower"));
    let line = open_line(&borrower);
    let line = closed(close_credit_line(Some(line), &borrower, &borrower, &admin));
    assert_eq!(line.status, CreditStatus::Closed);
    assert_eq!(line.utilized_amount, 0);
}

#[test]
fn admin_can_force_close_with_non_zero_utilization() {
    let (admin, borrower) = (acct("admin"), acct("borrower"));
    let mut line = open_line(&borrower);
    line.utilized_amount += 400;
    assert_eq!(line.utilized_amount, 400);
    let line = closed(close_credit_line(Some(line), &borrower, &admin, &admin));
    assert_eq!(line.status, CreditStatus::Closed);
}

#[test]
fn admin_can_close_with_zero_utilization() {
    let (admin, borrower) = (acct("admin"), acct("borrower"));
    let line = open_line(&borrower);
    let line = closed(close_credit_line(Some(line), &borrower, &admin, &admin));
    assert_eq!(line.status, CreditStatus::Closed);
}

#[test]
fn borrower_cannot_close_with_non_zero_utilization() {
    let (admin, borrower) = (acct("admin"), acct("borrower"));
    let mut line = open_line(&borrower);
    line.utilized_amount += 1;
    assert_eq!(
        close_credit_line(Some(line), &borrower, &borrower, &admin),
        Err(Revert::UtilizedNotZero)
    );
}

#[test]
fn stranger_cannot_close_credit_line() {
    let (admin, borrower, stranger) = (acct("admin"), acct("borrower"), acct("stranger"));
    let line = open_line(&borrower);
    assert_eq!(
        close_credit_line(Some(line), &borrower, &stranger, &admin),
        Err(Revert::Unauthorized)
    );
}

#[test]
fn stranger_cannot_close_even_with_zero_utilization() {
    let (admin, borrower, stranger) = (acct("admin"), acct("borrower"), acct("stranger"));
    let line = open_line(&borrower);
    assert_eq!(line.utilized_amount, 0);
    assert_eq!(
        close_credit_line(Some(line), &borrower, &stranger, &admin),
        Err(Revert::Unauthorized)
    );
}

#[test]
fn close_is_idempotent_when_already_closed() {
    let (admin, borrower) = (acct("admin"), acct("borrower"));
    let line = closed(close_credit_line(Some(open_line(&borrower)), &borrower, &admin, &admin));
    assert_eq!(
        close_credit_line(Some(line.clone()), &borrower, &admin, &admin),
        Ok(LineUpdate::Unchanged)
    );
    assert_eq!(line.status, CreditStatus::Closed);
}

#[test]
fn closed_line_has_closed_status_preventing_draws() {
    let (admin, borrower) = (acct("admin"), acct("borrower"));
    let line = closed(close_credit_line(Some(open_line(&borrower)), &borrower, &admin, &admin));
    assert_eq!(line.status, CreditStatus::Closed);
    assert_eq!(draw_status_error(line.status), Some(ContractError::CreditLineClosed));
}

#[test]
fn admin_can_close_suspended_line() {
    let (admin, borrower) = (acct("admin"), acct("borrower"));
    let line = suspended(open_line(&borrower));
    assert_eq!(line.status, CreditStatus::Suspended);
    let line = closed(close_credit_line(Some(line), &borrower, &admin, &admin));
    assert_eq!(line.status, CreditStatus::Closed);
}

#[test]
fn admin_can_close_defaulted_line() {
    let (admin, borrower) = (acct("admin"), acct("borrower"));
    let line = defaulted(open_line(&borrower));
    assert_eq!(line.status, CreditStatus::Defaulted);
    let line = closed(close_credit_line(Some(line), &borrower, &admin, &admin));
    assert_eq!(line.status, CreditStatus::Closed);
}

#[test]
fn borrower_can_close_suspended_line_with_zero_utilization() {
    let (admin, borrower) = (acct("admin"), acct("borrower"));
    let line = suspended(open_line(&borrower));
    let line = closed(close_credit_line(Some(line), &borrower, &borrower, &admin));
    assert_eq!(line.status, CreditStatus::Closed);
}

#[test]
fn idempotent_close_emits_no_additional_event() {
    let (admin, borrower) = (acct("admin"), acct("borrower"));
    let first = close_credit_line(Some(open_line(&borrower)), &borrower, &admin, &admin);
    let line = closed(first);
    // An unchanged outcome writes nothing and publishes no event.
    assert_eq!(
        close_credit_line(Some(line), &borrower, &admin, &admin),
        Ok(LineUpdate::Unchanged)
    );
}

#[test]
fn close_nonexistent_line_reverts() {
    let (admin, borrower) = (acct("admin"), acct("borrower"));
    assert_eq!(
        close_credit_line(None, &borrower, &admin, &admin),
        Err(Revert::LineNotFound)
    );
}

#[test]
fn close_sets_status_to_closed_and_does_not_mutate_other_fields() {
    let (admin, borrower) = (acct("admin"), acct("borrower"));
    let before = open_line(&borrower);
    let after = closed(close_credit_line(Some(before.clone()), &borrower, &admin, &admin));
    assert_eq!(after.status, CreditStatus::Closed);
    assert_eq!(after.borrower, before.borrower);
    assert_eq!(after.credit_limit, before.credit_limit);
    assert_eq!(after.utilized_amount, before.utilized_amount);
    assert_eq!(after.interest_rate_bps, before.interest_rate_bps);
    assert_eq!(after.risk_score, before.risk_score);
}

#[test]
fn open_credit_line_succeeds_after_close() {
    let (admin, borrower) = (acct("admin"), acct("borrower"));
    let line = closed(close_credit_line(Some(open_line(&borrower)), &borrower, &admin, &admin));
    let reopened = open_credit_line(false, Some(line.status), borrower.clone(), 2_000, 400, 60, 0).unwrap();
    assert!(reopened.needs_admin_auth);
    let line = reopened.line;
    assert_eq!(line.status, CreditStatus::Active);
    assert_eq!(line.credit_limit, 2_000);
    assert_eq!(line.utilized_amount, 0);
}

#[test]
fn borrower_close_at_exact_zero_utilization_boundary() {
    let (admin, borrower) = (acct("admin"), acct("borrower"));
    let line = open_credit_line(false, None, borrower.clone(), 1, 300, 70, 0).unwrap().line;
    let line = closed(close_credit_line(Some(line), &borrower, &borrower, &admin));
    assert_eq!(line.status, CreditStatus::Closed);
}

#[test]
fn closed_line_keeps_borrower_and_status() {
    let (admin, borrower) = (acct("admin"), acct("borrower"));
    let line = open_line(&borrower);
    let line_after = closed(close_credit_line(Some(line), &borrower, &admin, &admin));
    assert_eq!(line_after.status, CreditStatus::Closed);
    assert_eq!(line_after.borrower, borrower);
}
