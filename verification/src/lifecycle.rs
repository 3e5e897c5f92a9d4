//! Credit-line lifecycle: open, suspend, close, default, reinstate and
//! liquidation settlement.
//!
//! Each operation takes the stored line (`None` when the borrower has none),
//! the ledger time and, where the contract is guarded by its circuit breaker,
//! the pause flag; it applies interest accrual where the contract does, and
//! returns the line to store or the reason the call reverts.

use vstd::prelude::*;
use crate::accrual::{accrual_keeps_accounting, accrual_keeps_principal, accrual_result, apply_accrual};
use crate::risk::{update_risk_result, MAX_INTEREST_RATE_BPS, MAX_RISK_SCORE};
use crate::storage::{assert_not_paused, assert_ts_monotonic, ts_monotonic};
use crate::types::{AccountId, ContractError, CreditLineData, CreditStatus, GracePeriodConfig, RateChangeConfig, RateFormulaConfig, Revert};

verus! {

/// What a state-changing call does to the stored line.
#[derive(Clone, Debug, PartialEq, Eq)]
pub enum LineUpdate {
    /// Nothing is written and no event is emitted (an idempotent call).
    Unchanged,
    /// The line to store.
    Store(CreditLineData),
}

/// The line that `open_credit_line` stores, and whether the call needs the
/// admin's authorization (it reopens an existing line).
#[derive(Clone, Debug, PartialEq, Eq)]
pub struct OpenedLine {
    pub line: CreditLineData,
    pub needs_admin_auth: bool,
}

/// The outcome of opening a line for `borrower` when the stored line, if
/// any, has status `existing`.
pub open spec fn open_result(
    existing: Option<CreditStatus>,
    borrower: AccountId,
    credit_limit: i128,
    interest_rate_bps: u32,
    risk_score: u32,
    now: u64,
) -> Result<OpenedLine, ContractError> {
    if credit_limit <= 0 {
        Err(ContractError::InvalidAmount)
    } else if interest_rate_bps > MAX_INTEREST_RATE_BPS {
        Err(ContractError::RateTooHigh)
    } else if risk_score > MAX_RISK_SCORE {
        Err(ContractError::ScoreTooHigh)
    } else if existing == Some(CreditStatus::Active) {
        Err(ContractError::AlreadyInitialized)
    } else {
        Ok(OpenedLine {
            line: CreditLineData {
                borrower,
                credit_limit,
                utilized_amount: 0,
                interest_rate_bps,
                risk_score,
                status: CreditStatus::Active,
                last_rate_update_ts: 0,
                accrued_interest: 0,
                last_accrual_ts: now,
                suspension_ts: 0,
            },
            needs_admin_auth: existing is Some,
        })
    }
}

/// Open a credit line (or reopen a non-Active one) at ledger time `now`.
///
/// `existing` is the status of the borrower's stored line, if there is one.
/// Reopening needs admin authorization, so that a borrower cannot lift a
/// self-suspension on their own. A paused contract refuses the call.
pub fn open_credit_line(
    paused: bool,
    existing: Option<CreditStatus>,
    borrower: AccountId,
    credit_limit: i128,
    interest_rate_bps: u32,
    risk_score: u32,
    now: u64,
) -> (r: Result<OpenedLine, ContractError>)
    ensures
        paused ==> r == Err::<OpenedLine, ContractError>(ContractError::Paused),
        !paused ==> r == open_result(existing, borrower, credit_limit, interest_rate_bps, risk_score, now),
{
    assert_not_paused(paused)?;
    if credit_limit <= 0 {
        return Err(ContractError::InvalidAmount);
    }
    if interest_rate_bps > MAX_INTEREST_RATE_BPS {
        return Err(ContractError::RateTooHigh);
    }
    if risk_score > MAX_RISK_SCORE {
        return Err(ContractError::ScoreTooHigh);
    }
    let needs_admin_auth = match existing {
        Some(status) => {
            if status == CreditStatus::Active {
                return Err(ContractError::AlreadyInitialized);
            }
            true
        },
        None => false,
    };
    Ok(OpenedLine {
        line: CreditLineData {
            borrower,
            credit_limit,
            utilized_amount: 0,
            interest_rate_bps,
            risk_score,
            status: CreditStatus::Active,
            last_rate_update_ts: 0,
            accrued_interest: 0,
            last_accrual_ts: now,
            suspension_ts: 0,
        },
        needs_admin_auth,
    })
}

/// The outcome of suspending `line` at ledger time `now`: accrual first, then
/// `Active -> Suspended` with `suspension_ts = now`.
pub open spec fn suspend_result(line: Option<CreditLineData>, now: u64, grace: Option<GracePeriodConfig>) -> Result<CreditLineData, ContractError> {
    match line {
        None => Err(ContractError::CreditLineNotFound),
        Some(l) => match accrual_result(l, now, grace) {
            Err(e) => Err(e),
            Ok(a) => {
                if a.status != CreditStatus::Active {
                    Err(ContractError::CreditLineSuspended)
                } else if !ts_monotonic(a.suspension_ts, now) {
                    Err(ContractError::Paused)
                } else {
                    Ok(CreditLineData { status: CreditStatus::Suspended, suspension_ts: now, ..a })
                }
            },
        },
    }
}

/// Suspend an Active credit line (by the admin, or by the borrower as a
/// safety control). Draws are blocked afterwards; repayments stay allowed.
/// A paused contract refuses the call.
pub fn suspend_credit_line(paused: bool, line: Option<CreditLineData>, now: u64, grace: Option<GracePeriodConfig>) -> (r: Result<CreditLineData, ContractError>)
    ensures
        paused ==> r == Err::<CreditLineData, ContractError>(ContractError::Paused),
        !paused ==> r == suspend_result(line, now, grace),
{
    assert_not_paused(paused)?;
    let line = match line {
        Some(l) => l,
        None => {
            return Err(ContractError::CreditLineNotFound);
        },
    };
    let mut line = apply_accrual(line, now, grace)?;
    if line.status != CreditStatus::Active {
        return Err(ContractError::CreditLineSuspended);
    }
    line.status = CreditStatus::Suspended;
    assert_ts_monotonic(line.suspension_ts, now)?;
    line.suspension_ts = now;
    Ok(line)
}

/// The outcome of `closer` closing `borrower`'s line when `admin` is the
/// contract admin.
pub open spec fn close_result(line: Option<CreditLineData>, borrower: Seq<u8>, closer: Seq<u8>, admin: Seq<u8>) -> Result<LineUpdate, Revert> {
    match line {
        None => Err(Revert::LineNotFound),
        Some(l) => {
            if l.status == CreditStatus::Closed {
                Ok(LineUpdate::Unchanged)
            } else if closer == admin {
                Ok(LineUpdate::Store(CreditLineData { status: CreditStatus::Closed, ..l }))
            } else if closer == borrower {
                if l.utilized_amount != 0 {
                    Err(Revert::UtilizedNotZero)
                } else {
                    Ok(LineUpdate::Store(CreditLineData { status: CreditStatus::Closed, ..l }))
                }
            } else {
                Err(Revert::Unauthorized)
            }
        },
    }
}

/// Close a credit line.
///
/// The admin may always close; the borrower only when nothing is utilized;
/// anyone else is rejected. Closing an already closed line changes nothing.
pub fn close_credit_line(line: Option<CreditLineData>, borrower: &AccountId, closer: &AccountId, admin: &AccountId) -> (r: Result<LineUpdate, Revert>)
    ensures
        r == close_result(line, borrower@, closer@, admin@),
{
    let mut line = match line {
        Some(l) => l,
        None => {
            return Err(Revert::LineNotFound);
        },
    };
    if line.status == CreditStatus::Closed {
        return Ok(LineUpdate::Unchanged);
    }
    if closer.same_as(admin) {
    } else if closer.same_as(borrower) {
        if line.utilized_amount != 0 {
            return Err(Revert::UtilizedNotZero);
        }
    } else {
        return Err(Revert::Unauthorized);
    }
    line.status = CreditStatus::Closed;
    Ok(LineUpdate::Store(line))
}

/// The outcome of defaulting `line` at ledger time `now`.
pub open spec fn default_result(line: Option<CreditLineData>, now: u64, grace: Option<GracePeriodConfig>) -> Result<LineUpdate, ContractError> {
    match line {
        None => Err(ContractError::CreditLineNotFound),
        Some(l) => {
            if l.status == CreditStatus::Closed {
                Err(ContractError::CreditLineClosed)
            } else {
                match accrual_result(l, now, grace) {
                    Err(e) => Err(e),
                    Ok(a) => {
                        if a.status == CreditStatus::Defaulted {
                            Ok(LineUpdate::Unchanged)
                        } else {
                            Ok(LineUpdate::Store(CreditLineData { status: CreditStatus::Defaulted, ..a }))
                        }
                    },
                }
            }
        },
    }
}

/// Mark a credit line as defaulted (admin only). Closed lines cannot be
/// defaulted; defaulting a defaulted line changes nothing. A paused contract
/// refuses the call.
pub fn default_credit_line(paused: bool, line: Option<CreditLineData>, now: u64, grace: Option<GracePeriodConfig>) -> (r: Result<LineUpdate, ContractError>)
    ensures
        paused ==> r == Err::<LineUpdate, ContractError>(ContractError::Paused),
        !paused ==> r == default_result(line, now, grace),
{
    assert_not_paused(paused)?;
    let line = match line {
        Some(l) => l,
        None => {
            return Err(ContractError::CreditLineNotFound);
        },
    };
    if line.status == CreditStatus::Closed {
        return Err(ContractError::CreditLineClosed);
    }
    let mut line = apply_accrual(line, now, grace)?;
    if line.status == CreditStatus::Closed {
        return Err(ContractError::CreditLineClosed);
    }
    if line.status == CreditStatus::Defaulted {
        return Ok(LineUpdate::Unchanged);
    }
    line.status = CreditStatus::Defaulted;
    Ok(LineUpdate::Store(line))
}

/// The outcome of applying `recovered_amount` of liquidation proceeds to
/// `line`; `already_settled` tells whether this settlement id was applied
/// before for the borrower.
pub open spec fn settle_result(
    line: Option<CreditLineData>,
    recovered_amount: i128,
    already_settled: bool,
    now: u64,
    grace: Option<GracePeriodConfig>,
) -> Result<CreditLineData, Revert> {
    if recovered_amount <= 0 {
        Err(Revert::Code(ContractError::InvalidAmount))
    } else if already_settled {
        Err(Revert::Code(ContractError::AlreadyInitialized))
    } else {
        match line {
            None => Err(Revert::LineNotFound),
            Some(l) => match accrual_result(l, now, grace) {
                Err(e) => Err(Revert::Code(e)),
                Ok(a) => {
                    if a.status != CreditStatus::Defaulted {
                        Err(Revert::Code(ContractError::CreditLineDefaulted))
                    } else if recovered_amount > a.utilized_amount {
                        Err(Revert::Code(ContractError::OverLimit))
                    } else {
                        let remaining = a.utilized_amount - recovered_amount;
                        Ok(CreditLineData {
                            utilized_amount: remaining as i128,
                            accrued_interest: if a.accrued_interest > remaining { remaining as i128 } else { a.accrued_interest },
                            status: if remaining == 0 { CreditStatus::Closed } else { CreditStatus::Defaulted },
                            ..a
                        })
                    }
                },
            },
        }
    }
}

/// Apply auction liquidation proceeds to a defaulted credit line (admin
/// only, accounting only). The proceeds lower the debt; the capitalised
/// interest is capped at the remaining debt, so it stays part of it. A
/// settlement that repays the whole balance closes the line; each settlement
/// id applies once.
pub fn settle_default_liquidation(
    line: Option<CreditLineData>,
    recovered_amount: i128,
    already_settled: bool,
    now: u64,
    grace: Option<GracePeriodConfig>,
) -> (r: Result<CreditLineData, Revert>)
    ensures
        r == settle_result(line, recovered_amount, already_settled, now, grace),
{
    if recovered_amount <= 0 {
        return Err(Revert::Code(ContractError::InvalidAmount));
    }
    if already_settled {
        return Err(Revert::Code(ContractError::AlreadyInitialized));
    }
    let line = match line {
        Some(l) => l,
        None => {
            return Err(Revert::LineNotFound);
        },
    };
    let mut line = match apply_accrual(line, now, grace) {
        Ok(a) => a,
        Err(e) => {
            return Err(Revert::Code(e));
        },
    };
    if line.status != CreditStatus::Defaulted {
        return Err(Revert::Code(ContractError::CreditLineDefaulted));
    }
    if recovered_amount > line.utilized_amount {
        return Err(Revert::Code(ContractError::OverLimit));
    }
    line.utilized_amount = line.utilized_amount - recovered_amount;
    if line.accrued_interest > line.utilized_amount {
        line.accrued_interest = line.utilized_amount;
    }
    if line.utilized_amount == 0 {
        line.status = CreditStatus::Closed;
    }
    Ok(line)
}

/// Whether `target` is a status that a defaulted line may be reinstated to.
pub open spec fn reinstate_target_ok(target: CreditStatus) -> bool {
    target == CreditStatus::Active || target == CreditStatus::Restricted
}

/// The outcome of reinstating `line` to `target_status` at ledger time `now`.
pub open spec fn reinstate_result(
    line: Option<CreditLineData>,
    target_status: CreditStatus,
    now: u64,
    grace: Option<GracePeriodConfig>,
) -> Result<CreditLineData, ContractError> {
    if !reinstate_target_ok(target_status) {
        Err(ContractError::InvalidAmount)
    } else {
        match line {
            None => Err(ContractError::CreditLineNotFound),
            Some(l) => match accrual_result(l, now, grace) {
                Err(e) => Err(e),
                Ok(a) => {
                    if a.status != CreditStatus::Defaulted {
                        Err(ContractError::CreditLineDefaulted)
                    } else {
                        Ok(CreditLineData { status: target_status, suspension_ts: 0, ..a })
                    }
                },
            },
        }
    }
}

/// Reinstate a Defaulted credit line to Active (draws re-enabled) or to
/// Restricted (draws blocked until the excess balance is repaid); admin only.
/// A paused contract refuses the call.
pub fn reinstate_credit_line(
    paused: bool,
    line: Option<CreditLineData>,
    target_status: CreditStatus,
    now: u64,
    grace: Option<GracePeriodConfig>,
) -> (r: Result<CreditLineData, ContractError>)
    ensures
        paused ==> r == Err::<CreditLineData, ContractError>(ContractError::Paused),
        !paused ==> r == reinstate_result(line, target_status, now, grace),
{
    assert_not_paused(paused)?;
    if target_status != CreditStatus::Active && target_status != CreditStatus::Restricted {
        return Err(ContractError::InvalidAmount);
    }
    let line = match line {
        Some(l) => l,
        None => {
            return Err(ContractError::CreditLineNotFound);
        },
    };
    let mut line = apply_accrual(line, now, grace)?;
    if line.status != CreditStatus::Defaulted {
        return Err(ContractError::CreditLineDefaulted);
    }
    line.status = target_status;
    line.suspension_ts = 0;
    Ok(line)
}

/// Suspension is only valid from Active, and leads to Suspended.
pub proof fn suspend_only_from_active(line: CreditLineData, now: u64, grace: Option<GracePeriodConfig>)
    ensures
        suspend_result(Some(line), now, grace) matches Ok(n) ==> line.status == CreditStatus::Active && n.status == CreditStatus::Suspended,
{
    accrual_keeps_principal(line, now, grace);
}

/// Defaulting is valid from every status but Closed; a defaulted line stays
/// as it is, any other line becomes Defaulted.
pub proof fn default_transitions(line: CreditLineData, now: u64, grace: Option<GracePeriodConfig>)
    ensures
        line.status == CreditStatus::Closed ==> default_result(Some(line), now, grace) == Err::<LineUpdate, ContractError>(ContractError::CreditLineClosed),
        default_result(Some(line), now, grace) matches Ok(LineUpdate::Store(n)) ==> line.status != CreditStatus::Closed && line.status != CreditStatus::Defaulted && n.status == CreditStatus::Defaulted,
        (line.status == CreditStatus::Defaulted && accrual_result(line, now, grace) is Ok) ==> default_result(Some(line), now, grace) == Ok::<LineUpdate, ContractError>(LineUpdate::Unchanged),
{
    accrual_keeps_principal(line, now, grace);
}

/// Reinstatement is only valid from Defaulted, and only to Active or
/// Restricted; it clears `suspension_ts`.
pub proof fn reinstate_only_from_defaulted(line: CreditLineData, target: CreditStatus, now: u64, grace: Option<GracePeriodConfig>)
    ensures
        reinstate_result(Some(line), target, now, grace) matches Ok(n) ==> {
            &&& line.status == CreditStatus::Defaulted
            &&& (n.status == CreditStatus::Active || n.status == CreditStatus::Restricted)
            &&& n.status == target
            &&& n.suspension_ts == 0
        },
{
    accrual_keeps_principal(line, now, grace);
}

/// Who may close: the admin always, the borrower only with nothing
/// utilized, nobody else; a closed line stays as it is.
pub proof fn close_authorization(line: CreditLineData, borrower: Seq<u8>, closer: Seq<u8>, admin: Seq<u8>)
    ensures
        line.status == CreditStatus::Closed ==> close_result(Some(line), borrower, closer, admin) == Ok::<LineUpdate, Revert>(LineUpdate::Unchanged),
        close_result(Some(line), borrower, closer, admin) matches Ok(LineUpdate::Store(n)) ==> {
            &&& closer == admin || (closer == borrower && line.utilized_amount == 0)
            &&& n.status == CreditStatus::Closed
            &&& n == (CreditLineData { status: CreditStatus::Closed, ..line })
        },
        (line.status != CreditStatus::Closed && closer != admin && closer != borrower) ==> close_result(Some(line), borrower, closer, admin) == Err::<LineUpdate, Revert>(Revert::Unauthorized),
        (line.status != CreditStatus::Closed && closer != admin && closer == borrower && line.utilized_amount != 0)
            ==> close_result(Some(line), borrower, closer, admin) == Err::<LineUpdate, Revert>(Revert::UtilizedNotZero),
{
}

/// A closed line stays closed: suspend, default, reinstate and liquidation
/// settlement revert, close changes nothing, and a risk-parameter update
/// keeps it Closed. Only opening a new line replaces it.
pub proof fn closed_is_terminal(
    line: CreditLineData,
    borrower: Seq<u8>,
    closer: Seq<u8>,
    admin: Seq<u8>,
    target: CreditStatus,
    recovered_amount: i128,
    already_settled: bool,
    credit_limit: i128,
    interest_rate_bps: u32,
    risk_score: u32,
    formula: Option<RateFormulaConfig>,
    rate_cfg: Option<RateChangeConfig>,
    now: u64,
    grace: Option<GracePeriodConfig>,
)
    requires
        line.status == CreditStatus::Closed,
    ensures
        suspend_result(Some(line), now, grace) is Err,
        default_result(Some(line), now, grace) is Err,
        reinstate_result(Some(line), target, now, grace) is Err,
        settle_result(Some(line), recovered_amount, already_settled, now, grace) is Err,
        close_result(Some(line), borrower, closer, admin) == Ok::<LineUpdate, Revert>(LineUpdate::Unchanged),
        update_risk_result(Some(line), credit_limit, interest_rate_bps, risk_score, formula, rate_cfg, now, grace) matches Ok(n)
            ==> n.status == CreditStatus::Closed,
{
    accrual_keeps_principal(line, now, grace);
}

/// Status changes never alter the debt: suspend, default and reinstate keep
/// the principal (only accrual adds interest, to debt and interest alike), and
/// close keeps debt and interest exactly.
pub proof fn transitions_keep_debt(
    line: CreditLineData,
    borrower: Seq<u8>,
    closer: Seq<u8>,
    admin: Seq<u8>,
    target: CreditStatus,
    now: u64,
    grace: Option<GracePeriodConfig>,
)
    ensures
        suspend_result(Some(line), now, grace) matches Ok(n) ==> n.principal() == line.principal() && n.credit_limit == line.credit_limit,
        default_result(Some(line), now, grace) matches Ok(LineUpdate::Store(n)) ==> n.principal() == line.principal() && n.credit_limit == line.credit_limit,
        reinstate_result(Some(line), target, now, grace) matches Ok(n) ==> n.principal() == line.principal() && n.credit_limit == line.credit_limit,
        close_result(Some(line), borrower, closer, admin) matches Ok(LineUpdate::Store(n)) ==> n.utilized_amount == line.utilized_amount && n.accrued_interest == line.accrued_interest,
        accrual_result(line, now, grace) matches Ok(a) ==> (suspend_result(Some(line), now, grace) matches Ok(n)
            ==> n.utilized_amount == a.utilized_amount && n.accrued_interest == a.accrued_interest),
        accrual_result(line, now, grace) matches Ok(a) ==> (default_result(Some(line), now, grace) matches Ok(LineUpdate::Store(n))
            ==> n.utilized_amount == a.utilized_amount && n.accrued_interest == a.accrued_interest),
        accrual_result(line, now, grace) matches Ok(a) ==> (reinstate_result(Some(line), target, now, grace) matches Ok(n)
            ==> n.utilized_amount == a.utilized_amount && n.accrued_interest == a.accrued_interest),
{
    accrual_keeps_principal(line, now, grace);
}

/// Every lifecycle operation keeps the accounting invariant
/// `0 <= accrued_interest <= utilized_amount`.
pub proof fn lifecycle_keeps_accounting(
    line: CreditLineData,
    borrower: Seq<u8>,
    closer: Seq<u8>,
    admin: Seq<u8>,
    target: CreditStatus,
    recovered_amount: i128,
    already_settled: bool,
    now: u64,
    grace: Option<GracePeriodConfig>,
)
    requires
        line.accounting_ok(),
    ensures
        suspend_result(Some(line), now, grace) matches Ok(n) ==> n.accounting_ok(),
        default_result(Some(line), now, grace) matches Ok(LineUpdate::Store(n)) ==> n.accounting_ok(),
        reinstate_result(Some(line), target, now, grace) matches Ok(n) ==> n.accounting_ok(),
        close_result(Some(line), borrower, closer, admin) matches Ok(LineUpdate::Store(n)) ==> n.accounting_ok(),
        settle_result(Some(line), recovered_amount, already_settled, now, grace) matches Ok(n) ==> n.accounting_ok(),
{
    accrual_keeps_accounting(line, now, grace);
    accrual_keeps_principal(line, now, grace);
}

/// A newly opened line has no debt and satisfies the accounting invariant.
pub proof fn opened_line_is_clean(
    existing: Option<CreditStatus>,
    borrower: AccountId,
    credit_limit: i128,
    interest_rate_bps: u32,
    risk_score: u32,
    now: u64,
)
    ensures
        open_result(existing, borrower, credit_limit, interest_rate_bps, risk_score, now) matches Ok(o) ==> {
            &&& o.line.accounting_ok()
            &&& o.line.utilized_amount == 0
            &&& o.line.status == CreditStatus::Active
            &&& o.line.credit_limit > 0
        },
{
}

/// Liquidation settlement applies only to defaulted lines and reduces the
/// debt by exactly the recovered amount, leaving it non-negative; the
/// capitalised interest is kept unless it would exceed the remaining debt,
/// in which case it becomes that debt. The line closes exactly when nothing
/// remains.
pub proof fn settlement_reduces_debt(line: CreditLineData, recovered_amount: i128, already_settled: bool, now: u64, grace: Option<GracePeriodConfig>)
    ensures
        settle_result(Some(line), recovered_amount, already_settled, now, grace) matches Ok(n) ==> {
            &&& line.status == CreditStatus::Defaulted
            &&& !already_settled
            &&& recovered_amount > 0
            &&& n.utilized_amount >= 0
            &&& (n.status == CreditStatus::Closed <==> n.utilized_amount == 0)
            &&& (n.status == CreditStatus::Defaulted <==> n.utilized_amount > 0)
            &&& (accrual_result(line, now, grace) matches Ok(a) ==> {
                &&& n.utilized_amount == a.utilized_amount - recovered_amount
                &&& (a.accrued_interest <= n.utilized_amount ==> n.accrued_interest == a.accrued_interest)
                &&& (a.accrued_interest > n.utilized_amount ==> n.accrued_interest == n.utilized_amount)
            })
        },
{
    accrual_keeps_principal(line, now, grace);
}

/// Reopening an existing line needs the admin's authorization and is refused
/// for an Active line; issuing a first line needs none.
pub proof fn reopen_needs_admin(
    existing: Option<CreditStatus>,
    borrower: AccountId,
    credit_limit: i128,
    interest_rate_bps: u32,
    risk_score: u32,
    now: u64,
)
    ensures
        open_result(existing, borrower, credit_limit, interest_rate_bps, risk_score, now) matches Ok(o) ==> {
            &&& o.needs_admin_auth == (existing is Some)
            &&& existing != Some(CreditStatus::Active)
        },
{
}

/// Lifecycle operations never move `last_accrual_ts` or `last_rate_update_ts`
/// backwards.
pub proof fn lifecycle_timestamps_monotonic(
    line: CreditLineData,
    target: CreditStatus,
    recovered_amount: i128,
    already_settled: bool,
    now: u64,
    grace: Option<GracePeriodConfig>,
)
    ensures
        suspend_result(Some(line), now, grace) matches Ok(n) ==> n.last_accrual_ts >= line.last_accrual_ts && n.last_rate_update_ts == line.last_rate_update_ts,
        default_result(Some(line), now, grace) matches Ok(LineUpdate::Store(n)) ==> n.last_accrual_ts >= line.last_accrual_ts && n.last_rate_update_ts == line.last_rate_update_ts,
        reinstate_result(Some(line), target, now, grace) matches Ok(n) ==> n.last_accrual_ts >= line.last_accrual_ts && n.last_rate_update_ts == line.last_rate_update_ts,
        settle_result(Some(line), recovered_amount, already_settled, now, grace) matches Ok(n) ==> n.last_accrual_ts >= line.last_accrual_ts && n.last_rate_update_ts == line.last_rate_update_ts,
        suspend_result(Some(line), now, grace) matches Ok(n) ==> (line.suspension_ts == 0 || n.suspension_ts > line.suspension_ts),
{
    accrual_keeps_principal(line, now, grace);
}

/// Opening succeeds exactly for a positive limit, a rate of at most 10_000
/// bps, a score of at most 100 and no Active line; the new line is Active,
/// owes nothing, counts interest from the opening time `now`, and needs the
/// admin's authorization exactly when it replaces a stored line.
pub proof fn open_creates_fresh_line(
    existing: Option<CreditStatus>,
    borrower: AccountId,
    credit_limit: i128,
    interest_rate_bps: u32,
    risk_score: u32,
    now: u64,
)
    ensures
        credit_limit <= 0 ==> open_result(existing, borrower, credit_limit, interest_rate_bps, risk_score, now)
            == Err::<OpenedLine, ContractError>(ContractError::InvalidAmount),
        (credit_limit > 0 && interest_rate_bps > 10_000) ==> open_result(existing, borrower, credit_limit, interest_rate_bps, risk_score, now)
            == Err::<OpenedLine, ContractError>(ContractError::RateTooHigh),
        (credit_limit > 0 && interest_rate_bps <= 10_000 && risk_score > 100)
            ==> open_result(existing, borrower, credit_limit, interest_rate_bps, risk_score, now)
            == Err::<OpenedLine, ContractError>(ContractError::ScoreTooHigh),
        (credit_limit > 0 && interest_rate_bps <= 10_000 && risk_score <= 100 && existing == Some(CreditStatus::Active))
            ==> open_result(existing, borrower, credit_limit, interest_rate_bps, risk_score, now)
            == Err::<OpenedLine, ContractError>(ContractError::AlreadyInitialized),
        (credit_limit > 0 && interest_rate_bps <= 10_000 && risk_score <= 100 && existing != Some(CreditStatus::Active))
            ==> (open_result(existing, borrower, credit_limit, interest_rate_bps, risk_score, now) matches Ok(o) && {
                &&& o.line.borrower == borrower
                &&& o.line.credit_limit == credit_limit
                &&& o.line.interest_rate_bps == interest_rate_bps
                &&& o.line.risk_score == risk_score
                &&& o.line.status == CreditStatus::Active
                &&& o.line.utilized_amount == 0
                &&& o.line.accrued_interest == 0
                &&& o.line.last_accrual_ts == now
                &&& o.line.last_rate_update_ts == 0
                &&& o.line.suspension_ts == 0
                &&& o.needs_admin_auth == (existing is Some)
            }),
{
}

/// Suspending accrues first and then succeeds exactly on an Active line
/// whose suspension time moves forward: the accrued line becomes Suspended
/// with `suspension_ts == now`; a missing line, a non-Active line and a
/// non-monotonic suspension time are refused, and an accrual overflow
/// reverts with `Overflow`.
pub proof fn suspend_outcome(line: CreditLineData, now: u64, grace: Option<GracePeriodConfig>)
    ensures
        suspend_result(None, now, grace) == Err::<CreditLineData, ContractError>(ContractError::CreditLineNotFound),
        accrual_result(line, now, grace) is Err ==> suspend_result(Some(line), now, grace)
            == Err::<CreditLineData, ContractError>(ContractError::Overflow),
        (accrual_result(line, now, grace) is Ok && line.status != CreditStatus::Active) ==> suspend_result(Some(line), now, grace)
            == Err::<CreditLineData, ContractError>(ContractError::CreditLineSuspended),
        (accrual_result(line, now, grace) is Ok && line.status == CreditStatus::Active && line.suspension_ts != 0
            && now <= line.suspension_ts) ==> suspend_result(Some(line), now, grace) == Err::<CreditLineData, ContractError>(ContractError::Paused),
        (accrual_result(line, now, grace) is Ok && line.status == CreditStatus::Active
            && (line.suspension_ts == 0 || now > line.suspension_ts)) ==> suspend_result(Some(line), now, grace) == Ok::<CreditLineData, ContractError>(CreditLineData {
                status: CreditStatus::Suspended,
                suspension_ts: now,
                ..accrual_result(line, now, grace)->Ok_0
            }),
{
    accrual_keeps_principal(line, now, grace);
}

/// Defaulting refuses missing and Closed lines, leaves a Defaulted line as
/// it is, and otherwise stores the accrued line as Defaulted; an accrual
/// overflow reverts with `Overflow`.
pub proof fn default_outcome(line: CreditLineData, now: u64, grace: Option<GracePeriodConfig>)
    ensures
        default_result(None, now, grace) == Err::<LineUpdate, ContractError>(ContractError::CreditLineNotFound),
        line.status == CreditStatus::Closed ==> default_result(Some(line), now, grace)
            == Err::<LineUpdate, ContractError>(ContractError::CreditLineClosed),
        (line.status != CreditStatus::Closed && accrual_result(line, now, grace) is Err)
            ==> default_result(Some(line), now, grace) == Err::<LineUpdate, ContractError>(ContractError::Overflow),
        (line.status == CreditStatus::Defaulted && accrual_result(line, now, grace) is Ok)
            ==> default_result(Some(line), now, grace) == Ok::<LineUpdate, ContractError>(LineUpdate::Unchanged),
        ((line.status == CreditStatus::Active || line.status == CreditStatus::Suspended || line.status == CreditStatus::Restricted)
            && accrual_result(line, now, grace) is Ok)
            ==> default_result(Some(line), now, grace) == Ok::<LineUpdate, ContractError>(LineUpdate::Store(CreditLineData {
                status: CreditStatus::Defaulted,
                ..accrual_result(line, now, grace)->Ok_0
            })),
{
    accrual_keeps_principal(line, now, grace);
}

/// Reinstating refuses targets other than Active and Restricted, missing
/// lines, lines whose accrual overflows and lines that are not Defaulted; a
/// Defaulted line whose accrual succeeds gets the target status and a
/// cleared suspension time.
pub proof fn reinstate_outcome(line: CreditLineData, target: CreditStatus, now: u64, grace: Option<GracePeriodConfig>)
    ensures
        !(target == CreditStatus::Active || target == CreditStatus::Restricted) ==> reinstate_result(Some(line), target, now, grace)
            == Err::<CreditLineData, ContractError>(ContractError::InvalidAmount),
        (target == CreditStatus::Active || target == CreditStatus::Restricted) ==> reinstate_result(None, target, now, grace)
            == Err::<CreditLineData, ContractError>(ContractError::CreditLineNotFound),
        ((target == CreditStatus::Active || target == CreditStatus::Restricted) && accrual_result(line, now, grace) is Err)
            ==> reinstate_result(Some(line), target, now, grace) == Err::<CreditLineData, ContractError>(ContractError::Overflow),
        ((target == CreditStatus::Active || target == CreditStatus::Restricted) && accrual_result(line, now, grace) is Ok
            && line.status != CreditStatus::Defaulted)
            ==> reinstate_result(Some(line), target, now, grace) == Err::<CreditLineData, ContractError>(ContractError::CreditLineDefaulted),
        ((target == CreditStatus::Active || target == CreditStatus::Restricted) && accrual_result(line, now, grace) is Ok
            && line.status == CreditStatus::Defaulted)
            ==> reinstate_result(Some(line), target, now, grace) == Ok::<CreditLineData, ContractError>(CreditLineData {
                status: target,
                suspension_ts: 0,
                ..accrual_result(line, now, grace)->Ok_0
            }),
{
    accrual_keeps_principal(line, now, grace);
}

/// Closing a stored line that is not Closed succeeds for the admin, and for
/// the borrower when nothing is utilized, changing only the status to
/// Closed; a missing line is reported as not found.
pub proof fn close_outcome(line: CreditLineData, borrower: Seq<u8>, closer: Seq<u8>, admin: Seq<u8>)
    ensures
        close_result(None, borrower, closer, admin) == Err::<LineUpdate, Revert>(Revert::LineNotFound),
        (line.status != CreditStatus::Closed && (closer == admin || (closer == borrower && line.utilized_amount == 0)))
            ==> close_result(Some(line), borrower, closer, admin)
            == Ok::<LineUpdate, Revert>(LineUpdate::Store(CreditLineData { status: CreditStatus::Closed, ..line })),
{
}

/// Settlement refuses a non-positive amount, a replayed settlement, a missing
/// line, an accrual overflow, a line that is not Defaulted after accrual
/// and an amount above the accrued debt; otherwise the debt falls by exactly the recovered amount,
/// the interest is kept but capped at the remaining debt, and the line is
/// Closed when nothing remains and stays Defaulted otherwise.
pub proof fn settle_outcome(line: CreditLineData, recovered_amount: i128, already_settled: bool, now: u64, grace: Option<GracePeriodConfig>)
    ensures
        recovered_amount <= 0 ==> settle_result(Some(line), recovered_amount, already_settled, now, grace)
            == Err::<CreditLineData, Revert>(Revert::Code(ContractError::InvalidAmount)),
        (recovered_amount > 0 && already_settled) ==> settle_result(Some(line), recovered_amount, already_settled, now, grace)
            == Err::<CreditLineData, Revert>(Revert::Code(ContractError::AlreadyInitialized)),
        (recovered_amount > 0 && !already_settled) ==> settle_result(None, recovered_amount, already_settled, now, grace)
            == Err::<CreditLineData, Revert>(Revert::LineNotFound),
        (recovered_amount > 0 && !already_settled && accrual_result(line, now, grace) is Err)
            ==> settle_result(Some(line), recovered_amount, already_settled, now, grace)
            == Err::<CreditLineData, Revert>(Revert::Code(ContractError::Overflow)),
        (recovered_amount > 0 && !already_settled && accrual_result(line, now, grace) is Ok) ==> ({
            let a = accrual_result(line, now, grace)->Ok_0;
            let remaining: int = a.utilized_amount - recovered_amount;
            let r = settle_result(Some(line), recovered_amount, already_settled, now, grace);
            &&& line.status != CreditStatus::Defaulted ==> r == Err::<CreditLineData, Revert>(Revert::Code(ContractError::CreditLineDefaulted))
            &&& (line.status == CreditStatus::Defaulted && recovered_amount > a.utilized_amount)
                ==> r == Err::<CreditLineData, Revert>(Revert::Code(ContractError::OverLimit))
            &&& (line.status == CreditStatus::Defaulted && recovered_amount <= a.utilized_amount) ==> {
                &&& r is Ok
                &&& r->Ok_0.utilized_amount == remaining
                &&& r->Ok_0.accrued_interest == (if a.accrued_interest > remaining { remaining } else { a.accrued_interest as int })
                &&& r->Ok_0.status == (if remaining == 0 { CreditStatus::Closed } else { CreditStatus::Defaulted })
                &&& r->Ok_0.credit_limit == line.credit_limit
                &&& r->Ok_0.interest_rate_bps == line.interest_rate_bps
                &&& r->Ok_0.borrower == line.borrower
                &&& r->Ok_0.last_accrual_ts == a.last_accrual_ts
            }
        }),
{
    accrual_keeps_principal(line, now, grace);
}

} // verus!
