//! Risk management: the rate formula, rate-change limits and risk-parameter
//! updates.

use vstd::prelude::*;
use crate::accrual::{accrual_keeps_accounting, accrual_keeps_principal, accrual_outside_grace_is_prorated, accrual_result, apply_accrual};
use crate::storage::{assert_ts_monotonic, ts_monotonic};
use crate::types::{ContractError, CreditLineData, CreditStatus, GracePeriodConfig, RateChangeConfig, RateFormulaConfig, Revert};

verus! {

/// Maximum interest rate in basis points (100%).
pub const MAX_INTEREST_RATE_BPS: u32 = 10_000u32;

/// Maximum risk score (0–100 scale).
pub const MAX_RISK_SCORE: u32 = 100u32;

/// `u32` addition saturating at `u32::MAX`.
pub open spec fn sat_add_u32(a: u32, b: u32) -> u32 {
    if a + b > u32::MAX { u32::MAX } else { (a + b) as u32 }
}

/// `u32` multiplication saturating at `u32::MAX`.
pub open spec fn sat_mul_u32(a: u32, b: u32) -> u32 {
    if a * b > u32::MAX { u32::MAX } else { (a * b) as u32 }
}

/// The upper bound of the formula's rates: `min(max_rate_bps, 10_000)`.
pub open spec fn rate_upper(cfg: RateFormulaConfig) -> u32 {
    if cfg.max_rate_bps < MAX_INTEREST_RATE_BPS { cfg.max_rate_bps } else { MAX_INTEREST_RATE_BPS }
}

/// A formula whose bounds are ordered (the clamp panics otherwise).
pub open spec fn formula_ok(cfg: RateFormulaConfig) -> bool {
    cfg.min_rate_bps <= rate_upper(cfg)
}

/// `base + score * slope` (saturating), clamped to `[min_rate_bps, rate_upper]`.
pub open spec fn rate_from_score(cfg: RateFormulaConfig, risk_score: u32) -> u32 {
    let raw = sat_add_u32(cfg.base_rate_bps, sat_mul_u32(risk_score, cfg.slope_bps_per_score));
    if raw < cfg.min_rate_bps {
        cfg.min_rate_bps
    } else if raw > rate_upper(cfg) {
        rate_upper(cfg)
    } else {
        raw
    }
}

/// Compute the interest rate from a risk score with the piecewise-linear
/// formula `clamp(base + score * slope, min, min(max, 10_000))`, with
/// saturating arithmetic.
///
/// Defined for formulas whose lower bound does not exceed the upper one; the
/// clamp panics on any other formula.
pub fn compute_rate_from_score(cfg: &RateFormulaConfig, risk_score: u32) -> (r: u32)
    requires
        formula_ok(*cfg),
    ensures
        r == rate_from_score(*cfg, risk_score),
{
    let product: u32 = match risk_score.checked_mul(cfg.slope_bps_per_score) {
        Some(v) => v,
        None => u32::MAX,
    };
    let raw = cfg.base_rate_bps.saturating_add(product);
    let upper = if cfg.max_rate_bps < MAX_INTEREST_RATE_BPS { cfg.max_rate_bps } else { MAX_INTEREST_RATE_BPS };
    if raw < cfg.min_rate_bps {
        cfg.min_rate_bps
    } else if raw > upper {
        upper
    } else {
        raw
    }
}

/// `|a - b|` for rates.
pub open spec fn rate_delta(a: u32, b: u32) -> u32 {
    if a >= b { (a - b) as u32 } else { (b - a) as u32 }
}

/// `now - last`, saturating at 0.
pub open spec fn elapsed_since(now: u64, last: u64) -> u64 {
    if now >= last { (now - last) as u64 } else { 0 }
}

/// Whether the configured cap on the size of a rate change forbids moving
/// from `old_rate` to `new_rate`.
pub open spec fn rate_delta_exceeded(cfg: Option<RateChangeConfig>, old_rate: u32, new_rate: u32) -> bool {
    match cfg {
        None => false,
        Some(c) => rate_delta(new_rate, old_rate) > c.max_rate_change_bps,
    }
}

/// Whether the configured minimum interval forbids a rate change at `now`
/// when the rate was last changed at `last_ts` (0: never).
pub open spec fn rate_change_too_soon(cfg: Option<RateChangeConfig>, last_ts: u64, now: u64) -> bool {
    match cfg {
        None => false,
        Some(c) => c.rate_change_min_interval > 0 && last_ts != 0 && elapsed_since(now, last_ts) < c.rate_change_min_interval,
    }
}

/// The status after setting limit `credit_limit`: an Active or Restricted
/// line is Restricted exactly when the limit is below its utilization, and
/// Active otherwise; Suspended, Defaulted and Closed lines keep their status.
pub open spec fn status_after_limit(status: CreditStatus, credit_limit: i128, utilized: i128) -> CreditStatus {
    if status == CreditStatus::Active || status == CreditStatus::Restricted {
        if credit_limit < utilized { CreditStatus::Restricted } else { CreditStatus::Active }
    } else {
        status
    }
}

/// The rate that an update sets: the formula's, when one is configured,
/// else the one supplied.
pub open spec fn effective_rate(formula: Option<RateFormulaConfig>, interest_rate_bps: u32, risk_score: u32) -> u32 {
    match formula {
        Some(f) => rate_from_score(f, risk_score),
        None => interest_rate_bps,
    }
}

/// The outcome of updating the risk parameters of `line` at ledger time `now`.
pub open spec fn update_risk_result(
    line: Option<CreditLineData>,
    credit_limit: i128,
    interest_rate_bps: u32,
    risk_score: u32,
    formula: Option<RateFormulaConfig>,
    rate_cfg: Option<RateChangeConfig>,
    now: u64,
    grace: Option<GracePeriodConfig>,
) -> Result<CreditLineData, Revert> {
    match line {
        None => Err(Revert::Code(ContractError::CreditLineNotFound)),
        Some(l) => match accrual_result(l, now, grace) {
            Err(e) => Err(Revert::Code(e)),
            Ok(a) => {
                let rate = effective_rate(formula, interest_rate_bps, risk_score);
                let changed = rate != a.interest_rate_bps;
                if credit_limit < 0 {
                    Err(Revert::Code(ContractError::NegativeLimit))
                } else if risk_score > MAX_RISK_SCORE {
                    Err(Revert::Code(ContractError::ScoreTooHigh))
                } else if formula matches Some(f) && !formula_ok(f) {
                    Err(Revert::RateBoundsInverted)
                } else if rate > MAX_INTEREST_RATE_BPS {
                    Err(Revert::Code(ContractError::RateTooHigh))
                } else if changed && rate_delta_exceeded(rate_cfg, a.interest_rate_bps, rate) {
                    Err(Revert::RateChangeTooLarge)
                } else if changed && rate_change_too_soon(rate_cfg, a.last_rate_update_ts, now) {
                    Err(Revert::Code(ContractError::RateTooHigh))
                } else if changed && !ts_monotonic(a.last_rate_update_ts, now) {
                    Err(Revert::Code(ContractError::Paused))
                } else {
                    Ok(CreditLineData {
                        credit_limit,
                        interest_rate_bps: rate,
                        risk_score,
                        status: status_after_limit(a.status, credit_limit, a.utilized_amount),
                        last_rate_update_ts: if changed { now } else { a.last_rate_update_ts },
                        ..a
                    })
                }
            },
        },
    }
}

/// Update the credit limit, risk score and interest rate of a line (admin
/// only). With a rate formula configured, the supplied rate is ignored and
/// the rate follows the risk score. Rate changes obey the configured limits
/// and move `last_rate_update_ts` forward. A limit below utilization
/// restricts an Active line (draws stop, repayments continue), and a
/// Restricted line whose limit covers its utilization again becomes Active;
/// Suspended, Defaulted and Closed lines keep their status. A paused contract
/// refuses the call.
pub fn update_risk_parameters(
    paused: bool,
    line: Option<CreditLineData>,
    credit_limit: i128,
    interest_rate_bps: u32,
    risk_score: u32,
    formula: Option<RateFormulaConfig>,
    rate_cfg: Option<RateChangeConfig>,
    now: u64,
    grace: Option<GracePeriodConfig>,
) -> (r: Result<CreditLineData, Revert>)
    ensures
        paused ==> r == Err::<CreditLineData, Revert>(Revert::Code(ContractError::Paused)),
        !paused ==> r == update_risk_result(line, credit_limit, interest_rate_bps, risk_score, formula, rate_cfg, now, grace),
{
    if paused {
        return Err(Revert::Code(ContractError::Paused));
    }
    let line = match line {
        Some(l) => l,
        None => {
            return Err(Revert::Code(ContractError::CreditLineNotFound));
        },
    };
    let mut line = match apply_accrual(line, now, grace) {
        Ok(a) => a,
        Err(e) => {
            return Err(Revert::Code(e));
        },
    };
    if credit_limit < 0 {
        return Err(Revert::Code(ContractError::NegativeLimit));
    }
    if risk_score > MAX_RISK_SCORE {
        return Err(Revert::Code(ContractError::ScoreTooHigh));
    }
    let rate = match &formula {
        Some(f) => {
            let upper = if f.max_rate_bps < MAX_INTEREST_RATE_BPS { f.max_rate_bps } else { MAX_INTEREST_RATE_BPS };
            if f.min_rate_bps > upper {
                return Err(Revert::RateBoundsInverted);
            }
            compute_rate_from_score(f, risk_score)
        },
        None => interest_rate_bps,
    };
    if rate > MAX_INTEREST_RATE_BPS {
        return Err(Revert::Code(ContractError::RateTooHigh));
    }
    if rate != line.interest_rate_bps {
        if let Some(cfg) = rate_cfg {
            let old_rate = line.interest_rate_bps;
            let delta = if rate >= old_rate { rate - old_rate } else { old_rate - rate };
            if delta > cfg.max_rate_change_bps {
                return Err(Revert::RateChangeTooLarge);
            }
            if cfg.rate_change_min_interval > 0 && line.last_rate_update_ts != 0 {
                let elapsed = now.saturating_sub(line.last_rate_update_ts);
                if elapsed < cfg.rate_change_min_interval {
                    return Err(Revert::Code(ContractError::RateTooHigh));
                }
            }
        }
        if let Err(e) = assert_ts_monotonic(line.last_rate_update_ts, now) {
            return Err(Revert::Code(e));
        }
        line.last_rate_update_ts = now;
    }
    if line.status == CreditStatus::Active || line.status == CreditStatus::Restricted {
        if credit_limit < line.utilized_amount {
            line.status = CreditStatus::Restricted;
        } else {
            line.status = CreditStatus::Active;
        }
    }
    line.credit_limit = credit_limit;
    line.interest_rate_bps = rate;
    line.risk_score = risk_score;
    Ok(line)
}

/// The formula's rate lies within `[min_rate_bps, min(max_rate_bps, 10_000)]`.
pub proof fn rate_from_score_bounded(cfg: RateFormulaConfig, risk_score: u32)
    requires
        formula_ok(cfg),
    ensures
        cfg.min_rate_bps <= rate_from_score(cfg, risk_score),
        rate_from_score(cfg, risk_score) <= rate_upper(cfg),
        rate_from_score(cfg, risk_score) <= MAX_INTEREST_RATE_BPS,
{
}

/// A higher risk score never gets a lower rate.
pub proof fn rate_from_score_monotonic(cfg: RateFormulaConfig, s1: u32, s2: u32)
    requires
        formula_ok(cfg),
        s1 <= s2,
    ensures
        rate_from_score(cfg, s1) <= rate_from_score(cfg, s2),
{
    assert(s1 * cfg.slope_bps_per_score <= s2 * cfg.slope_bps_per_score) by (nonlinear_arith)
        requires
            s1 <= s2,
    ;
}

/// What a successful risk-parameter update guarantees: the stored rate is at
/// most 10_000 bps (and follows the formula when one is configured); a rate
/// change stays within the configured delta and moves `last_rate_update_ts`
/// strictly forward (or writes it for the first time); the principal is kept;
/// and an Active or Restricted line ends Restricted exactly when the new
/// limit is below its utilization.
pub proof fn update_risk_guarantees(
    line: CreditLineData,
    credit_limit: i128,
    interest_rate_bps: u32,
    risk_score: u32,
    formula: Option<RateFormulaConfig>,
    rate_cfg: Option<RateChangeConfig>,
    now: u64,
    grace: Option<GracePeriodConfig>,
)
    ensures
        update_risk_result(Some(line), credit_limit, interest_rate_bps, risk_score, formula, rate_cfg, now, grace) matches Ok(n) ==> {
            &&& n.interest_rate_bps <= MAX_INTEREST_RATE_BPS
            &&& n.interest_rate_bps == effective_rate(formula, interest_rate_bps, risk_score)
            &&& n.credit_limit == credit_limit
            &&& n.risk_score == risk_score
            &&& risk_score <= MAX_RISK_SCORE
            &&& credit_limit >= 0
            &&& n.principal() == line.principal()
            &&& n.last_accrual_ts >= line.last_accrual_ts
            &&& n.last_rate_update_ts >= line.last_rate_update_ts
            &&& (n.interest_rate_bps != line.interest_rate_bps ==> {
                &&& n.last_rate_update_ts == now
                &&& ts_monotonic(line.last_rate_update_ts, now)
                &&& (rate_cfg matches Some(c) ==> rate_delta(n.interest_rate_bps, line.interest_rate_bps) <= c.max_rate_change_bps)
                &&& !rate_change_too_soon(rate_cfg, line.last_rate_update_ts, now)
            })
            &&& ((line.status == CreditStatus::Active || line.status == CreditStatus::Restricted)
                ==> (n.status == CreditStatus::Restricted <==> n.credit_limit < n.utilized_amount))
            &&& ((line.status == CreditStatus::Active || line.status == CreditStatus::Restricted)
                ==> (n.status == CreditStatus::Active || n.status == CreditStatus::Restricted))
        },
{
    accrual_keeps_principal(line, now, grace);
}

/// A risk-parameter update keeps the accounting invariant.
pub proof fn update_risk_keeps_accounting(
    line: CreditLineData,
    credit_limit: i128,
    interest_rate_bps: u32,
    risk_score: u32,
    formula: Option<RateFormulaConfig>,
    rate_cfg: Option<RateChangeConfig>,
    now: u64,
    grace: Option<GracePeriodConfig>,
)
    requires
        line.accounting_ok(),
    ensures
        update_risk_result(Some(line), credit_limit, interest_rate_bps, risk_score, formula, rate_cfg, now, grace) matches Ok(n) ==> n.accounting_ok(),
{
    accrual_keeps_accounting(line, now, grace);
}

/// A risk-parameter update never changes the status of a Suspended,
/// Defaulted or Closed line, whatever the new limit.
pub proof fn update_risk_keeps_other_statuses(
    line: CreditLineData,
    credit_limit: i128,
    interest_rate_bps: u32,
    risk_score: u32,
    formula: Option<RateFormulaConfig>,
    rate_cfg: Option<RateChangeConfig>,
    now: u64,
    grace: Option<GracePeriodConfig>,
)
    requires
        line.status == CreditStatus::Closed || line.status == CreditStatus::Suspended || line.status == CreditStatus::Defaulted,
    ensures
        update_risk_result(Some(line), credit_limit, interest_rate_bps, risk_score, formula, rate_cfg, now, grace) matches Ok(n) ==> n.status == line.status,
{
    accrual_keeps_principal(line, now, grace);
}

/// The formula's rate is `base + score * slope` (computed without bounds)
/// when that lies within `[min_rate_bps, min(max_rate_bps, 10_000)]`, and
/// the nearer bound otherwise.
pub proof fn rate_from_score_is_clamped_line(cfg: RateFormulaConfig, risk_score: u32)
    requires
        formula_ok(cfg),
    ensures
        ({
            let raw: int = cfg.base_rate_bps + risk_score * cfg.slope_bps_per_score;
            let upper: int = if cfg.max_rate_bps < 10_000 { cfg.max_rate_bps as int } else { 10_000 };
            &&& (cfg.min_rate_bps <= raw <= upper ==> rate_from_score(cfg, risk_score) == raw)
            &&& (raw < cfg.min_rate_bps ==> rate_from_score(cfg, risk_score) == cfg.min_rate_bps)
            &&& (raw > upper ==> rate_from_score(cfg, risk_score) == upper)
        }),
{
    assert(risk_score * cfg.slope_bps_per_score >= 0) by (nonlinear_arith);
}

/// A risk update charges the time since the last accrual at the line's
/// stored rate, before the new rate takes effect: its debt, interest and
/// accrual timestamp are those of accruing the stored line; outside a grace
/// window the interest added is `utilized * stored_rate * elapsed /
/// 315_360_000_000`.
pub proof fn update_accrues_at_stored_rate(
    line: CreditLineData,
    credit_limit: i128,
    interest_rate_bps: u32,
    risk_score: u32,
    formula: Option<RateFormulaConfig>,
    rate_cfg: Option<RateChangeConfig>,
    now: u64,
    grace: Option<GracePeriodConfig>,
)
    ensures
        update_risk_result(Some(line), credit_limit, interest_rate_bps, risk_score, formula, rate_cfg, now, grace) matches Ok(n) ==> {
            &&& accrual_result(line, now, grace) matches Ok(a) && {
                &&& n.utilized_amount == a.utilized_amount
                &&& n.accrued_interest == a.accrued_interest
                &&& n.last_accrual_ts == a.last_accrual_ts
            }
            &&& ((line.status != CreditStatus::Suspended || grace is None) && now > line.last_accrual_ts && line.utilized_amount > 0)
                ==> n.accrued_interest - line.accrued_interest
                    == line.utilized_amount * line.interest_rate_bps * (now - line.last_accrual_ts) / 315_360_000_000
        },
{
    if (line.status != CreditStatus::Suspended || grace is None) && now > line.last_accrual_ts && line.utilized_amount > 0 {
        accrual_outside_grace_is_prorated(line, now, grace);
    }
}

/// Without a rate formula or rate-change limits, a risk update of a line
/// whose accrual succeeds fails exactly on a negative limit, a score above
/// 100, a rate above 10_000 bps, or a rate change whose time does not move
/// forward; otherwise it sets the limit, the supplied rate and the score,
/// stamps a rate change with `now`, and sets an Active or Restricted line to
/// Restricted exactly when the limit is below the debt.
pub proof fn update_without_configs(
    line: CreditLineData,
    credit_limit: i128,
    interest_rate_bps: u32,
    risk_score: u32,
    now: u64,
    grace: Option<GracePeriodConfig>,
)
    requires
        accrual_result(line, now, grace) is Ok,
    ensures
        ({
            let a = accrual_result(line, now, grace)->Ok_0;
            let r = update_risk_result(Some(line), credit_limit, interest_rate_bps, risk_score, None, None, now, grace);
            let changed = interest_rate_bps != line.interest_rate_bps;
            &&& credit_limit < 0 ==> r == Err::<CreditLineData, Revert>(Revert::Code(ContractError::NegativeLimit))
            &&& (credit_limit >= 0 && risk_score > 100) ==> r == Err::<CreditLineData, Revert>(Revert::Code(ContractError::ScoreTooHigh))
            &&& (credit_limit >= 0 && risk_score <= 100 && interest_rate_bps > 10_000)
                ==> r == Err::<CreditLineData, Revert>(Revert::Code(ContractError::RateTooHigh))
            &&& (credit_limit >= 0 && risk_score <= 100 && interest_rate_bps <= 10_000 && changed
                && line.last_rate_update_ts != 0 && now <= line.last_rate_update_ts)
                ==> r == Err::<CreditLineData, Revert>(Revert::Code(ContractError::Paused))
            &&& (credit_limit >= 0 && risk_score <= 100 && interest_rate_bps <= 10_000
                && (!changed || line.last_rate_update_ts == 0 || now > line.last_rate_update_ts)) ==> {
                &&& r is Ok
                &&& r->Ok_0.credit_limit == credit_limit
                &&& r->Ok_0.interest_rate_bps == interest_rate_bps
                &&& r->Ok_0.risk_score == risk_score
                &&& r->Ok_0.last_rate_update_ts == (if changed { now } else { line.last_rate_update_ts })
                &&& r->Ok_0.utilized_amount == a.utilized_amount
                &&& r->Ok_0.accrued_interest == a.accrued_interest
                &&& r->Ok_0.borrower == line.borrower
                &&& r->Ok_0.suspension_ts == line.suspension_ts
                &&& ((line.status == CreditStatus::Active || line.status == CreditStatus::Restricted)
                    ==> r->Ok_0.status == (if credit_limit < a.utilized_amount { CreditStatus::Restricted } else { CreditStatus::Active }))
                &&& (!(line.status == CreditStatus::Active || line.status == CreditStatus::Restricted)
                    ==> r->Ok_0.status == line.status)
            }
        }),
{
    accrual_keeps_principal(line, now, grace);
}

/// With rate-change limits configured, a rate change larger than
/// `max_rate_change_bps` (in either direction) reverts with the delta panic,
/// and one made less than `rate_change_min_interval` seconds after the last
/// recorded change reverts with `RateTooHigh`.
pub proof fn update_enforces_rate_change_limits(
    line: CreditLineData,
    credit_limit: i128,
    interest_rate_bps: u32,
    risk_score: u32,
    cfg: RateChangeConfig,
    now: u64,
    grace: Option<GracePeriodConfig>,
)
    requires
        accrual_result(line, now, grace) is Ok,
        credit_limit >= 0,
        risk_score <= 100,
        interest_rate_bps <= 10_000,
        interest_rate_bps != line.interest_rate_bps,
    ensures
        ({
            let r = update_risk_result(Some(line), credit_limit, interest_rate_bps, risk_score, None, Some(cfg), now, grace);
            let delta: int = if interest_rate_bps >= line.interest_rate_bps {
                interest_rate_bps - line.interest_rate_bps
            } else {
                line.interest_rate_bps - interest_rate_bps
            };
            &&& delta > cfg.max_rate_change_bps ==> r == Err::<CreditLineData, Revert>(Revert::RateChangeTooLarge)
            &&& (delta <= cfg.max_rate_change_bps && cfg.rate_change_min_interval > 0 && line.last_rate_update_ts != 0
                && now < line.last_rate_update_ts + cfg.rate_change_min_interval)
                ==> r == Err::<CreditLineData, Revert>(Revert::Code(ContractError::RateTooHigh))
            &&& r is Ok ==> delta <= cfg.max_rate_change_bps
        }),
{
    accrual_keeps_principal(line, now, grace);
}

} // verus!
