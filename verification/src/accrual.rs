//! Interest accrual: pro-rated interest, floor-rounded, capitalised into both
//! `utilized_amount` and `accrued_interest`, with an optional grace window
//! for suspended lines.

use vstd::prelude::*;
use crate::math_utils::{checked_prorate_interest, prorate_spec, Rounding, BPS_YEAR_DENOMINATOR};
use crate::types::{ContractError, CreditLineData, CreditStatus, GracePeriodConfig, GraceWaiverMode};

verus! {

/// Floor-rounded prorated interest, or `None` when the product
/// `principal * rate_bps * elapsed_secs` overflows `u128`.
pub open spec fn checked_prorate_spec(principal: nat, rate_bps: nat, elapsed_secs: nat) -> Option<nat> {
    if principal * rate_bps * elapsed_secs <= u128::MAX {
        Some(prorate_spec(principal, rate_bps, elapsed_secs, Rounding::Floor))
    } else {
        None
    }
}

/// End of the grace window: `suspension_ts + grace_period_seconds`, saturated.
pub open spec fn grace_end(line: CreditLineData, cfg: GracePeriodConfig) -> u64 {
    if line.suspension_ts + cfg.grace_period_seconds > u64::MAX {
        u64::MAX
    } else {
        (line.suspension_ts + cfg.grace_period_seconds) as u64
    }
}

/// Interest owed for `secs` seconds inside the grace window.
pub open spec fn in_window_interest(principal: nat, cfg: GracePeriodConfig, secs: nat) -> Option<nat> {
    match cfg.waiver_mode {
        GraceWaiverMode::FullWaiver => Some(0),
        GraceWaiverMode::ReducedRate => checked_prorate_spec(principal, cfg.reduced_rate_bps as nat, secs),
    }
}

/// Whether the grace window applies to `line`: it is suspended and a positive
/// grace period is configured.
pub open spec fn grace_applies(line: CreditLineData, grace: Option<GracePeriodConfig>) -> bool {
    &&& line.status == CreditStatus::Suspended
    &&& grace is Some
    &&& grace->0.grace_period_seconds > 0
}

/// Interest accrued on `line` from `last_accrual_ts` to `now` (which must be
/// later), or `None` when an intermediate product overflows `u128`.
pub open spec fn accrual_amount(line: CreditLineData, now: u64, grace: Option<GracePeriodConfig>) -> Option<nat> {
    let principal = (line.utilized_amount as u128) as nat;
    let start = line.last_accrual_ts;
    let at_rate = |secs: nat| checked_prorate_spec(principal, line.interest_rate_bps as nat, secs);
    if grace_applies(line, grace) {
        let cfg = grace->0;
        let end = grace_end(line, cfg);
        if now <= end {
            in_window_interest(principal, cfg, (now - start) as nat)
        } else if start >= end {
            at_rate((now - start) as nat)
        } else {
            match (in_window_interest(principal, cfg, (end - start) as nat), at_rate((now - end) as nat)) {
                (Some(a), Some(b)) => if a + b <= u128::MAX { Some(a + b) } else { None },
                _ => None,
            }
        }
    } else {
        at_rate((now - start) as nat)
    }
}

/// What accrual does to `line` at ledger time `now`.
///
/// Nothing happens when time has not advanced or nothing is utilized. A
/// positive accrual is added to both `utilized_amount` and `accrued_interest`
/// and moves `last_accrual_ts` to `now`; a zero accrual leaves the line as it
/// is. Any overflow reverts with `Overflow`.
pub open spec fn accrual_result(line: CreditLineData, now: u64, grace: Option<GracePeriodConfig>) -> Result<CreditLineData, ContractError> {
    if now <= line.last_accrual_ts || line.utilized_amount == 0 {
        Ok(line)
    } else {
        match accrual_amount(line, now, grace) {
            None => Err(ContractError::Overflow),
            Some(a) => {
                if a > i128::MAX || line.utilized_amount + a > i128::MAX || line.accrued_interest + a > i128::MAX {
                    Err(ContractError::Overflow)
                } else if a > 0 {
                    Ok(CreditLineData {
                        utilized_amount: (line.utilized_amount + a) as i128,
                        accrued_interest: (line.accrued_interest + a) as i128,
                        last_accrual_ts: now,
                        ..line
                    })
                } else {
                    Ok(line)
                }
            },
        }
    }
}

fn prorate_floor(principal: u128, rate_bps: u32, elapsed_secs: u64) -> (r: Option<u128>)
    ensures
        r matches Some(v) ==> checked_prorate_spec(principal as nat, rate_bps as nat, elapsed_secs as nat) == Some(v as nat),
        r is None ==> checked_prorate_spec(principal as nat, rate_bps as nat, elapsed_secs as nat) is None,
{
    checked_prorate_interest(principal, rate_bps, elapsed_secs, Rounding::Floor)
}

fn in_window(principal: u128, cfg: &GracePeriodConfig, secs: u64) -> (r: Option<u128>)
    ensures
        r matches Some(v) ==> in_window_interest(principal as nat, *cfg, secs as nat) == Some(v as nat),
        r is None ==> in_window_interest(principal as nat, *cfg, secs as nat) is None,
{
    match cfg.waiver_mode {
        GraceWaiverMode::FullWaiver => Some(0),
        GraceWaiverMode::ReducedRate => prorate_floor(principal, cfg.reduced_rate_bps, secs),
    }
}

/// Apply interest accrual to a credit line at ledger time `now` and return
/// the updated line, or `Overflow` when the arithmetic overflows.
///
/// `grace` is the configured grace period, which only affects suspended lines.
pub fn apply_accrual(line: CreditLineData, now: u64, grace: Option<GracePeriodConfig>) -> (r: Result<CreditLineData, ContractError>)
    ensures
        r == accrual_result(line, now, grace),
{
    if now <= line.last_accrual_ts {
        return Ok(line);
    }
    if line.utilized_amount == 0 {
        return Ok(line);
    }
    let accrual_start = line.last_accrual_ts;
    let principal: u128 = line.utilized_amount as u128;
    let ghost expected = accrual_amount(line, now, grace);
    let accrued_u: u128 = match grace {
        Some(cfg) if line.status == CreditStatus::Suspended && cfg.grace_period_seconds > 0 => {
            let grace_end_ts = line.suspension_ts.saturating_add(cfg.grace_period_seconds);
            assert(grace_end_ts == grace_end(line, cfg));
            if now <= grace_end_ts {
                match in_window(principal, &cfg, now - accrual_start) {
                    Some(v) => v,
                    None => {
                        return Err(ContractError::Overflow);
                    },
                }
            } else if accrual_start >= grace_end_ts {
                match prorate_floor(principal, line.interest_rate_bps, now - accrual_start) {
                    Some(v) => v,
                    None => {
                        return Err(ContractError::Overflow);
                    },
                }
            } else {
                let in_window_part = match in_window(principal, &cfg, grace_end_ts - accrual_start) {
                    Some(v) => v,
                    None => {
                        return Err(ContractError::Overflow);
                    },
                };
                let post_window_part = match prorate_floor(principal, line.interest_rate_bps, now - grace_end_ts) {
                    Some(v) => v,
                    None => {
                        return Err(ContractError::Overflow);
                    },
                };
                match in_window_part.checked_add(post_window_part) {
                    Some(v) => v,
                    None => {
                        return Err(ContractError::Overflow);
                    },
                }
            }
        },
        _ => {
            match prorate_floor(principal, line.interest_rate_bps, now - accrual_start) {
                Some(v) => v,
                None => {
                    return Err(ContractError::Overflow);
                },
            }
        },
    };
    assert(expected == Some(accrued_u as nat));
    if accrued_u > i128::MAX as u128 {
        return Err(ContractError::Overflow);
    }
    let accrued_i: i128 = accrued_u as i128;
    if accrued_i > 0 {
        let new_utilized = match line.utilized_amount.checked_add(accrued_i) {
            Some(v) => v,
            None => {
                return Err(ContractError::Overflow);
            },
        };
        let new_accrued = match line.accrued_interest.checked_add(accrued_i) {
            Some(v) => v,
            None => {
                return Err(ContractError::Overflow);
            },
        };
        Ok(CreditLineData {
            utilized_amount: new_utilized,
            accrued_interest: new_accrued,
            last_accrual_ts: now,
            ..line
        })
    } else {
        Ok(line)
    }
}

/// Accrual changes nothing but the debt, the interest and the accrual
/// timestamp; it adds the same amount to debt and interest (so the principal
/// is kept), never lowers them, and never moves `last_accrual_ts` back.
pub proof fn accrual_keeps_principal(line: CreditLineData, now: u64, grace: Option<GracePeriodConfig>)
    ensures
        accrual_result(line, now, grace) matches Ok(a) ==> {
            &&& a.principal() == line.principal()
            &&& a.utilized_amount >= line.utilized_amount
            &&& a.accrued_interest >= line.accrued_interest
            &&& a.last_accrual_ts >= line.last_accrual_ts
            &&& a.borrower == line.borrower
            &&& a.credit_limit == line.credit_limit
            &&& a.interest_rate_bps == line.interest_rate_bps
            &&& a.risk_score == line.risk_score
            &&& a.status == line.status
            &&& a.last_rate_update_ts == line.last_rate_update_ts
            &&& a.suspension_ts == line.suspension_ts
        },
{
}

/// Accrual keeps the accounting invariant
/// `0 <= accrued_interest <= utilized_amount`.
pub proof fn accrual_keeps_accounting(line: CreditLineData, now: u64, grace: Option<GracePeriodConfig>)
    requires
        line.accounting_ok(),
    ensures
        accrual_result(line, now, grace) matches Ok(a) ==> a.accounting_ok(),
{
}

/// No double interest: accruing again at the same ledger time changes nothing.
pub proof fn accrual_idempotent(line: CreditLineData, now: u64, grace: Option<GracePeriodConfig>)
    ensures
        accrual_result(line, now, grace) matches Ok(a) ==> accrual_result(a, now, grace) == Ok::<CreditLineData, ContractError>(a),
{
    if let Ok(a) = accrual_result(line, now, grace) {
        if now <= line.last_accrual_ts || line.utilized_amount == 0 {
        } else {
            let amount = accrual_amount(line, now, grace)->0;
            if amount > 0 {
                assert(now <= a.last_accrual_ts);
            } else {
                assert(a == line);
            }
        }
    }
}

/// Under a full waiver, a suspended line accrues nothing while the whole
/// period lies inside the grace window.
pub proof fn full_waiver_accrues_nothing(line: CreditLineData, now: u64, cfg: GracePeriodConfig)
    requires
        line.status == CreditStatus::Suspended,
        cfg.grace_period_seconds > 0,
        cfg.waiver_mode == GraceWaiverMode::FullWaiver,
        now <= grace_end(line, cfg),
    ensures
        accrual_result(line, now, Some(cfg)) == Ok::<CreditLineData, ContractError>(line),
{
}

proof fn prorate_monotonic_in_rate(principal: nat, r1: nat, r2: nat, elapsed: nat)
    requires
        r1 <= r2,
    ensures
        principal * r1 * elapsed <= principal * r2 * elapsed,
        prorate_spec(principal, r1, elapsed, Rounding::Floor) <= prorate_spec(principal, r2, elapsed, Rounding::Floor),
{
    assert(principal * r1 * elapsed <= principal * r2 * elapsed) by (nonlinear_arith)
        requires
            r1 <= r2,
    ;
    vstd::arithmetic::div_mod::lemma_div_is_ordered(
        (principal * r1 * elapsed) as int,
        (principal * r2 * elapsed) as int,
        BPS_YEAR_DENOMINATOR as int,
    );
}

proof fn prorate_split(principal: nat, rate: nat, e1: nat, e2: nat)
    ensures
        principal * rate * e1 + principal * rate * e2 == principal * rate * (e1 + e2),
        prorate_spec(principal, rate, e1, Rounding::Floor) + prorate_spec(principal, rate, e2, Rounding::Floor)
            <= prorate_spec(principal, rate, e1 + e2, Rounding::Floor),
{
    let a: int = (principal * rate * e1) as int;
    let b: int = (principal * rate * e2) as int;
    let d: int = BPS_YEAR_DENOMINATOR as int;
    assert(principal * rate * e1 + principal * rate * e2 == principal * rate * (e1 + e2)) by (nonlinear_arith);
    vstd::arithmetic::div_mod::lemma_fundamental_div_mod(a, d);
    vstd::arithmetic::div_mod::lemma_fundamental_div_mod(b, d);
    vstd::arithmetic::div_mod::lemma_fundamental_div_mod(a + b, d);
    let qa = a / d;
    let qb = b / d;
    let q = (a + b) / d;
    vstd::arithmetic::div_mod::lemma_mod_bound(a, d);
    vstd::arithmetic::div_mod::lemma_mod_bound(b, d);
    vstd::arithmetic::div_mod::lemma_mod_bound(a + b, d);
    if q < qa + qb {
        vstd::arithmetic::mul::lemma_mul_inequality(q + 1, qa + qb, d);
        vstd::arithmetic::mul::lemma_mul_is_distributive_add(d, qa, qb);
        vstd::arithmetic::mul::lemma_mul_is_distributive_add(d, q, 1);
        vstd::arithmetic::mul::lemma_mul_is_commutative(q + 1, d);
        vstd::arithmetic::mul::lemma_mul_is_commutative(qa + qb, d);
        assert(false);
    }
}

/// The grace window only ever lowers interest: with a waiver, or a reduced
/// rate no higher than the line's rate, a suspended line accrues no more than
/// it would without a grace period (and overflows no sooner).
pub proof fn grace_never_raises_interest(line: CreditLineData, now: u64, cfg: GracePeriodConfig)
    requires
        now > line.last_accrual_ts,
        cfg.waiver_mode == GraceWaiverMode::ReducedRate ==> cfg.reduced_rate_bps <= line.interest_rate_bps,
    ensures
        accrual_amount(line, now, None) matches Some(full) ==> (accrual_amount(line, now, Some(cfg)) matches Some(g) && g <= full),
{
    let principal = (line.utilized_amount as u128) as nat;
    let start = line.last_accrual_ts;
    let rate = line.interest_rate_bps as nat;
    if grace_applies(line, Some(cfg)) {
        let end = grace_end(line, cfg);
        if now <= end {
            if cfg.waiver_mode == GraceWaiverMode::ReducedRate {
                prorate_monotonic_in_rate(principal, cfg.reduced_rate_bps as nat, rate, (now - start) as nat);
            }
        } else if start >= end {
        } else {
            let e1 = (end - start) as nat;
            let e2 = (now - end) as nat;
            prorate_split(principal, rate, e1, e2);
            if cfg.waiver_mode == GraceWaiverMode::ReducedRate {
                prorate_monotonic_in_rate(principal, cfg.reduced_rate_bps as nat, rate, e1);
            }
            assert(e1 + e2 == (now - start) as nat);
        }
    }
}

/// Outside the grace window of a suspended line, whatever the line's status,
/// accrual charges `utilized * rate * elapsed / 315_360_000_000` (floor) at
/// the line's stored rate, adds it to both debt and interest, and moves
/// `last_accrual_ts` to `now` exactly when that interest is positive; it
/// fails with `Overflow` exactly when the product, the new debt or the new
/// interest does not fit.
pub proof fn accrual_outside_grace_is_prorated(line: CreditLineData, now: u64, grace: Option<GracePeriodConfig>)
    requires
        line.status != CreditStatus::Suspended || grace is None || grace->0.grace_period_seconds == 0,
        now > line.last_accrual_ts,
        line.utilized_amount > 0,
    ensures
        ({
            let product: int = line.utilized_amount * line.interest_rate_bps * (now - line.last_accrual_ts);
            let interest: int = product / 315_360_000_000;
            let fits = product <= u128::MAX && line.utilized_amount + interest <= i128::MAX
                && line.accrued_interest + interest <= i128::MAX;
            &&& fits ==> accrual_result(line, now, grace) == Ok::<CreditLineData, ContractError>(CreditLineData {
                utilized_amount: (line.utilized_amount + interest) as i128,
                accrued_interest: (line.accrued_interest + interest) as i128,
                last_accrual_ts: if interest > 0 { now } else { line.last_accrual_ts },
                ..line
            })
            &&& !fits ==> accrual_result(line, now, grace) == Err::<CreditLineData, ContractError>(ContractError::Overflow)
        }),
{
    let e: int = now - line.last_accrual_ts;
    let product: int = line.utilized_amount * line.interest_rate_bps * e;
    assert(product >= 0) by (nonlinear_arith)
        requires
            line.utilized_amount > 0,
            e > 0,
            product == line.utilized_amount * line.interest_rate_bps * e,
    ;
    assert((line.utilized_amount as u128) as nat == line.utilized_amount);
}

/// Accrual leaves the line as it is when ledger time has not advanced past
/// the last accrual or nothing is utilized.
pub proof fn accrual_noop_without_time_or_debt(line: CreditLineData, now: u64, grace: Option<GracePeriodConfig>)
    requires
        now <= line.last_accrual_ts || line.utilized_amount == 0,
    ensures
        accrual_result(line, now, grace) == Ok::<CreditLineData, ContractError>(line),
{
}

/// Inside the grace window of a suspended line (the window ends
/// `grace_period_seconds` after `suspension_ts`, saturating), interest is
/// nothing under a full waiver and prorated at the reduced rate otherwise;
/// after the window it is prorated at the line's rate; a period that
/// straddles the end is charged in two parts, each floored.
pub proof fn accrual_in_grace_window(line: CreditLineData, now: u64, cfg: GracePeriodConfig)
    requires
        line.status == CreditStatus::Suspended,
        cfg.grace_period_seconds > 0,
        now > line.last_accrual_ts,
        line.utilized_amount > 0,
    ensures
        ({
            let u: int = line.utilized_amount as int;
            let start: int = line.last_accrual_ts as int;
            let end: int = if line.suspension_ts + cfg.grace_period_seconds > u64::MAX { u64::MAX as int } else { line.suspension_ts + cfg.grace_period_seconds };
            let reduced = |secs: int| if cfg.waiver_mode == GraceWaiverMode::FullWaiver { 0int } else { u * cfg.reduced_rate_bps * secs / 315_360_000_000 };
            let full = |secs: int| u * line.interest_rate_bps * secs / 315_360_000_000;
            let interest: int = if now <= end {
                reduced(now - start)
            } else if start >= end {
                full(now - start)
            } else {
                reduced(end - start) + full(now - end)
            };
            let fits = u * line.interest_rate_bps * (now - start) <= u128::MAX
                && u * cfg.reduced_rate_bps * (now - start) <= u128::MAX
                && line.utilized_amount + interest <= i128::MAX
                && line.accrued_interest + interest <= i128::MAX;
            &&& accrual_result(line, now, Some(cfg)) matches Ok(a) ==> {
                &&& a.utilized_amount == line.utilized_amount + interest
                &&& a.accrued_interest == line.accrued_interest + interest
                &&& a.last_accrual_ts == (if interest > 0 { now } else { line.last_accrual_ts })
                &&& a.status == line.status
            }
            &&& fits ==> accrual_result(line, now, Some(cfg)) is Ok
        }),
{
    assert((line.utilized_amount as u128) as nat == line.utilized_amount);
    let u: int = line.utilized_amount as int;
    let start: int = line.last_accrual_ts as int;
    let total: int = now - start;
    let end: int = grace_end(line, cfg) as int;
    assert forall|rate: int, secs: int| 0 <= secs <= total && rate >= 0 implies #[trigger] (u * rate * secs) <= u * rate * total by {
        assert(u * rate * secs <= u * rate * total) by (nonlinear_arith)
            requires
                u > 0,
                rate >= 0,
                0 <= secs <= total,
        ;
    }
    if now > end && start < end {
        assert(u * cfg.reduced_rate_bps * (end - start) <= u * cfg.reduced_rate_bps * total);
        assert(u * line.interest_rate_bps * (now - end) <= u * line.interest_rate_bps * total);
    }
}

} // verus!
