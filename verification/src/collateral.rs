//! Collateral accounting: deposits, and withdrawals that keep the collateral
//! ratio of a borrower with outstanding debt at or above the minimum.

use vstd::prelude::*;
use crate::types::ContractError;

verus! {

/// Minimum collateral ratio used when none is configured: 150% (15_000 bps).
pub const DEFAULT_MIN_COLLATERAL_RATIO_BPS: u32 = 15_000u32;

/// The outcome of depositing `amount` on a balance of `cur_balance`:
/// the new balance. `token_configured` tells whether a collateral token is set.
pub open spec fn deposit_result(cur_balance: i128, amount: i128, token_configured: bool) -> Result<i128, ContractError> {
    if amount <= 0 {
        Err(ContractError::InvalidAmount)
    } else if !token_configured {
        Err(ContractError::MissingLiquidityToken)
    } else if cur_balance + amount > i128::MAX {
        Err(ContractError::Overflow)
    } else {
        Ok((cur_balance + amount) as i128)
    }
}

/// Deposit collateral: validate the amount and compute the new balance.
pub fn deposit_collateral(cur_balance: i128, amount: i128, token_configured: bool) -> (r: Result<i128, ContractError>)
    ensures
        r == deposit_result(cur_balance, amount, token_configured),
{
    if amount <= 0 {
        return Err(ContractError::InvalidAmount);
    }
    if !token_configured {
        return Err(ContractError::MissingLiquidityToken);
    }
    match cur_balance.checked_add(amount) {
        Some(v) => Ok(v),
        None => Err(ContractError::Overflow),
    }
}

/// The collateral that `utilized` debt requires at `min_ratio_bps`:
/// `utilized * min_ratio_bps / 10_000` (truncated toward zero), or `None`
/// on overflow.
pub open spec fn required_collateral_spec(utilized: i128, min_ratio_bps: u32) -> Option<int> {
    if utilized * min_ratio_bps > i128::MAX || utilized * min_ratio_bps < i128::MIN {
        None
    } else {
        Some(trunc_div(utilized * min_ratio_bps, 10_000))
    }
}

/// Division truncating toward zero, as Rust's `/` on signed integers.
pub open spec fn trunc_div(n: int, d: int) -> int
    recommends
        d > 0,
{
    if n >= 0 { n / d } else { -((-n) / d) }
}

/// The collateral required for `utilized` debt at `min_ratio_bps`, or `None`
/// on overflow.
pub fn required_collateral(utilized: i128, min_ratio_bps: u32) -> (r: Option<i128>)
    ensures
        r matches Some(v) ==> required_collateral_spec(utilized, min_ratio_bps) == Some(v as int),
        r is None ==> required_collateral_spec(utilized, min_ratio_bps) is None,
{
    match utilized.checked_mul(min_ratio_bps as i128) {
        Some(product) => {
            let q = product / 10_000;
            assert(q == trunc_div(product as int, 10_000));
            Some(q)
        },
        None => None,
    }
}

/// The outcome of withdrawing `amount` from a balance of `cur_balance`.
///
/// `utilized` is the borrower's outstanding debt when a credit line exists;
/// `min_ratio_bps` the configured minimum ratio, if any.
pub open spec fn withdraw_result(
    cur_balance: i128,
    amount: i128,
    utilized: Option<i128>,
    min_ratio_bps: Option<u32>,
    token_configured: bool,
) -> Result<i128, ContractError> {
    let ratio = match min_ratio_bps { Some(r) => r, None => DEFAULT_MIN_COLLATERAL_RATIO_BPS };
    if amount <= 0 {
        Err(ContractError::InvalidAmount)
    } else if amount > cur_balance {
        Err(ContractError::InsufficientRepaymentBalance)
    } else {
        let post = cur_balance - amount;
        match utilized {
            Some(u) if u > 0 => match required_collateral_spec(u, ratio) {
                None => Err(ContractError::Overflow),
                Some(req) => {
                    if post < req {
                        Err(ContractError::CollateralRatioBelowMinimum)
                    } else if !token_configured {
                        Err(ContractError::MissingLiquidityToken)
                    } else {
                        Ok(post as i128)
                    }
                },
            },
            _ => if !token_configured { Err(ContractError::MissingLiquidityToken) } else { Ok(post as i128) },
        }
    }
}

/// Withdraw collateral: validate the amount and the collateral ratio and
/// compute the balance after the withdrawal.
pub fn withdraw_collateral(
    cur_balance: i128,
    amount: i128,
    utilized: Option<i128>,
    min_ratio_bps: Option<u32>,
    token_configured: bool,
) -> (r: Result<i128, ContractError>)
    ensures
        r == withdraw_result(cur_balance, amount, utilized, min_ratio_bps, token_configured),
{
    if amount <= 0 {
        return Err(ContractError::InvalidAmount);
    }
    if amount > cur_balance {
        return Err(ContractError::InsufficientRepaymentBalance);
    }
    let post_balance = cur_balance - amount;
    if let Some(u) = utilized {
        if u > 0 {
            let ratio = match min_ratio_bps {
                Some(r) => r,
                None => DEFAULT_MIN_COLLATERAL_RATIO_BPS,
            };
            let required = match required_collateral(u, ratio) {
                Some(v) => v,
                None => {
                    return Err(ContractError::Overflow);
                },
            };
            if post_balance < required {
                return Err(ContractError::CollateralRatioBelowMinimum);
            }
        }
    }
    if !token_configured {
        return Err(ContractError::MissingLiquidityToken);
    }
    Ok(post_balance)
}

/// A successful withdrawal leaves exactly `cur_balance - amount`, and, for a
/// borrower with outstanding debt, at least the required collateral.
pub proof fn withdrawal_keeps_ratio(
    cur_balance: i128,
    amount: i128,
    utilized: Option<i128>,
    min_ratio_bps: Option<u32>,
    token_configured: bool,
)
    ensures
        withdraw_result(cur_balance, amount, utilized, min_ratio_bps, token_configured) matches Ok(post) ==> {
            &&& post == cur_balance - amount
            &&& 0 <= post < cur_balance
            &&& (utilized matches Some(u) ==> (u > 0 ==> {
                let ratio = match min_ratio_bps { Some(r) => r, None => DEFAULT_MIN_COLLATERAL_RATIO_BPS };
                required_collateral_spec(u, ratio) matches Some(req) && post >= req
            }))
        },
{
}

/// Withdrawing what was just deposited restores the balance, for a
/// borrower without outstanding debt.
pub proof fn deposit_then_withdraw(cur_balance: i128, amount: i128, min_ratio_bps: Option<u32>)
    requires
        cur_balance >= 0,
    ensures
        deposit_result(cur_balance, amount, true) matches Ok(b) ==> withdraw_result(b, amount, None, min_ratio_bps, true) == Ok::<i128, ContractError>(cur_balance),
{
}

/// A deposit is refused for a non-positive amount, then without a collateral
/// token; otherwise the new balance is exactly `cur_balance + amount`, or
/// `Overflow` when that sum exceeds `i128::MAX`. The current balance does not
/// bound the deposit: a first deposit on a zero balance is accepted.
pub proof fn deposit_adds_amount(cur_balance: i128, amount: i128, token_configured: bool)
    ensures
        amount <= 0 ==> deposit_result(cur_balance, amount, token_configured) == Err::<i128, ContractError>(ContractError::InvalidAmount),
        (amount > 0 && !token_configured) ==> deposit_result(cur_balance, amount, token_configured)
            == Err::<i128, ContractError>(ContractError::MissingLiquidityToken),
        (amount > 0 && token_configured && cur_balance + amount > i128::MAX)
            ==> deposit_result(cur_balance, amount, token_configured) == Err::<i128, ContractError>(ContractError::Overflow),
        (amount > 0 && token_configured && cur_balance + amount <= i128::MAX) ==> ({
            let r = deposit_result(cur_balance, amount, token_configured);
            &&& r is Ok
            &&& r->Ok_0 == cur_balance + amount
            &&& r->Ok_0 > cur_balance
        }),
{
}

/// A withdrawal of a positive amount within the balance, with a collateral
/// token, succeeds with `cur_balance - amount` exactly when the borrower has
/// no outstanding debt, or the remaining balance is at least
/// `utilized * ratio / 10_000` (the ratio defaulting to 15_000 bps) and that
/// product fits; a larger amount is refused as insufficient balance, and a
/// remaining balance below the requirement is refused.
pub proof fn withdraw_answer(
    cur_balance: i128,
    amount: i128,
    utilized: Option<i128>,
    min_ratio_bps: Option<u32>,
    token_configured: bool,
)
    ensures
        amount <= 0 ==> withdraw_result(cur_balance, amount, utilized, min_ratio_bps, token_configured)
            == Err::<i128, ContractError>(ContractError::InvalidAmount),
        (amount > 0 && amount > cur_balance) ==> withdraw_result(cur_balance, amount, utilized, min_ratio_bps, token_configured)
            == Err::<i128, ContractError>(ContractError::InsufficientRepaymentBalance),
        (amount > 0 && amount <= cur_balance && token_configured && (utilized is None || utilized->Some_0 <= 0))
            ==> withdraw_result(cur_balance, amount, utilized, min_ratio_bps, token_configured)
            == Ok::<i128, ContractError>((cur_balance - amount) as i128),
        (amount > 0 && amount <= cur_balance && !token_configured && (utilized is None || utilized->Some_0 <= 0))
            ==> withdraw_result(cur_balance, amount, utilized, min_ratio_bps, token_configured)
            == Err::<i128, ContractError>(ContractError::MissingLiquidityToken),
        (amount > 0 && amount <= cur_balance && utilized is Some && utilized->Some_0 > 0) ==> ({
            let u: int = utilized->Some_0 as int;
            let ratio: int = if min_ratio_bps is Some { min_ratio_bps->Some_0 as int } else { 15_000 };
            let product: int = u * ratio;
            let r = withdraw_result(cur_balance, amount, utilized, min_ratio_bps, token_configured);
            &&& product > i128::MAX ==> r == Err::<i128, ContractError>(ContractError::Overflow)
            &&& (product <= i128::MAX && cur_balance - amount < product / 10_000)
                ==> r == Err::<i128, ContractError>(ContractError::CollateralRatioBelowMinimum)
            &&& (product <= i128::MAX && cur_balance - amount >= product / 10_000 && !token_configured)
                ==> r == Err::<i128, ContractError>(ContractError::MissingLiquidityToken)
            &&& (product <= i128::MAX && cur_balance - amount >= product / 10_000 && token_configured)
                ==> r == Ok::<i128, ContractError>((cur_balance - amount) as i128)
        }),
{
    if utilized is Some && utilized->Some_0 > 0 {
        let u: int = utilized->Some_0 as int;
        let ratio: int = if min_ratio_bps is Some { min_ratio_bps->Some_0 as int } else { 15_000 };
        assert(u * ratio >= 0) by (nonlinear_arith)
            requires
                u > 0,
                ratio >= 0,
        ;
    }
}

} // verus!
