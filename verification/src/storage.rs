//! Guards that the contract's entrypoints apply to stored state.

use vstd::prelude::*;
use crate::types::ContractError;

verus! {

/// Circuit breaker: reverts with `Paused` when the protocol is paused.
pub fn assert_not_paused(paused: bool) -> (r: Result<(), ContractError>)
    ensures
        r == (if paused { Err(ContractError::Paused) } else { Ok::<(), ContractError>(()) }),
{
    if paused {
        Err(ContractError::Paused)
    } else {
        Ok(())
    }
}

/// Whether writing `new_ts` over `stored_ts` keeps the timestamp monotonic:
/// a stored value of 0 means "never written"; otherwise the new value must be
/// strictly greater.
pub open spec fn ts_monotonic(stored_ts: u64, new_ts: u64) -> bool {
    stored_ts == 0 || new_ts > stored_ts
}

/// Assert that a timestamp update is monotonic; reverts (with the `Paused`
/// code, as the contract does) when `new_ts <= stored_ts` and `stored_ts != 0`.
pub fn assert_ts_monotonic(stored_ts: u64, new_ts: u64) -> (r: Result<(), ContractError>)
    ensures
        r == (if ts_monotonic(stored_ts, new_ts) { Ok::<(), ContractError>(()) } else { Err(ContractError::Paused) }),
{
    if stored_ts != 0 && new_ts <= stored_ts {
        Err(ContractError::Paused)
    } else {
        Ok(())
    }
}

/// Enter the reentrancy guard given its current value: reverts with
/// `Reentrancy` when it is already set; otherwise the guard is to be set.
pub fn set_reentrancy_guard(current: bool) -> (r: Result<(), ContractError>)
    ensures
        r == (if current { Err(ContractError::Reentrancy) } else { Ok::<(), ContractError>(()) }),
{
    if current {
        Err(ContractError::Reentrancy)
    } else {
        Ok(())
    }
}

/// The stored minimum draw interval for a requested `interval_seconds`:
/// 0 clears the setting.
pub fn set_draw_min_interval(interval_seconds: u64) -> (r: Option<u64>)
    ensures
        r == (if interval_seconds == 0 { None } else { Some(interval_seconds) }),
{
    if interval_seconds == 0 {
        None
    } else {
        Some(interval_seconds)
    }
}

/// The change in utilization when a line's stored utilization moves from
/// `previous` (`None` for a borrower without a stored line) to `current`.
pub open spec fn utilization_delta(previous: Option<i128>, current: i128) -> int {
    match previous {
        Some(p) => current - p,
        None => current as int,
    }
}

/// The global total of utilized credit after storing a line whose
/// utilization moves from `previous` (`None`: no line was stored) to
/// `current`; `Overflow` when it does not fit.
pub open spec fn total_after_result(total: i128, previous: Option<i128>, current: i128) -> Result<i128, ContractError> {
    let delta = utilization_delta(previous, current);
    if i128::MIN <= delta <= i128::MAX && i128::MIN <= total + delta <= i128::MAX {
        Ok((total + delta) as i128)
    } else {
        Err(ContractError::Overflow)
    }
}

/// Update the global total of utilized credit for a stored line whose
/// utilization moves from `previous` (`None`: no line was stored) to
/// `current`.
pub fn total_utilized_after(total: i128, previous: Option<i128>, current: i128) -> (r: Result<i128, ContractError>)
    ensures
        r == total_after_result(total, previous, current),
{
    let delta = match previous {
        Some(p) => match current.checked_sub(p) {
            Some(d) => d,
            None => {
                return Err(ContractError::Overflow);
            },
        },
        None => current,
    };
    match total.checked_add(delta) {
        Some(t) => Ok(t),
        None => Err(ContractError::Overflow),
    }
}

/// The sum of a sequence of utilized amounts.
pub open spec fn sum_utilized(amounts: Seq<int>) -> int
    decreases amounts.len(),
{
    if amounts.len() == 0 {
        0
    } else {
        sum_utilized(amounts.drop_last()) + amounts.last()
    }
}

proof fn sum_utilized_update(amounts: Seq<int>, i: int, v: int)
    requires
        0 <= i < amounts.len(),
    ensures
        sum_utilized(amounts.update(i, v)) == sum_utilized(amounts) - amounts[i] + v,
    decreases amounts.len(),
{
    let u = amounts.update(i, v);
    if i == amounts.len() - 1 {
        assert(u.drop_last() =~= amounts.drop_last());
    } else {
        assert(u.drop_last() =~= amounts.drop_last().update(i, v));
        sum_utilized_update(amounts.drop_last(), i, v);
    }
}

/// The total utilization stays the sum of all stored lines' utilized
/// amounts: if `total` is that sum before line `i` (or a new line, appended
/// at the end) is stored with utilization `current`, the updated total is
/// the sum afterwards.
pub proof fn total_utilized_stays_the_sum(amounts: Seq<int>, total: i128, i: int, previous: Option<i128>, current: i128)
    requires
        total == sum_utilized(amounts),
        previous matches Some(p) ==> 0 <= i < amounts.len() && amounts[i] == p,
        previous is None ==> i == amounts.len(),
    ensures
        total_after_result(total, previous, current) matches Ok(t) ==> t == (if previous is Some {
            sum_utilized(amounts.update(i, current as int))
        } else {
            sum_utilized(amounts.push(current as int))
        }),
{
    if previous is Some {
        sum_utilized_update(amounts, i, current as int);
    } else {
        assert(amounts.push(current as int).drop_last() =~= amounts);
    }
}

/// Storing a line moves the total by exactly the change in that line's
/// utilization: the new total is `total + current - previous` (a new line
/// counting as `previous = 0`), and it is returned whenever the change and
/// the new total fit in `i128`.
pub proof fn total_moves_by_change(total: i128, previous: Option<i128>, current: i128)
    ensures
        ({
            let before: int = if previous is Some { previous->Some_0 as int } else { 0 };
            let delta: int = current - before;
            let t: int = total + current - before;
            &&& (i128::MIN <= delta <= i128::MAX && i128::MIN <= t <= i128::MAX)
                ==> total_after_result(total, previous, current) == Ok::<i128, ContractError>(t as i128)
            &&& !(i128::MIN <= delta <= i128::MAX && i128::MIN <= t <= i128::MAX)
                ==> total_after_result(total, previous, current) == Err::<i128, ContractError>(ContractError::Overflow)
        }),
{
}

} // verus!
