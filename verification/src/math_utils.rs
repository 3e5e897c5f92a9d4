//! Deterministic, integer-only arithmetic for interest computation.
//!
//! Rates are expressed in basis points (`1 bps = 1 / 10_000`) and time in
//! ledger seconds, with a 365-day year of `31_536_000` seconds.

use vstd::prelude::*;

verus! {

/// Scaling factor used for fixed-point intermediate arithmetic (10^18).
pub const SCALE: u128 = 1_000_000_000_000_000_000u128;

/// Number of basis points in 100%.
pub const BPS_DENOMINATOR: u128 = 10_000u128;

/// Seconds in a 365-day year.
pub const SECONDS_PER_YEAR: u128 = 31_536_000u128;

/// `BPS_DENOMINATOR * SECONDS_PER_YEAR`: the divisor of a prorated interest product.
pub const BPS_YEAR_DENOMINATOR: u128 = 315_360_000_000u128;

/// Rounding mode for integer division helpers.
#[derive(Clone, Copy, Debug, PartialEq, Eq, Structural)]
pub enum Rounding {
    /// Truncate the remainder.
    Floor,
    /// Round up when a non-zero remainder exists.
    Ceil,
}

/// `n / d` rounded as `rounding` asks: down, or up when the division leaves a
/// remainder.
pub open spec fn div_round(n: nat, d: nat, rounding: Rounding) -> nat
    recommends
        d > 0,
{
    match rounding {
        Rounding::Floor => n / d,
        Rounding::Ceil => if n % d == 0 { n / d } else { n / d + 1 },
    }
}

/// Interest on `principal` at `rate_bps` over `elapsed_secs` seconds, before
/// any machine limit: `principal * rate_bps * elapsed_secs / (10_000 * 31_536_000)`.
pub open spec fn prorate_spec(principal: nat, rate_bps: nat, elapsed_secs: nat, rounding: Rounding) -> nat {
    div_round(principal * rate_bps * elapsed_secs, BPS_YEAR_DENOMINATOR as nat, rounding)
}

proof fn lemma_div_round_fits(n: nat, d: nat, rounding: Rounding)
    requires
        d > 0,
        n <= u128::MAX,
    ensures
        div_round(n, d, rounding) <= u128::MAX,
        div_round(n, d, rounding) <= n,
{
    assert(n / d <= n) by (nonlinear_arith)
        requires
            d > 0,
    ;
    if n % d != 0 {
        assert(n / d < n) by (nonlinear_arith)
            requires
                d > 0,
                n % d != 0,
        {
            if d == 1 {
                assert(n % d == 0);
            } else {
                assert(n / d * d <= n);
            }
        }
    }
}

/// Multiply `value` by `numerator` and divide by `denominator`, rounded as
/// `rounding` asks.
///
/// Defined for a non-zero denominator and a product `value * numerator` that
/// fits in `u128`; the computation panics on any other input.
pub fn mul_div(value: u128, numerator: u128, denominator: u128, rounding: Rounding) -> (r: u128)
    requires
        denominator != 0,
        value * numerator <= u128::MAX,
    ensures
        r == div_round((value * numerator) as nat, denominator as nat, rounding),
{
    let product = value * numerator;
    let quotient = product / denominator;
    proof {
        lemma_div_round_fits(product as nat, denominator as nat, rounding);
    }
    match rounding {
        Rounding::Floor => quotient,
        Rounding::Ceil => {
            if product % denominator == 0 {
                quotient
            } else {
                quotient + 1
            }
        },
    }
}

/// Multiply `amount` by `SCALE`; defined when the product fits in `u128`.
pub fn scale_up(amount: u128) -> (r: u128)
    requires
        amount * SCALE <= u128::MAX,
    ensures
        r == amount * 1_000_000_000_000_000_000,
{
    amount * SCALE
}

/// Divide `amount` by `SCALE`, rounded as `rounding` asks.
pub fn scale_down(amount: u128, rounding: Rounding) -> (r: u128)
    ensures
        r == div_round(amount as nat, 1_000_000_000_000_000_000, rounding),
{
    let quotient = amount / SCALE;
    proof {
        lemma_div_round_fits(amount as nat, SCALE as nat, rounding);
    }
    match rounding {
        Rounding::Floor => quotient,
        Rounding::Ceil => {
            if amount % SCALE == 0 {
                quotient
            } else {
                quotient + 1
            }
        },
    }
}

/// Apply a basis-point rate to an amount: `amount * rate_bps / 10_000`.
pub fn apply_bps(amount: u128, rate_bps: u32, rounding: Rounding) -> (r: u128)
    requires
        amount * rate_bps <= u128::MAX,
    ensures
        r == div_round((amount * rate_bps) as nat, 10_000, rounding),
{
    mul_div(amount, rate_bps as u128, BPS_DENOMINATOR, rounding)
}

/// Prorated interest for an elapsed interval, or `None` when the product
/// `principal * rate_bps * elapsed_secs` does not fit in `u128`.
pub fn checked_prorate_interest(principal: u128, rate_bps: u32, elapsed_secs: u64, rounding: Rounding) -> (r: Option<u128>)
    ensures
        r == (if principal * rate_bps * elapsed_secs <= u128::MAX {
            Some(prorate_spec(principal as nat, rate_bps as nat, elapsed_secs as nat, rounding) as u128)
        } else {
            None::<u128>
        }),
{
    if principal == 0 || rate_bps == 0 || elapsed_secs == 0 {
        assert(principal * rate_bps * elapsed_secs == 0) by (nonlinear_arith)
            requires
                principal == 0 || rate_bps == 0 || elapsed_secs == 0,
        ;
        assert(prorate_spec(principal as nat, rate_bps as nat, elapsed_secs as nat, rounding) == 0);
        return Some(0);
    }
    let step1 = match principal.checked_mul(rate_bps as u128) {
        Some(v) => v,
        None => {
            assert(principal * rate_bps <= principal * rate_bps * elapsed_secs) by (nonlinear_arith)
                requires
                    elapsed_secs >= 1,
            ;
            return None;
        },
    };
    let step2 = match step1.checked_mul(elapsed_secs as u128) {
        Some(v) => v,
        None => {
            return None;
        },
    };
    let quotient = step2 / BPS_YEAR_DENOMINATOR;
    proof {
        lemma_div_round_fits(step2 as nat, BPS_YEAR_DENOMINATOR as nat, rounding);
    }
    match rounding {
        Rounding::Floor => Some(quotient),
        Rounding::Ceil => {
            if step2 % BPS_YEAR_DENOMINATOR == 0 {
                Some(quotient)
            } else {
                Some(quotient + 1)
            }
        },
    }
}

/// Compute prorated interest for an elapsed time interval:
/// `principal * rate_bps * elapsed_secs / (10_000 * 31_536_000)`.
///
/// Defined when the product `principal * rate_bps * elapsed_secs` fits in
/// `u128`; the computation panics on any other input.
pub fn prorate_interest(principal: u128, rate_bps: u32, elapsed_secs: u64, rounding: Rounding) -> (r: u128)
    requires
        principal * rate_bps * elapsed_secs <= u128::MAX,
    ensures
        r == prorate_spec(principal as nat, rate_bps as nat, elapsed_secs as nat, rounding),
{
    match checked_prorate_interest(principal, rate_bps, elapsed_secs, rounding) {
        Some(v) => v,
        None => 0,
    }
}

/// Rounding up gives the floor, or one more exactly when the division
/// leaves a remainder.
pub proof fn ceil_is_floor_or_next(n: nat, d: nat)
    requires
        d > 0,
    ensures
        div_round(n, d, Rounding::Floor) <= div_round(n, d, Rounding::Ceil),
        div_round(n, d, Rounding::Ceil) <= div_round(n, d, Rounding::Floor) + 1,
        div_round(n, d, Rounding::Ceil) == div_round(n, d, Rounding::Floor) <==> n % d == 0,
{
}

/// Scaling up and then down returns the amount, whichever rounding is used.
pub proof fn scale_round_trip(amount: nat, rounding: Rounding)
    ensures
        div_round((amount * SCALE) as nat, SCALE as nat, rounding) == amount,
{
    let m: int = amount * SCALE;
    let s: int = SCALE as int;
    assert(m / s == amount && m % s == 0) by (nonlinear_arith)
        requires
            s > 0,
            m == amount * s,
    {
        vstd::arithmetic::div_mod::lemma_fundamental_div_mod_converse(m, s, amount as int, 0);
    }
}

/// Interest is zero when the principal, the rate or the elapsed time is zero.
pub proof fn prorate_zero(principal: nat, rate_bps: nat, elapsed_secs: nat, rounding: Rounding)
    requires
        principal == 0 || rate_bps == 0 || elapsed_secs == 0,
    ensures
        prorate_spec(principal, rate_bps, elapsed_secs, rounding) == 0,
{
    assert(principal * rate_bps * elapsed_secs == 0) by (nonlinear_arith)
        requires
            principal == 0 || rate_bps == 0 || elapsed_secs == 0,
    ;
}

/// One full year of interest is the basis-point share of the principal:
/// `principal * rate_bps / 10_000`.
pub proof fn prorate_one_year(principal: nat, rate_bps: nat, rounding: Rounding)
    ensures
        prorate_spec(principal, rate_bps, SECONDS_PER_YEAR as nat, rounding)
            == div_round(principal * rate_bps, BPS_DENOMINATOR as nat, rounding),
{
    let n: int = (principal * rate_bps) as int;
    let y = SECONDS_PER_YEAR as int;
    let b = BPS_DENOMINATOR as int;
    assert(n * y / (b * y) == n / b && n * y % (b * y) == (n % b) * y) by (nonlinear_arith)
        requires
            y > 0,
            b > 0,
            n >= 0,
    {
        let q = n / b;
        let r = n % b;
        assert(n == b * q + r);
        assert(n * y == (b * y) * q + r * y);
        assert(0 <= r * y < b * y);
        vstd::arithmetic::div_mod::lemma_fundamental_div_mod_converse(n * y, b * y, q, r * y);
    }
    assert(principal * rate_bps * (SECONDS_PER_YEAR as nat) == n * y);
    assert(BPS_YEAR_DENOMINATOR as int == b * y);
}

/// Interest never decreases as more time elapses.
pub proof fn prorate_monotonic_in_time(principal: nat, rate_bps: nat, e1: nat, e2: nat, rounding: Rounding)
    requires
        e1 <= e2,
    ensures
        prorate_spec(principal, rate_bps, e1, rounding) <= prorate_spec(principal, rate_bps, e2, rounding),
{
    let d = BPS_YEAR_DENOMINATOR as int;
    let n1: int = (principal * rate_bps * e1) as int;
    let n2: int = (principal * rate_bps * e2) as int;
    assert(n1 <= n2) by (nonlinear_arith)
        requires
            e1 <= e2,
            n1 == principal * rate_bps * e1,
            n2 == principal * rate_bps * e2,
    ;
    vstd::arithmetic::div_mod::lemma_div_is_ordered(n1 as int, n2 as int, d);
    if n1 % d != 0 && n2 % d == 0 {
        let q1 = n1 / d;
        let q2 = n2 / d;
        vstd::arithmetic::div_mod::lemma_fundamental_div_mod(n1, d);
        vstd::arithmetic::div_mod::lemma_fundamental_div_mod(n2, d);
        if q2 <= q1 {
            vstd::arithmetic::mul::lemma_mul_inequality(q2, q1, d);
            vstd::arithmetic::mul::lemma_mul_is_commutative(q2, d);
            vstd::arithmetic::mul::lemma_mul_is_commutative(q1, d);
            assert(false);
        }
    }
}

/// Rounding down gives the largest `q` with `q * d <= n`; rounding up gives
/// the smallest `q` with `q * d >= n`.
pub proof fn div_round_brackets(n: nat, d: nat)
    requires
        d > 0,
    ensures
        div_round(n, d, Rounding::Floor) * d <= n < div_round(n, d, Rounding::Floor) * d + d,
        n <= div_round(n, d, Rounding::Ceil) * d < n + d,
{
    let q = n / d;
    let r = n % d;
    vstd::arithmetic::div_mod::lemma_fundamental_div_mod(n as int, d as int);
    vstd::arithmetic::div_mod::lemma_mod_bound(n as int, d as int);
    assert(q * d == d * q) by (nonlinear_arith);
    assert((q + 1) * d == q * d + d) by (nonlinear_arith);
}

/// Interest rounded down is the largest whole amount whose product with
/// `10_000 * 31_536_000` does not exceed `principal * rate_bps * elapsed_secs`;
/// rounded up, the smallest whose product reaches it.
pub proof fn prorate_brackets(principal: nat, rate_bps: nat, elapsed_secs: nat)
    ensures
        prorate_spec(principal, rate_bps, elapsed_secs, Rounding::Floor) * 315_360_000_000 <= principal * rate_bps * elapsed_secs,
        principal * rate_bps * elapsed_secs < prorate_spec(principal, rate_bps, elapsed_secs, Rounding::Floor) * 315_360_000_000 + 315_360_000_000,
        principal * rate_bps * elapsed_secs <= prorate_spec(principal, rate_bps, elapsed_secs, Rounding::Ceil) * 315_360_000_000,
        prorate_spec(principal, rate_bps, elapsed_secs, Rounding::Ceil) * 315_360_000_000 < principal * rate_bps * elapsed_secs + 315_360_000_000,
{
    div_round_brackets(principal * rate_bps * elapsed_secs, 315_360_000_000);
}

} // verus!
