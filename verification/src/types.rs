//! Data model of the credit contract: statuses, errors, accounts, credit
//! lines and the configuration records that the rules read.

use vstd::prelude::*;

verus! {

/// Lifecycle status of a credit line.
#[derive(Clone, Copy, Debug, PartialEq, Eq, Structural)]
pub enum CreditStatus {
    /// Open: the borrower can draw and repay.
    Active,
    /// Draws are blocked; repayments remain allowed.
    Suspended,
    /// Draws are blocked; repayments remain allowed.
    Defaulted,
    /// Terminal state of the current line record.
    Closed,
    /// Limit below utilization: repayment allowed, draws blocked until cured.
    Restricted,
}

/// Errors with which the credit contract reverts.
#[derive(Clone, Copy, Debug, PartialEq, Eq, Structural)]
pub enum ContractError {
    AlreadyInitialized,
    CreditLineNotFound,
    CreditLineSuspended,
    CreditLineDefaulted,
    CreditLineClosed,
    InvalidAmount,
    OverLimit,
    NegativeLimit,
    RateTooHigh,
    ScoreTooHigh,
    Overflow,
    Paused,
    Reentrancy,
    MissingLiquidityToken,
    InsufficientRepaymentBalance,
    CollateralRatioBelowMinimum,
}

/// Why a call reverts: a contract error code, or one of the plain panics of
/// the close, liquidation-settlement and risk-update paths.
#[derive(Clone, Copy, Debug, PartialEq, Eq, Structural)]
pub enum Revert {
    /// Revert with a contract error code.
    Code(ContractError),
    /// "Credit line not found": no line is stored for the borrower.
    LineNotFound,
    /// "cannot close: utilized amount not zero": borrower close with a balance.
    UtilizedNotZero,
    /// "unauthorized": the closer is neither the admin nor the borrower.
    Unauthorized,
    /// "rate change exceeds maximum allowed delta": a rate change larger than
    /// the configured cap.
    RateChangeTooLarge,
    /// "assertion failed: min <= max": the configured rate formula's lower
    /// bound exceeds its upper bound.
    RateBoundsInverted,
}

/// An account (a contract or user address), identified by its encoded key.
#[derive(Clone, Debug, PartialEq, Eq)]
pub struct AccountId {
    pub key: Vec<u8>,
}

impl View for AccountId {
    type V = Seq<u8>;

    open spec fn view(&self) -> Seq<u8> {
        self.key@
    }
}

impl AccountId {
    /// Whether `self` and `other` name the same account.
    pub fn same_as(&self, other: &AccountId) -> (r: bool)
        ensures
            r == (self@ == other@),
    {
        let n = self.key.len();
        if n != other.key.len() {
            return false;
        }
        let mut i: usize = 0;
        while i < n
            invariant
                n == self.key@.len(),
                n == other.key@.len(),
                i <= n,
                forall|j: int| 0 <= j < i ==> self.key@[j] == other.key@[j],
            decreases n - i,
        {
            if self.key[i] != other.key[i] {
                return false;
            }
            i = i + 1;
        }
        assert(self.key@ =~= other.key@);
        true
    }
}

/// The stored record of one borrower's credit line.
#[derive(Clone, Debug, PartialEq, Eq)]
pub struct CreditLineData {
    pub borrower: AccountId,
    pub credit_limit: i128,
    /// Total debt: principal plus capitalised interest.
    pub utilized_amount: i128,
    pub interest_rate_bps: u32,
    pub risk_score: u32,
    pub status: CreditStatus,
    pub last_rate_update_ts: u64,
    /// The interest component of `utilized_amount`.
    pub accrued_interest: i128,
    pub last_accrual_ts: u64,
    pub suspension_ts: u64,
}

impl CreditLineData {
    /// The accounting invariant: debt and interest are non-negative and the
    /// interest is part of the debt, so the principal
    /// `utilized_amount - accrued_interest` is non-negative too.
    pub open spec fn accounting_ok(&self) -> bool {
        &&& self.utilized_amount >= 0
        &&& self.accrued_interest >= 0
        &&& self.accrued_interest <= self.utilized_amount
    }

    /// The principal: the debt without its capitalised interest.
    pub open spec fn principal(&self) -> int {
        self.utilized_amount - self.accrued_interest
    }
}

/// How interest is treated inside the grace window of a suspended line.
#[derive(Clone, Copy, Debug, PartialEq, Eq, Structural)]
pub enum GraceWaiverMode {
    /// No interest accrues inside the window.
    FullWaiver,
    /// Interest accrues at `reduced_rate_bps` inside the window.
    ReducedRate,
}

/// Grace period granted to suspended lines, counted from `suspension_ts`.
#[derive(Clone, Copy, Debug, PartialEq, Eq, Structural)]
pub struct GracePeriodConfig {
    pub grace_period_seconds: u64,
    pub waiver_mode: GraceWaiverMode,
    pub reduced_rate_bps: u32,
}

/// Optional global caps on interest-rate changes.
#[derive(Clone, Copy, Debug, PartialEq, Eq, Structural)]
pub struct RateChangeConfig {
    pub max_rate_change_bps: u32,
    pub rate_change_min_interval: u64,
}

/// Piecewise-linear formula from risk score to interest rate.
#[derive(Clone, Copy, Debug, PartialEq, Eq, Structural)]
pub struct RateFormulaConfig {
    pub base_rate_bps: u32,
    pub slope_bps_per_score: u32,
    pub min_rate_bps: u32,
    pub max_rate_bps: u32,
}

} // verus!
