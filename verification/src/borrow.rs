//! Draw-time status rules.
//!
//! Restricted lines are repayment-capable cure states: draws on them still
//! reach the numeric limit check, which refuses new net borrowing while the
//! line stays over its reduced limit.

use vstd::prelude::*;
use crate::types::{ContractError, CreditStatus};

verus! {

/// The draw-time error of a status: none for Active and Restricted lines.
pub open spec fn draw_error_of(status: CreditStatus) -> Option<ContractError> {
    match status {
        CreditStatus::Active | CreditStatus::Restricted => None,
        CreditStatus::Suspended => Some(ContractError::CreditLineSuspended),
        CreditStatus::Defaulted => Some(ContractError::CreditLineDefaulted),
        CreditStatus::Closed => Some(ContractError::CreditLineClosed),
    }
}

/// Map a credit-line status to the draw-time error, if any.
pub fn draw_status_error(status: CreditStatus) -> (r: Option<ContractError>)
    ensures
        r == draw_error_of(status),
{
    match status {
        CreditStatus::Active | CreditStatus::Restricted => None,
        CreditStatus::Suspended => Some(ContractError::CreditLineSuspended),
        CreditStatus::Defaulted => Some(ContractError::CreditLineDefaulted),
        CreditStatus::Closed => Some(ContractError::CreditLineClosed),
    }
}

/// Draws pass the status check only on Active and Restricted lines;
/// Suspended, Defaulted and Closed lines refuse them.
pub proof fn draws_only_active_or_restricted(status: CreditStatus)
    ensures
        draw_error_of(status) is None <==> (status == CreditStatus::Active || status == CreditStatus::Restricted),
{
}

/// Each status that refuses draws has its own error: a Suspended line is
/// reported suspended, a Defaulted line defaulted and a Closed line closed.
pub proof fn draw_error_names_the_status(status: CreditStatus)
    ensures
        status == CreditStatus::Suspended ==> draw_error_of(status) == Some(ContractError::CreditLineSuspended),
        status == CreditStatus::Defaulted ==> draw_error_of(status) == Some(ContractError::CreditLineDefaulted),
        status == CreditStatus::Closed ==> draw_error_of(status) == Some(ContractError::CreditLineClosed),
        (status == CreditStatus::Active || status == CreditStatus::Restricted) ==> draw_error_of(status) == None::<ContractError>,
{
}

} // verus!
