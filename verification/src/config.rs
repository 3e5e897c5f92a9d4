//! One-time contract initialization.

use vstd::prelude::*;
use crate::collateral::DEFAULT_MIN_COLLATERAL_RATIO_BPS;
use crate::types::ContractError;

verus! {

/// Storage schema version written at initialization.
pub const SCHEMA_VERSION: u32 = 1u32;

/// The global values that initialization stores beside the admin and the
/// default liquidity source (the contract itself).
#[derive(Clone, Copy, Debug, PartialEq, Eq, Structural)]
pub struct InitialState {
    pub credit_line_count: u32,
    pub total_utilized: i128,
    pub schema_version: u32,
    pub min_collateral_ratio_bps: u32,
}

/// Initialize the contract exactly once: `already_initialized` tells whether
/// an admin is stored; a second call reverts with `AlreadyInitialized`, so
/// the admin cannot be overwritten.
pub fn init(already_initialized: bool) -> (r: Result<InitialState, ContractError>)
    ensures
        already_initialized ==> r == Err::<InitialState, ContractError>(ContractError::AlreadyInitialized),
        !already_initialized ==> r == Ok::<InitialState, ContractError>(InitialState {
            credit_line_count: 0,
            total_utilized: 0,
            schema_version: SCHEMA_VERSION,
            min_collateral_ratio_bps: 15_000,
        }),
{
    if already_initialized {
        return Err(ContractError::AlreadyInitialized);
    }
    Ok(InitialState {
        credit_line_count: 0,
        total_utilized: 0,
        schema_version: SCHEMA_VERSION,
        min_collateral_ratio_bps: DEFAULT_MIN_COLLATERAL_RATIO_BPS,
    })
}

} // verus!
