//! Verified core of the Creditra credit-line contract and the gateway auction
//! contract: interest arithmetic, accrual, the credit-line state machine, risk
//! parameter updates, collateral accounting and auction bidding rules.
//!
//! The host side (ledger storage, authorization, events and token transfers)
//! is not part of this crate: every operation here is a pure function from the
//! stored state and the call's arguments to the new state, or to the error
//! that the contract reverts with.

pub mod math_utils;
pub mod types;
pub mod accrual;
pub mod storage;
pub mod risk;
pub mod lifecycle;
pub mod borrow;
pub mod collateral;
pub mod config;
pub mod auction;
