//! Error taxonomy of the ledger core.

use vstd::prelude::*;

verus! {

/// Failures of the store surface and of checked arithmetic. These are
/// configuration or defensive errors, not normal business outcomes.
#[derive(Debug, PartialEq, Eq, Structural, Clone, Copy)]
pub enum StdError {
    /// The singleton configuration record was read before it was written.
    NotInitialized,
    /// A credit would push a balance above the representable range.
    ArithmeticOverflow,
    /// A debit would push a balance below zero.
    ArithmeticUnderflow,
}

/// Business-level failures of the two mutating operations.
#[derive(Debug, PartialEq, Eq, Structural, Clone, Copy)]
pub enum ContractError {
    /// A store or arithmetic failure surfaced unchanged.
    Std(StdError),
    /// The payment attached to a transfer does not cover the declared amount.
    InsufficientFundsSend,
    /// The caller's balance does not cover the requested withdrawal.
    InsufficientBalanceForWithdraw,
}

} // verus!
