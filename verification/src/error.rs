//! Error taxonomy of the settlement engine.

use vstd::prelude::*;

verus! {

/// Error reported by the ledger-facing validation layer.
#[derive(Clone, Copy, Debug, PartialEq, Eq, Structural)]
pub enum ValidationError {
    /// The bidder's wallet does not hold enough tokens.
    NotEnoughTokens,
}

impl ValidationError {
    /// Numeric code under which the hosting ledger reports this error.
    pub fn code(&self) -> (r: u32)
        ensures
            r == 0u32,
    {
        match self {
            ValidationError::NotEnoughTokens => 0,
        }
    }
}

/// Everything that can keep a prediction from being created or validated.
#[derive(Clone, Copy, Debug, PartialEq, Eq, Structural)]
pub enum SettlementError {
    /// The requested holdout period is below the configured minimum.
    InsufficientHoldout,
    /// The bidder's balance does not strictly exceed the scaled stake.
    InsufficientFunds,
    /// Scaling the stake overflows the unsigned 64-bit amount.
    ArithmeticOverflow,
    /// The record's holdout period has not elapsed yet.
    NotYetDue,
    /// The price reference presented at validation differs from the one
    /// captured at creation.
    OracleReferenceMismatch,
    /// The record has already reached its terminal, validated state.
    AlreadyValidated,
    /// The record carries no asset symbol, so it cannot be validated.
    MissingAssetSymbol,
}

/// Legacy error names of the on-ledger program.
#[derive(Clone, Copy, Debug, PartialEq, Eq, Structural)]
pub enum ErrorCode {
    /// Insufficient token balance.
    InsufficientTSD,
    /// Insufficient holdout period.
    InsufficientHoldOut,
}

impl ErrorCode {
    /// The variant of the richer taxonomy that this legacy code stands for.
    pub fn as_settlement_error(self) -> (r: SettlementError)
        ensures
            self == ErrorCode::InsufficientTSD ==> r == SettlementError::InsufficientFunds,
            self == ErrorCode::InsufficientHoldOut ==> r == SettlementError::InsufficientHoldout,
    {
        match self {
            ErrorCode::InsufficientTSD => SettlementError::InsufficientFunds,
            ErrorCode::InsufficientHoldOut => SettlementError::InsufficientHoldout,
        }
    }
}

} // verus!
