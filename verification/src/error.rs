//! The error taxonomy of the marketplace. Every operation yields success
//! or exactly one of these; no partial results cross the boundary.

use vstd::prelude::*;

verus! {

/// One terminal error per failed invocation. Callers must resubmit with
/// corrected input; there is no local recovery inside the engine.
#[derive(Clone, Copy, Debug, PartialEq, Eq, Structural)]
pub enum MarketplaceError {
    /// The command payload does not match one of the five command shapes.
    InvalidInstruction,
    /// Missing or incorrect signer, or a record-ownership mismatch.
    NotAuthorized,
    /// The marketplace record is already occupied by an initialized ledger.
    AlreadyInitialized,
    /// The operation needs an initialized marketplace ledger and found none.
    NotInitialized,
    /// A zero amount or price, or a requested amount exceeding what is available.
    InvalidAmount,
    /// A balance below what the operation requires.
    InsufficientFunds,
    /// The order was already cancelled or fully filled.
    OrderNotActive,
    /// A fee rate above the 10% cap (1000 basis points).
    InvalidFeePercentage,
    /// A checked arithmetic step overflowed the 64-bit unsigned range.
    NumericalOverflow,
    /// The seller's asset account could not be read as a token account.
    InvalidTokenAccount,
    /// The seller's asset account holds a different asset type than declared.
    InvalidMint,
}

/// The stable numeric code of each error, as exposed across the host boundary.
pub open spec fn spec_error_code(e: MarketplaceError) -> u32 {
    match e {
        MarketplaceError::InvalidInstruction => 0,
        MarketplaceError::NotAuthorized => 1,
        MarketplaceError::AlreadyInitialized => 2,
        MarketplaceError::NotInitialized => 3,
        MarketplaceError::InvalidAmount => 4,
        MarketplaceError::InsufficientFunds => 5,
        MarketplaceError::OrderNotActive => 6,
        MarketplaceError::InvalidFeePercentage => 7,
        MarketplaceError::NumericalOverflow => 8,
        MarketplaceError::InvalidTokenAccount => 9,
        MarketplaceError::InvalidMint => 10,
    }
}

impl MarketplaceError {
    /// The numeric code a host reports for this error.
    pub fn code(&self) -> (c: u32)
        ensures
            c == spec_error_code(*self),
    {
        match self {
            MarketplaceError::InvalidInstruction => 0,
            MarketplaceError::NotAuthorized => 1,
            MarketplaceError::AlreadyInitialized => 2,
            MarketplaceError::NotInitialized => 3,
            MarketplaceError::InvalidAmount => 4,
            MarketplaceError::InsufficientFunds => 5,
            MarketplaceError::OrderNotActive => 6,
            MarketplaceError::InvalidFeePercentage => 7,
            MarketplaceError::NumericalOverflow => 8,
            MarketplaceError::InvalidTokenAccount => 9,
            MarketplaceError::InvalidMint => 10,
        }
    }
}

} // verus!
