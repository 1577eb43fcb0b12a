//! Failure kinds surfaced to the caller. Every rejection is terminal for the
//! current instruction and leaves all state unchanged.

use vstd::prelude::*;

verus! {

/// Domain failures: validator rejections and collaborator failures.
#[derive(Clone, Copy, Debug, PartialEq, Eq, Structural)]
pub enum CharityError {
    /// Payer balance below the requested price.
    InsufficientFunds,
    /// Price not in the fixed tier set.
    InvalidPriceTier,
    /// The value-transfer collaborator reported failure.
    TransferFailed,
    /// The token-ledger mint collaborator reported failure.
    RewardMintFailed,
    /// Token descriptor fields out of bounds.
    InvalidTokenParams,
    /// Collection seller-fee basis points out of bounds.
    InvalidCollectionSize,
    /// Asset name or symbol out of bounds.
    InvalidNftMetadata,
}

impl CharityError {
    /// The human-readable description of each failure kind.
    pub fn message(&self) -> (r: &'static str)
        ensures
            r@ == match *self {
                CharityError::InsufficientFunds => "Insufficient funds for NFT purchase"@,
                CharityError::InvalidPriceTier => "Invalid NFT price tier"@,
                CharityError::TransferFailed => "Failed to transfer SOL"@,
                CharityError::RewardMintFailed => "Failed to mint reward tokens"@,
                CharityError::InvalidTokenParams => "Invalid token parameters"@,
                CharityError::InvalidCollectionSize => "Invalid collection size"@,
                CharityError::InvalidNftMetadata => "Invalid NFT metadata"@,
            },
    {
        match self {
            CharityError::InsufficientFunds => "Insufficient funds for NFT purchase",
            CharityError::InvalidPriceTier => "Invalid NFT price tier",
            CharityError::TransferFailed => "Failed to transfer SOL",
            CharityError::RewardMintFailed => "Failed to mint reward tokens",
            CharityError::InvalidTokenParams => "Invalid token parameters",
            CharityError::InvalidCollectionSize => "Invalid collection size",
            CharityError::InvalidNftMetadata => "Invalid NFT metadata",
        }
    }
}

/// Failure of a whole instruction: a domain error, an exclusive-create
/// refusal by the record store, or a failed derived-authority check.
#[derive(Clone, Copy, Debug, PartialEq, Eq, Structural)]
pub enum InstructionError {
    /// A domain rejection or collaborator failure.
    Charity(CharityError),
    /// Exclusive-create refused: the record key already holds data.
    AccountAlreadyInUse,
    /// The caller-presented authority slot does not match the derivation.
    AuthorityMismatch,
    /// No nonce in the search range yields an off-curve address (fatal:
    /// would indicate a corrupted seed label, not a runtime condition).
    AuthorityNotDerivable,
}

} // verus!
