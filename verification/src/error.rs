//! The error taxonomy of the staking ledger.
//!
//! Every failing operation aborts with exactly one of these codes; no error is
//! retried internally.

use vstd::prelude::*;

verus! {

/// One failure code per aborted operation.
#[derive(Clone, Copy, PartialEq, Eq, Structural, Debug)]
pub enum NFTStakingContractError {
    /// The request's opcode byte is unknown or missing.
    InvalidInstruction,
    /// The bootstrap payload is shorter than its fixed width.
    InvalidArgs,
    /// A token account is owned by the wrong identity.
    IncorrectATAOwner,
    /// A token account's shape or mint binding is wrong.
    InvalidTokenATA,
    /// The bootstrap caller is not the configured administrator.
    NotAdmin,
    /// Two identities that must match do not.
    EqualityMismatch,
    /// An arithmetic step overflowed, underflowed, or divided by zero.
    MathError,
    /// The acting user did not sign the request.
    UserNotSigner,
    /// A persistent record is absent, unowned, or malformed.
    InvalidStateAccount,
    /// Two booleans that must match do not.
    BoolEqualityMismatch,
    /// The staked item's metadata is missing or carries no known rarity.
    InvalidNFTMetadata,
}

impl NFTStakingContractError {
    /// The stable numeric code of this error, in declaration order.
    pub fn code(&self) -> (c: u32)
        ensures
            c == self.spec_code(),
    {
        match self {
            NFTStakingContractError::InvalidInstruction => 0,
            NFTStakingContractError::InvalidArgs => 1,
            NFTStakingContractError::IncorrectATAOwner => 2,
            NFTStakingContractError::InvalidTokenATA => 3,
            NFTStakingContractError::NotAdmin => 4,
            NFTStakingContractError::EqualityMismatch => 5,
            NFTStakingContractError::MathError => 6,
            NFTStakingContractError::UserNotSigner => 7,
            NFTStakingContractError::InvalidStateAccount => 8,
            NFTStakingContractError::BoolEqualityMismatch => 9,
            NFTStakingContractError::InvalidNFTMetadata => 10,
        }
    }

    /// The code each variant maps to.
    pub open spec fn spec_code(self) -> u32 {
        match self {
            NFTStakingContractError::InvalidInstruction => 0,
            NFTStakingContractError::InvalidArgs => 1,
            NFTStakingContractError::IncorrectATAOwner => 2,
            NFTStakingContractError::InvalidTokenATA => 3,
            NFTStakingContractError::NotAdmin => 4,
            NFTStakingContractError::EqualityMismatch => 5,
            NFTStakingContractError::MathError => 6,
            NFTStakingContractError::UserNotSigner => 7,
            NFTStakingContractError::InvalidStateAccount => 8,
            NFTStakingContractError::BoolEqualityMismatch => 9,
            NFTStakingContractError::InvalidNFTMetadata => 10,
        }
    }
}

} // verus!
