//! Wire decoding of the four operations.
//!
//! A request is one opcode byte followed, for bootstrap only, by a
//! fixed-width payload: the emission percentage, the distribution window and
//! the accrual step.

use vstd::prelude::*;
use vstd::bytes::{spec_u64_from_le_bytes, u64_from_le_bytes};
use vstd::slice::slice_subrange;
use crate::error::NFTStakingContractError;

verus! {

/// The bootstrap payload.
#[derive(Debug, PartialEq, Eq, Structural, Copy, Clone)]
pub struct PlatformData {
    /// Percentage of the fixed base supply emitted over the window.
    pub percent: u8,
    /// Length of the whole distribution window, in seconds.
    pub distribution: u64,
    /// Length of one accrual step, in seconds.
    pub accumulation: u64,
}

/// One decoded request.
#[derive(Debug, PartialEq, Eq, Structural, Copy, Clone)]
pub enum NFTStakingContractInstruction {
    /// One-time bootstrap of the pool record.
    InitializePlatform(PlatformData),
    /// Lock one item and realize the caller's reward.
    StakeNFT,
    /// Release one item and realize the caller's reward.
    UnstakeNFT,
    /// Realize the caller's reward only.
    ClaimReward,
}

/// What decoding a bootstrap payload yields: the percentage byte, then two
/// little-endian seconds counts; anything shorter than 17 bytes is invalid.
pub open spec fn spec_platform_data(d: Seq<u8>) -> Result<PlatformData, NFTStakingContractError> {
    if d.len() < 17 {
        Err(NFTStakingContractError::InvalidArgs)
    } else {
        Ok(
            PlatformData {
                percent: d[0],
                distribution: spec_u64_from_le_bytes(d.subrange(1, 9)),
                accumulation: spec_u64_from_le_bytes(d.subrange(9, 17)),
            },
        )
    }
}

/// What decoding a request yields: opcode 0 carries a bootstrap payload,
/// opcodes 1 to 3 carry nothing, and an empty buffer or any other opcode is
/// an invalid instruction.
pub open spec fn spec_unpack_instruction(d: Seq<u8>) -> Result<
    NFTStakingContractInstruction,
    NFTStakingContractError,
> {
    if d.len() < 1 {
        Err(NFTStakingContractError::InvalidInstruction)
    } else if d[0] == 0 {
        match spec_platform_data(d.subrange(1, d.len() as int)) {
            Ok(p) => Ok(NFTStakingContractInstruction::InitializePlatform(p)),
            Err(e) => Err(e),
        }
    } else if d[0] == 1 {
        Ok(NFTStakingContractInstruction::StakeNFT)
    } else if d[0] == 2 {
        Ok(NFTStakingContractInstruction::UnstakeNFT)
    } else if d[0] == 3 {
        Ok(NFTStakingContractInstruction::ClaimReward)
    } else {
        Err(NFTStakingContractError::InvalidInstruction)
    }
}

impl NFTStakingContractInstruction {
    /// Decodes a request buffer.
    pub fn unpack_instruction_data(ins_data: &[u8]) -> (r: Result<
        NFTStakingContractInstruction,
        NFTStakingContractError,
    >)
        ensures
            r == spec_unpack_instruction(ins_data@),
    {
        let n = ins_data.len();
        if n < 1 {
            return Err(NFTStakingContractError::InvalidInstruction);
        }
        let opcode = ins_data[0];
        let rest = slice_subrange(ins_data, 1, n);
        match opcode {
            0 => match Self::get_platform_data(rest) {
                Ok(p) => Ok(NFTStakingContractInstruction::InitializePlatform(p)),
                Err(e) => Err(e),
            },
            1 => Ok(NFTStakingContractInstruction::StakeNFT),
            2 => Ok(NFTStakingContractInstruction::UnstakeNFT),
            3 => Ok(NFTStakingContractInstruction::ClaimReward),
            _ => Err(NFTStakingContractError::InvalidInstruction),
        }
    }

    /// Decodes a bootstrap payload.
    pub fn get_platform_data(data: &[u8]) -> (r: Result<PlatformData, NFTStakingContractError>)
        ensures
            r == spec_platform_data(data@),
    {
        let n = data.len();
        if n < 17 {
            return Err(NFTStakingContractError::InvalidArgs);
        }
        let percent = data[0];
        let distribution = u64_from_le_bytes(slice_subrange(data, 1, 9));
        let accumulation = u64_from_le_bytes(slice_subrange(data, 9, 17));
        Ok(PlatformData { percent, distribution, accumulation })
    }
}

} // verus!
