//! The three persistent records of the staking ledger and their fixed-width
//! byte codecs.
//!
//! Each record is stored as a little-endian byte layout with a leading
//! one-byte initialization flag. A record is never partially written: every
//! mutation unpacks the whole record, changes fields, and packs the whole
//! record back.

use vstd::prelude::*;
use vstd::bytes::{spec_u64_from_le_bytes, spec_u64_to_le_bytes};
use crate::codec::{
    push_identity, push_u64_le, read_identity_at, read_u64_at, spec_identity_bytes,
    spec_identity_of_bytes, lemma_identity_bytes_roundtrip, Identity,
};
use crate::error::NFTStakingContractError;

verus! {

/// Packed width of the pool record.
pub const PLATFORM_STATE_LEN: usize = 146;

/// Packed width of the participant record.
pub const USER_BASE_STATE_LEN: usize = 97;

/// Packed width of the staked-item record.
pub const USER_NFT_STATE_LEN: usize = 129;

/// The pool record: emission parameters and the global reward accumulator.
#[derive(Debug, PartialEq, Eq, Structural, Copy, Clone)]
pub struct PlatformState {
    /// Whether bootstrap has run.
    pub is_initialized: bool,
    /// Percentage of the fixed base supply emitted over the window.
    pub coin_emission_percentage: u8,
    /// Length of the whole distribution window, in seconds.
    pub coin_emission_distribution_in_sec: u64,
    /// Length of one accrual step, in seconds.
    pub reward_accumulation_in_sec: u64,
    /// Total emission budget derived at bootstrap.
    pub total_coin_emission: u64,
    /// Count of items currently staked across all participants.
    pub total_staked_nfts: u64,
    /// Cumulative reward per unit of stake weight, fixed-point scaled by 100.
    pub reward_per_share: u64,
    /// Timestamp of the last accrual that advanced at least one step.
    pub last_updated: u64,
    /// Identity of the reward asset.
    pub reward_mint: Identity,
    /// Identity of the pool's reward custody account.
    pub reward_token_ata: Identity,
    /// The pool's derived custody identity.
    pub pda_account: Identity,
}

/// The participant record: aggregate stake position and debt baseline.
#[derive(Debug, PartialEq, Eq, Structural, Copy, Clone)]
pub struct UserBaseState {
    /// Whether the record has been created.
    pub is_initialized: bool,
    /// The owning user.
    pub user: Identity,
    /// The user's bound reward-receiving account.
    pub user_reward_ata: Identity,
    /// Count of the user's currently staked items.
    pub total_staked_nfts: u64,
    /// Sum of rarity points over the user's staked items.
    pub total_nft_points: u64,
    /// Monotonic total of reward realized so far.
    pub total_reward_claimed: u64,
    /// Reward-per-share already accounted for at the current point total.
    pub reward_debt: u64,
}

/// The staked-item record: one collateral unit in custody.
#[derive(Debug, PartialEq, Eq, Structural, Copy, Clone)]
pub struct UserNFTState {
    /// Whether the record has been created.
    pub is_initialized: bool,
    /// The owning user.
    pub user: Identity,
    /// Back-reference to the participant record.
    pub user_base_state: Identity,
    /// The escrow location of the item.
    pub nft_ata: Identity,
    /// The item's identity.
    pub nft_mint: Identity,
}

/// The one-byte encoding of an initialization flag.
pub open spec fn spec_flag_byte(b: bool) -> u8 {
    if b {
        1u8
    } else {
        0u8
    }
}

/// Whether the leading flag byte of `d` parses (0 or 1) — any other value
/// rejects the whole record.
pub open spec fn flag_byte_wf(d: Seq<u8>) -> bool {
    d[0] == 0 || d[0] == 1
}

// --- pool record ---

/// The packed byte image of a pool record.
pub open spec fn spec_pack_platform(s: PlatformState) -> Seq<u8> {
    seq![spec_flag_byte(s.is_initialized), s.coin_emission_percentage]
        + spec_u64_to_le_bytes(s.coin_emission_distribution_in_sec)
        + spec_u64_to_le_bytes(s.reward_accumulation_in_sec)
        + spec_u64_to_le_bytes(s.total_coin_emission)
        + spec_u64_to_le_bytes(s.total_staked_nfts)
        + spec_u64_to_le_bytes(s.reward_per_share)
        + spec_u64_to_le_bytes(s.last_updated) + spec_identity_bytes(s.reward_mint)
        + spec_identity_bytes(s.reward_token_ata) + spec_identity_bytes(s.pda_account)
}

/// Whether `d` is a parseable pool record image.
pub open spec fn platform_bytes_wf(d: Seq<u8>) -> bool {
    d.len() == PLATFORM_STATE_LEN && flag_byte_wf(d)
}

/// The pool record whose fields are stored in `d`.
pub open spec fn spec_platform_of_bytes(d: Seq<u8>) -> PlatformState {
    PlatformState {
        is_initialized: d[0] == 1,
        coin_emission_percentage: d[1],
        coin_emission_distribution_in_sec: spec_u64_from_le_bytes(d.subrange(2, 10)),
        reward_accumulation_in_sec: spec_u64_from_le_bytes(d.subrange(10, 18)),
        total_coin_emission: spec_u64_from_le_bytes(d.subrange(18, 26)),
        total_staked_nfts: spec_u64_from_le_bytes(d.subrange(26, 34)),
        reward_per_share: spec_u64_from_le_bytes(d.subrange(34, 42)),
        last_updated: spec_u64_from_le_bytes(d.subrange(42, 50)),
        reward_mint: spec_identity_of_bytes(d.subrange(50, 82)),
        reward_token_ata: spec_identity_of_bytes(d.subrange(82, 114)),
        pda_account: spec_identity_of_bytes(d.subrange(114, 146)),
    }
}

/// What parsing a pool record image yields.
pub open spec fn spec_unpack_platform(d: Seq<u8>) -> Result<
    PlatformState,
    NFTStakingContractError,
> {
    if platform_bytes_wf(d) {
        Ok(spec_platform_of_bytes(d))
    } else {
        Err(NFTStakingContractError::InvalidStateAccount)
    }
}

/// What parsing a pool record image and demanding initialization yields.
pub open spec fn spec_unpack_platform_checked(d: Seq<u8>) -> Result<
    PlatformState,
    NFTStakingContractError,
> {
    if platform_bytes_wf(d) && d[0] == 1 {
        Ok(spec_platform_of_bytes(d))
    } else {
        Err(NFTStakingContractError::InvalidStateAccount)
    }
}

impl PlatformState {
    /// Whether bootstrap has marked this record live.
    pub fn is_initialized(&self) -> (r: bool)
        ensures
            r == self.is_initialized,
    {
        self.is_initialized
    }

    /// Parses a pool record from its packed image, initialized or not.
    pub fn unpack_from_slice(src: &Vec<u8>) -> (r: Result<
        PlatformState,
        NFTStakingContractError,
    >)
        ensures
            r == spec_unpack_platform(src@),
    {
        if src.len() != PLATFORM_STATE_LEN {
            return Err(NFTStakingContractError::InvalidStateAccount);
        }
        let flag = src[0];
        if flag != 0 && flag != 1 {
            return Err(NFTStakingContractError::InvalidStateAccount);
        }
        Ok(
            PlatformState {
                is_initialized: flag == 1,
                coin_emission_percentage: src[1],
                coin_emission_distribution_in_sec: read_u64_at(src, 2),
                reward_accumulation_in_sec: read_u64_at(src, 10),
                total_coin_emission: read_u64_at(src, 18),
                total_staked_nfts: read_u64_at(src, 26),
                reward_per_share: read_u64_at(src, 34),
                last_updated: read_u64_at(src, 42),
                reward_mint: read_identity_at(src, 50),
                reward_token_ata: read_identity_at(src, 82),
                pda_account: read_identity_at(src, 114),
            },
        )
    }

    /// Parses a pool record and requires it to be initialized.
    pub fn unpack(src: &Vec<u8>) -> (r: Result<PlatformState, NFTStakingContractError>)
        ensures
            r == spec_unpack_platform_checked(src@),
    {
        match Self::unpack_from_slice(src) {
            Ok(s) => {
                if s.is_initialized() {
                    Ok(s)
                } else {
                    Err(NFTStakingContractError::InvalidStateAccount)
                }
            },
            Err(e) => Err(e),
        }
    }

    /// Overwrites `dst` with the packed image of this record.
    pub fn pack_into_slice(&self, dst: &mut Vec<u8>)
        ensures
            final(dst)@ == spec_pack_platform(*self),
            final(dst)@.len() == PLATFORM_STATE_LEN,
    {
        let mut out: Vec<u8> = Vec::new();
        out.push(if self.is_initialized {
            1u8
        } else {
            0u8
        });
        out.push(self.coin_emission_percentage);
        push_u64_le(&mut out, self.coin_emission_distribution_in_sec);
        push_u64_le(&mut out, self.reward_accumulation_in_sec);
        push_u64_le(&mut out, self.total_coin_emission);
        push_u64_le(&mut out, self.total_staked_nfts);
        push_u64_le(&mut out, self.reward_per_share);
        push_u64_le(&mut out, self.last_updated);
        push_identity(&mut out, &self.reward_mint);
        push_identity(&mut out, &self.reward_token_ata);
        push_identity(&mut out, &self.pda_account);
        proof {
            vstd::bytes::lemma_auto_spec_u64_to_from_le_bytes();
            lemma_identity_bytes_roundtrip(self.reward_mint);
            lemma_identity_bytes_roundtrip(self.reward_token_ata);
            lemma_identity_bytes_roundtrip(self.pda_account);
            assert(out@ =~= spec_pack_platform(*self));
        }
        *dst = out;
    }
}

/// Packing a pool record always yields a parseable image of the same record.
pub proof fn lemma_platform_pack_roundtrip(s: PlatformState)
    ensures
        spec_pack_platform(s).len() == PLATFORM_STATE_LEN,
        spec_unpack_platform(spec_pack_platform(s)) == Ok::<
            PlatformState,
            NFTStakingContractError,
        >(s),
{
    vstd::bytes::lemma_auto_spec_u64_to_from_le_bytes();
    lemma_identity_bytes_roundtrip(s.reward_mint);
    lemma_identity_bytes_roundtrip(s.reward_token_ata);
    lemma_identity_bytes_roundtrip(s.pda_account);
    let d = spec_pack_platform(s);
    assert(d.subrange(2, 10) =~= spec_u64_to_le_bytes(s.coin_emission_distribution_in_sec));
    assert(d.subrange(10, 18) =~= spec_u64_to_le_bytes(s.reward_accumulation_in_sec));
    assert(d.subrange(18, 26) =~= spec_u64_to_le_bytes(s.total_coin_emission));
    assert(d.subrange(26, 34) =~= spec_u64_to_le_bytes(s.total_staked_nfts));
    assert(d.subrange(34, 42) =~= spec_u64_to_le_bytes(s.reward_per_share));
    assert(d.subrange(42, 50) =~= spec_u64_to_le_bytes(s.last_updated));
    assert(d.subrange(50, 82) =~= spec_identity_bytes(s.reward_mint));
    assert(d.subrange(82, 114) =~= spec_identity_bytes(s.reward_token_ata));
    assert(d.subrange(114, 146) =~= spec_identity_bytes(s.pda_account));
}

// --- participant record ---

/// The packed byte image of a participant record.
pub open spec fn spec_pack_user_base(s: UserBaseState) -> Seq<u8> {
    seq![spec_flag_byte(s.is_initialized)] + spec_identity_bytes(s.user)
        + spec_identity_bytes(s.user_reward_ata) + spec_u64_to_le_bytes(s.total_staked_nfts)
        + spec_u64_to_le_bytes(s.total_nft_points) + spec_u64_to_le_bytes(s.total_reward_claimed)
        + spec_u64_to_le_bytes(s.reward_debt)
}

/// Whether `d` is a parseable participant record image.
pub open spec fn user_base_bytes_wf(d: Seq<u8>) -> bool {
    d.len() == USER_BASE_STATE_LEN && flag_byte_wf(d)
}

/// The participant record whose fields are stored in `d`.
pub open spec fn spec_user_base_of_bytes(d: Seq<u8>) -> UserBaseState {
    UserBaseState {
        is_initialized: d[0] == 1,
        user: spec_identity_of_bytes(d.subrange(1, 33)),
        user_reward_ata: spec_identity_of_bytes(d.subrange(33, 65)),
        total_staked_nfts: spec_u64_from_le_bytes(d.subrange(65, 73)),
        total_nft_points: spec_u64_from_le_bytes(d.subrange(73, 81)),
        total_reward_claimed: spec_u64_from_le_bytes(d.subrange(81, 89)),
        reward_debt: spec_u64_from_le_bytes(d.subrange(89, 97)),
    }
}

/// What parsing a participant record image yields.
pub open spec fn spec_unpack_user_base(d: Seq<u8>) -> Result<
    UserBaseState,
    NFTStakingContractError,
> {
    if user_base_bytes_wf(d) {
        Ok(spec_user_base_of_bytes(d))
    } else {
        Err(NFTStakingContractError::InvalidStateAccount)
    }
}

/// What parsing a participant record image and demanding initialization
/// yields.
pub open spec fn spec_unpack_user_base_checked(d: Seq<u8>) -> Result<
    UserBaseState,
    NFTStakingContractError,
> {
    if user_base_bytes_wf(d) && d[0] == 1 {
        Ok(spec_user_base_of_bytes(d))
    } else {
        Err(NFTStakingContractError::InvalidStateAccount)
    }
}

impl UserBaseState {
    /// Whether this record has been created.
    pub fn is_initialized(&self) -> (r: bool)
        ensures
            r == self.is_initialized,
    {
        self.is_initialized
    }

    /// Parses a participant record from its packed image, initialized or not.
    pub fn unpack_from_slice(src: &Vec<u8>) -> (r: Result<
        UserBaseState,
        NFTStakingContractError,
    >)
        ensures
            r == spec_unpack_user_base(src@),
    {
        if src.len() != USER_BASE_STATE_LEN {
            return Err(NFTStakingContractError::InvalidStateAccount);
        }
        let flag = src[0];
        if flag != 0 && flag != 1 {
            return Err(NFTStakingContractError::InvalidStateAccount);
        }
        Ok(
            UserBaseState {
                is_initialized: flag == 1,
                user: read_identity_at(src, 1),
                user_reward_ata: read_identity_at(src, 33),
                total_staked_nfts: read_u64_at(src, 65),
                total_nft_points: read_u64_at(src, 73),
                total_reward_claimed: read_u64_at(src, 81),
                reward_debt: read_u64_at(src, 89),
            },
        )
    }

    /// Parses a participant record and requires it to be initialized.
    pub fn unpack(src: &Vec<u8>) -> (r: Result<UserBaseState, NFTStakingContractError>)
        ensures
            r == spec_unpack_user_base_checked(src@),
    {
        match Self::unpack_from_slice(src) {
            Ok(s) => {
                if s.is_initialized() {
                    Ok(s)
                } else {
                    Err(NFTStakingContractError::InvalidStateAccount)
                }
            },
            Err(e) => Err(e),
        }
    }

    /// Overwrites `dst` with the packed image of this record.
    pub fn pack_into_slice(&self, dst: &mut Vec<u8>)
        ensures
            final(dst)@ == spec_pack_user_base(*self),
            final(dst)@.len() == USER_BASE_STATE_LEN,
    {
        let mut out: Vec<u8> = Vec::new();
        out.push(if self.is_initialized {
            1u8
        } else {
            0u8
        });
        push_identity(&mut out, &self.user);
        push_identity(&mut out, &self.user_reward_ata);
        push_u64_le(&mut out, self.total_staked_nfts);
        push_u64_le(&mut out, self.total_nft_points);
        push_u64_le(&mut out, self.total_reward_claimed);
        push_u64_le(&mut out, self.reward_debt);
        proof {
            vstd::bytes::lemma_auto_spec_u64_to_from_le_bytes();
            lemma_identity_bytes_roundtrip(self.user);
            lemma_identity_bytes_roundtrip(self.user_reward_ata);
            assert(out@ =~= spec_pack_user_base(*self));
        }
        *dst = out;
    }
}

/// Packing a participant record always yields a parseable image of the same
/// record.
pub proof fn lemma_user_base_pack_roundtrip(s: UserBaseState)
    ensures
        spec_pack_user_base(s).len() == USER_BASE_STATE_LEN,
        spec_unpack_user_base(spec_pack_user_base(s)) == Ok::<
            UserBaseState,
            NFTStakingContractError,
        >(s),
{
    vstd::bytes::lemma_auto_spec_u64_to_from_le_bytes();
    lemma_identity_bytes_roundtrip(s.user);
    lemma_identity_bytes_roundtrip(s.user_reward_ata);
    let d = spec_pack_user_base(s);
    assert(d.subrange(1, 33) =~= spec_identity_bytes(s.user));
    assert(d.subrange(33, 65) =~= spec_identity_bytes(s.user_reward_ata));
    assert(d.subrange(65, 73) =~= spec_u64_to_le_bytes(s.total_staked_nfts));
    assert(d.subrange(73, 81) =~= spec_u64_to_le_bytes(s.total_nft_points));
    assert(d.subrange(81, 89) =~= spec_u64_to_le_bytes(s.total_reward_claimed));
    assert(d.subrange(89, 97) =~= spec_u64_to_le_bytes(s.reward_debt));
}

// --- staked-item record ---

/// The packed byte image of a staked-item record.
pub open spec fn spec_pack_user_nft(s: UserNFTState) -> Seq<u8> {
    seq![spec_flag_byte(s.is_initialized)] + spec_identity_bytes(s.user)
        + spec_identity_bytes(s.user_base_state) + spec_identity_bytes(s.nft_ata)
        + spec_identity_bytes(s.nft_mint)
}

/// Whether `d` is a parseable staked-item record image.
pub open spec fn user_nft_bytes_wf(d: Seq<u8>) -> bool {
    d.len() == USER_NFT_STATE_LEN && flag_byte_wf(d)
}

/// The staked-item record whose fields are stored in `d`.
pub open spec fn spec_user_nft_of_bytes(d: Seq<u8>) -> UserNFTState {
    UserNFTState {
        is_initialized: d[0] == 1,
        user: spec_identity_of_bytes(d.subrange(1, 33)),
        user_base_state: spec_identity_of_bytes(d.subrange(33, 65)),
        nft_ata: spec_identity_of_bytes(d.subrange(65, 97)),
        nft_mint: spec_identity_of_bytes(d.subrange(97, 129)),
    }
}

/// What parsing a staked-item record image yields.
pub open spec fn spec_unpack_user_nft(d: Seq<u8>) -> Result<
    UserNFTState,
    NFTStakingContractError,
> {
    if user_nft_bytes_wf(d) {
        Ok(spec_user_nft_of_bytes(d))
    } else {
        Err(NFTStakingContractError::InvalidStateAccount)
    }
}

/// What parsing a staked-item record image and demanding initialization
/// yields.
pub open spec fn spec_unpack_user_nft_checked(d: Seq<u8>) -> Result<
    UserNFTState,
    NFTStakingContractError,
> {
    if user_nft_bytes_wf(d) && d[0] == 1 {
        Ok(spec_user_nft_of_bytes(d))
    } else {
        Err(NFTStakingContractError::InvalidStateAccount)
    }
}

impl UserNFTState {
    /// Whether this record has been created.
    pub fn is_initialized(&self) -> (r: bool)
        ensures
            r == self.is_initialized,
    {
        self.is_initialized
    }

    /// Parses a staked-item record from its packed image, initialized or not.
    pub fn unpack_from_slice(src: &Vec<u8>) -> (r: Result<
        UserNFTState,
        NFTStakingContractError,
    >)
        ensures
            r == spec_unpack_user_nft(src@),
    {
        if src.len() != USER_NFT_STATE_LEN {
            return Err(NFTStakingContractError::InvalidStateAccount);
        }
        let flag = src[0];
        if flag != 0 && flag != 1 {
            return Err(NFTStakingContractError::InvalidStateAccount);
        }
        Ok(
            UserNFTState {
                is_initialized: flag == 1,
                user: read_identity_at(src, 1),
                user_base_state: read_identity_at(src, 33),
                nft_ata: read_identity_at(src, 65),
                nft_mint: read_identity_at(src, 97),
            },
        )
    }

    /// Parses a staked-item record and requires it to be initialized.
    pub fn unpack(src: &Vec<u8>) -> (r: Result<UserNFTState, NFTStakingContractError>)
        ensures
            r == spec_unpack_user_nft_checked(src@),
    {
        match Self::unpack_from_slice(src) {
            Ok(s) => {
                if s.is_initialized() {
                    Ok(s)
                } else {
                    Err(NFTStakingContractError::InvalidStateAccount)
                }
            },
            Err(e) => Err(e),
        }
    }

    /// Overwrites `dst` with the packed image of this record.
    pub fn pack_into_slice(&self, dst: &mut Vec<u8>)
        ensures
            final(dst)@ == spec_pack_user_nft(*self),
            final(dst)@.len() == USER_NFT_STATE_LEN,
    {
        let mut out: Vec<u8> = Vec::new();
        out.push(if self.is_initialized {
            1u8
        } else {
            0u8
        });
        push_identity(&mut out, &self.user);
        push_identity(&mut out, &self.user_base_state);
        push_identity(&mut out, &self.nft_ata);
        push_identity(&mut out, &self.nft_mint);
        proof {
            lemma_identity_bytes_roundtrip(self.user);
            lemma_identity_bytes_roundtrip(self.user_base_state);
            lemma_identity_bytes_roundtrip(self.nft_ata);
            lemma_identity_bytes_roundtrip(self.nft_mint);
            assert(out@ =~= spec_pack_user_nft(*self));
        }
        *dst = out;
    }
}

/// Packing a staked-item record always yields a parseable image of the same
/// record.
pub proof fn lemma_user_nft_pack_roundtrip(s: UserNFTState)
    ensures
        spec_pack_user_nft(s).len() == USER_NFT_STATE_LEN,
        spec_unpack_user_nft(spec_pack_user_nft(s)) == Ok::<
            UserNFTState,
            NFTStakingContractError,
        >(s),
{
    lemma_identity_bytes_roundtrip(s.user);
    lemma_identity_bytes_roundtrip(s.user_base_state);
    lemma_identity_bytes_roundtrip(s.nft_ata);
    lemma_identity_bytes_roundtrip(s.nft_mint);
    let d = spec_pack_user_nft(s);
    assert(d.subrange(1, 33) =~= spec_identity_bytes(s.user));
    assert(d.subrange(33, 65) =~= spec_identity_bytes(s.user_base_state));
    assert(d.subrange(65, 97) =~= spec_identity_bytes(s.nft_ata));
    assert(d.subrange(97, 129) =~= spec_identity_bytes(s.nft_mint));
}

} // verus!
