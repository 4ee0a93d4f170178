//! The stake lifecycle orchestrator.
//!
//! Each operation is a pure transition: it reads the handed accounts,
//! validates them in a fixed order, brings the pool accumulator current,
//! realizes the caller's pending reward, applies the weight change, and
//! recomputes the debt baseline. The result lists the new records and the
//! transfers the caller must perform; on any error nothing is to be
//! persisted, so a failing operation leaves every record unchanged.

use vstd::prelude::*;
use crate::account::AccountView;
use crate::codec::{lemma_identity_bytes_injective, spec_identity_bytes, zero_bytes, zeroed_buffer, Identity};
use crate::engine::{accrue_spec, realize_reward, realize_spec, rebase_debt, rebase_spec, update_pool};
use crate::error::NFTStakingContractError;
use crate::instruction::PlatformData;
use crate::metadata::{metadata_rarity, spec_metadata_rarity, Rarity};
use crate::pda::{
    derived_address, metadata_address, metadata_address_seeds, pool_authority,
    pool_authority_seeds,
};
use crate::state::{
    spec_platform_of_bytes, spec_unpack_platform_checked, spec_unpack_user_base,
    spec_unpack_user_base_checked, spec_unpack_user_nft_checked, PlatformState, UserBaseState,
    UserNFTState,
};
use crate::validation::{
    validate_admin_spec, validate_equality_spec, validate_is_signer_spec, validate_nft_ata_spec,
    validate_state_account_spec, validate_token_ata_spec, validate_token_owner_spec, Validator,
};

verus! {

/// The fixed funding amount moved into pool custody at bootstrap.
pub const REWARD_FUNDING_AMOUNT: u64 = 100000000000000000;

/// The fixed base supply whose percentage is the emission budget.
pub const EMISSION_BASE_SUPPLY: u64 = 1000000000;

/// The first of two results, unless it failed.
pub open spec fn and_then(
    a: Result<(), NFTStakingContractError>,
    b: Result<(), NFTStakingContractError>,
) -> Result<(), NFTStakingContractError> {
    match a {
        Err(e) => Err(e),
        Ok(_) => b,
    }
}

/// What checking an address against the pool's derived custody identity
/// yields.
pub open spec fn check_pool_authority_spec(
    pda_key: Identity,
    platform_key: Identity,
    program_id: Identity,
) -> Result<(), NFTStakingContractError> {
    match derived_address(pool_authority_seeds(platform_key), spec_identity_bytes(program_id)) {
        None => Err(NFTStakingContractError::EqualityMismatch),
        Some(p) => {
            if spec_identity_bytes(pda_key) != p.0 {
                Err(NFTStakingContractError::EqualityMismatch)
            } else {
                Ok(())
            }
        },
    }
}

/// Fails unless `pda_key` is the pool's derived custody identity.
fn check_pool_authority(pda_key: &Identity, platform_key: &Identity, program_id: &Identity) -> (r:
    Result<(), NFTStakingContractError>)
    ensures
        r == check_pool_authority_spec(*pda_key, *platform_key, *program_id),
{
    match pool_authority(platform_key, program_id) {
        None => Err(NFTStakingContractError::EqualityMismatch),
        Some(p) => {
            proof {
                lemma_identity_bytes_injective(*pda_key, p.0);
            }
            Validator::validate_equality(*pda_key, p.0)
        },
    }
}

/// What checking an address against an item's derived metadata record
/// address yields.
pub open spec fn check_metadata_address_spec(
    meta_key: Identity,
    metadata_program: Identity,
    nft_mint: Identity,
) -> Result<(), NFTStakingContractError> {
    match derived_address(
        metadata_address_seeds(metadata_program, nft_mint),
        spec_identity_bytes(metadata_program),
    ) {
        None => Err(NFTStakingContractError::InvalidNFTMetadata),
        Some(p) => {
            if spec_identity_bytes(meta_key) != p.0 {
                Err(NFTStakingContractError::InvalidNFTMetadata)
            } else {
                Ok(())
            }
        },
    }
}

/// Fails unless `meta_key` is the item's derived metadata record address.
fn check_metadata_address(meta_key: &Identity, metadata_program: &Identity, nft_mint: &Identity) -> (r:
    Result<(), NFTStakingContractError>)
    ensures
        r == check_metadata_address_spec(*meta_key, *metadata_program, *nft_mint),
{
    match metadata_address(metadata_program, nft_mint) {
        None => Err(NFTStakingContractError::InvalidNFTMetadata),
        Some(p) => {
            proof {
                lemma_identity_bytes_injective(*meta_key, p.0);
            }
            if *meta_key != p.0 {
                Err(NFTStakingContractError::InvalidNFTMetadata)
            } else {
                Ok(())
            }
        },
    }
}

// --- bootstrap ---

/// The accounts handed to bootstrap.
#[derive(Debug, PartialEq, Eq, Clone)]
pub struct InitializeAccounts {
    /// This program's own identity.
    pub program_id: Identity,
    /// The administrator, who must sign.
    pub admin_account: AccountView,
    /// The pool record account, to be created empty.
    pub platform_data_account: AccountView,
    /// The reward asset's mint account.
    pub reward_mint: AccountView,
    /// The administrator's reward token account funding the pool.
    pub admin_reward_token_ata: AccountView,
    /// The pool custody's reward token account.
    pub pda_reward_token_ata: AccountView,
    /// The pool's derived custody identity account.
    pub pda_account: AccountView,
}

/// What bootstrap yields: the fresh pool record and the funding transfer
/// the caller must perform from the administrator's reward account into
/// pool custody.
#[derive(Debug, PartialEq, Eq, Structural, Copy, Clone)]
pub struct InitializeOutcome {
    /// The pool record to create and store.
    pub platform: PlatformState,
    /// The reward tokens to move into pool custody.
    pub funding_amount: u64,
}

/// What bootstrap does. Re-initialization fails: the pool record account
/// must still be empty.
pub open spec fn initialize_spec(ctx: InitializeAccounts, data: PlatformData) -> Result<
    InitializeOutcome,
    NFTStakingContractError,
> {
    let checks = and_then(
        validate_admin_spec(ctx.admin_account),
        and_then(
            validate_token_ata_spec(ctx.admin_reward_token_ata, ctx.reward_mint),
            and_then(
                validate_token_owner_spec(ctx.admin_reward_token_ata, ctx.admin_account),
                and_then(
                    validate_token_ata_spec(ctx.pda_reward_token_ata, ctx.reward_mint),
                    and_then(
                        validate_token_owner_spec(ctx.pda_reward_token_ata, ctx.pda_account),
                        check_pool_authority_spec(
                            ctx.pda_account.key,
                            ctx.platform_data_account.key,
                            ctx.program_id,
                        ),
                    ),
                ),
            ),
        ),
    );
    match checks {
        Err(e) => Err(e),
        Ok(_) => {
            if !ctx.platform_data_account.spec_data_is_empty() {
                Err(NFTStakingContractError::InvalidStateAccount)
            } else {
                Ok(
                    InitializeOutcome {
                        platform: PlatformState {
                            is_initialized: true,
                            coin_emission_percentage: data.percent,
                            coin_emission_distribution_in_sec: data.distribution,
                            reward_accumulation_in_sec: data.accumulation,
                            total_coin_emission: (EMISSION_BASE_SUPPLY * data.percent / 100) as u64,
                            total_staked_nfts: 0,
                            reward_per_share: 0,
                            last_updated: 0,
                            reward_mint: ctx.reward_mint.key,
                            reward_token_ata: ctx.pda_reward_token_ata.key,
                            pda_account: ctx.pda_account.key,
                        },
                        funding_amount: REWARD_FUNDING_AMOUNT,
                    },
                )
            }
        },
    }
}

// --- reward claim ---

/// The accounts handed to a reward claim.
#[derive(Debug, PartialEq, Eq, Clone)]
pub struct ClaimAccounts {
    /// This program's own identity.
    pub program_id: Identity,
    /// The claiming user, who must sign.
    pub user_account: AccountView,
    /// The pool record account.
    pub platform_data_account: AccountView,
    /// The user's participant record account.
    pub user_base_state_account: AccountView,
    /// The reward asset's mint account.
    pub reward_mint: AccountView,
    /// The user's reward token account.
    pub user_reward_ata: AccountView,
    /// The pool custody's reward token account.
    pub pda_reward_token_ata: AccountView,
    /// The pool's derived custody identity account.
    pub pda_account: AccountView,
}

/// What a reward claim yields: the accrued pool record, the settled
/// participant record, and the reward transfer the caller must perform from
/// pool custody (an amount of zero means no transfer).
#[derive(Debug, PartialEq, Eq, Structural, Copy, Clone)]
pub struct ClaimOutcome {
    /// The pool record to store back.
    pub platform: PlatformState,
    /// The participant record to store back.
    pub user_base: UserBaseState,
    /// The raw fixed-point reward realized.
    pub pending_reward: u64,
    /// The scaled reward tokens to move from pool custody to the user.
    pub transfer_amount: u64,
}

/// What a reward claim does: accrue, realize against the old debt baseline,
/// rebase — a rebase after a no-op weight change is still required, because
/// the accumulator advanced.
pub open spec fn claim_spec(ctx: ClaimAccounts, now: u64, reward_per_step: u64) -> Result<
    ClaimOutcome,
    NFTStakingContractError,
> {
    let checks = and_then(
        validate_is_signer_spec(ctx.user_account),
        and_then(
            check_pool_authority_spec(
                ctx.pda_account.key,
                ctx.platform_data_account.key,
                ctx.program_id,
            ),
            and_then(
                validate_token_ata_spec(ctx.user_reward_ata, ctx.reward_mint),
                and_then(
                    validate_token_owner_spec(ctx.user_reward_ata, ctx.user_account),
                    and_then(
                        validate_token_ata_spec(ctx.pda_reward_token_ata, ctx.reward_mint),
                        and_then(
                            validate_token_owner_spec(ctx.pda_reward_token_ata, ctx.pda_account),
                            and_then(
                                validate_state_account_spec(
                                    ctx.platform_data_account,
                                    ctx.program_id,
                                ),
                                validate_state_account_spec(
                                    ctx.user_base_state_account,
                                    ctx.program_id,
                                ),
                            ),
                        ),
                    ),
                ),
            ),
        ),
    );
    match checks {
        Err(e) => Err(e),
        Ok(_) => match spec_unpack_platform_checked(ctx.platform_data_account.data@) {
            Err(e) => Err(e),
            Ok(platform0) => match accrue_spec(platform0, now, reward_per_step) {
                Err(e) => Err(e),
                Ok(platform1) => match spec_unpack_user_base_checked(
                    ctx.user_base_state_account.data@,
                ) {
                    Err(e) => Err(e),
                    Ok(user0) => {
                        let checks2 = and_then(
                            validate_equality_spec(user0.user, ctx.user_account.key),
                            and_then(
                                validate_equality_spec(
                                    user0.user_reward_ata,
                                    ctx.user_reward_ata.key,
                                ),
                                and_then(
                                    validate_equality_spec(
                                        platform1.reward_mint,
                                        ctx.reward_mint.key,
                                    ),
                                    validate_equality_spec(
                                        platform1.reward_token_ata,
                                        ctx.pda_reward_token_ata.key,
                                    ),
                                ),
                            ),
                        );
                        match checks2 {
                            Err(e) => Err(e),
                            Ok(_) => match realize_spec(user0, platform1.reward_per_share) {
                                Err(e) => Err(e),
                                Ok(rr) => match rebase_spec(rr.0, platform1.reward_per_share) {
                                    Err(e) => Err(e),
                                    Ok(user2) => Ok(
                                        ClaimOutcome {
                                            platform: platform1,
                                            user_base: user2,
                                            pending_reward: rr.1,
                                            transfer_amount: rr.2,
                                        },
                                    ),
                                },
                            },
                        }
                    },
                },
            },
        },
    }
}

// --- stake ---

/// The accounts handed to a stake operation.
#[derive(Debug, PartialEq, Eq, Clone)]
pub struct StakeAccounts {
    /// This program's own identity.
    pub program_id: Identity,
    /// The staking user, who must sign.
    pub user_account: AccountView,
    /// The administrator, who must co-sign every stake.
    pub admin_account: AccountView,
    /// The pool record account.
    pub platform_data_account: AccountView,
    /// The user's participant record account; created when still empty.
    pub user_base_state_account: AccountView,
    /// The token account holding the item to stake.
    pub user_nft_ata: AccountView,
    /// The item's mint account.
    pub user_nft_mint: AccountView,
    /// The user's reward token account; created by the caller when empty.
    pub user_reward_ata: AccountView,
    /// The pool's derived custody identity account.
    pub pda_account: AccountView,
    /// The item's metadata record account.
    pub nft_metadata_account: AccountView,
    /// The metadata program's account.
    pub metadata_program_account: AccountView,
}

/// What a stake yields: the three records to store, which accounts the
/// caller must create first, the index addressing the new staked-item
/// record, and the reward transfer to perform.
#[derive(Debug, PartialEq, Eq, Structural, Copy, Clone)]
pub struct StakeOutcome {
    /// The pool record to store back.
    pub platform: PlatformState,
    /// The participant record to store back.
    pub user_base: UserBaseState,
    /// The fresh staked-item record to create and store.
    pub user_nft: UserNFTState,
    /// Whether the participant record account must be created first.
    pub user_base_created: bool,
    /// Whether the user's reward token account must be created first.
    pub user_reward_ata_created: bool,
    /// The pool-scoped index addressing the new staked-item record.
    pub item_index: u64,
    /// The raw fixed-point reward realized.
    pub pending_reward: u64,
    /// The scaled reward tokens to move from pool custody to the user.
    pub transfer_amount: u64,
}

/// The fresh participant record a first stake creates.
pub open spec fn fresh_user_base(user_key: Identity, reward_ata_key: Identity) -> UserBaseState {
    UserBaseState {
        is_initialized: true,
        user: user_key,
        user_reward_ata: reward_ata_key,
        total_staked_nfts: 0,
        total_nft_points: 0,
        total_reward_claimed: 0,
        reward_debt: 0,
    }
}

/// What a stake does: validate, accrue, realize against the old baseline,
/// take custody, classify the item's rarity, add its points and counts, and
/// rebase.
pub open spec fn stake_spec(ctx: StakeAccounts, now: u64, reward_per_step: u64) -> Result<
    StakeOutcome,
    NFTStakingContractError,
> {
    let checks = and_then(
        validate_admin_spec(ctx.admin_account),
        and_then(
            validate_is_signer_spec(ctx.user_account),
            and_then(
                check_pool_authority_spec(
                    ctx.pda_account.key,
                    ctx.platform_data_account.key,
                    ctx.program_id,
                ),
                and_then(
                    validate_nft_ata_spec(ctx.user_nft_ata, ctx.user_nft_mint),
                    and_then(
                        validate_token_owner_spec(ctx.user_nft_ata, ctx.user_account),
                        validate_state_account_spec(ctx.platform_data_account, ctx.program_id),
                    ),
                ),
            ),
        ),
    );
    match checks {
        Err(e) => Err(e),
        Ok(_) => match spec_unpack_platform_checked(ctx.platform_data_account.data@) {
            Err(e) => Err(e),
            Ok(platform0) => match accrue_spec(platform0, now, reward_per_step) {
                Err(e) => Err(e),
                Ok(platform1) => {
                    let created = ctx.user_base_state_account.spec_data_is_empty();
                    let user_base_r = if created {
                        Ok(fresh_user_base(ctx.user_account.key, ctx.user_reward_ata.key))
                    } else {
                        match validate_state_account_spec(
                            ctx.user_base_state_account,
                            ctx.program_id,
                        ) {
                            Err(e) => Err(e),
                            Ok(_) => spec_unpack_user_base(ctx.user_base_state_account.data@),
                        }
                    };
                    match user_base_r {
                        Err(e) => Err(e),
                        Ok(user0) => match realize_spec(user0, platform1.reward_per_share) {
                            Err(e) => Err(e),
                            Ok(rr) => {
                                if platform1.total_staked_nfts + 1 > u64::MAX {
                                    Err(NFTStakingContractError::MathError)
                                } else if rr.0.total_staked_nfts + 1 > u64::MAX {
                                    Err(NFTStakingContractError::MathError)
                                } else {
                                    let platform2 = PlatformState {
                                        total_staked_nfts: (platform1.total_staked_nfts + 1) as u64,
                                        ..platform1
                                    };
                                    let user1 = UserBaseState {
                                        total_staked_nfts: (rr.0.total_staked_nfts + 1) as u64,
                                        ..rr.0
                                    };
                                    match check_metadata_address_spec(
                                        ctx.nft_metadata_account.key,
                                        ctx.metadata_program_account.key,
                                        ctx.user_nft_mint.key,
                                    ) {
                                        Err(e) => Err(e),
                                        Ok(_) => match spec_metadata_rarity(
                                            ctx.nft_metadata_account.data@,
                                        ) {
                                            Err(e) => Err(e),
                                            Ok(rarity) => {
                                                if user1.total_nft_points + rarity.spec_points()
                                                    > u64::MAX {
                                                    Err(NFTStakingContractError::MathError)
                                                } else {
                                                    let user2 = UserBaseState {
                                                        total_nft_points: (user1.total_nft_points
                                                            + rarity.spec_points()) as u64,
                                                        ..user1
                                                    };
                                                    match rebase_spec(
                                                        user2,
                                                        platform1.reward_per_share,
                                                    ) {
                                                        Err(e) => Err(e),
                                                        Ok(user3) => Ok(
                                                            StakeOutcome {
                                                                platform: platform2,
                                                                user_base: user3,
                                                                user_nft: UserNFTState {
                                                                    is_initialized: true,
                                                                    user: ctx.user_account.key,
                                                                    user_base_state:
                                                                        ctx.user_base_state_account.key,
                                                                    nft_ata: ctx.user_nft_ata.key,
                                                                    nft_mint: ctx.user_nft_mint.key,
                                                                },
                                                                user_base_created: created,
                                                                user_reward_ata_created:
                                                                    ctx.user_reward_ata.spec_data_is_empty(),
                                                                item_index:
                                                                    platform1.total_staked_nfts,
                                                                pending_reward: rr.1,
                                                                transfer_amount: rr.2,
                                                            },
                                                        ),
                                                    }
                                                }
                                            },
                                        },
                                    }
                                }
                            },
                        },
                    }
                },
            },
        },
    }
}

// --- unstake ---

/// The accounts handed to an unstake operation.
#[derive(Debug, PartialEq, Eq, Clone)]
pub struct UnstakeAccounts {
    /// This program's own identity.
    pub program_id: Identity,
    /// The unstaking user, who must sign.
    pub user_account: AccountView,
    /// The pool record account.
    pub platform_data_account: AccountView,
    /// The user's participant record account.
    pub user_base_state_account: AccountView,
    /// The staked-item record account, destroyed by this operation.
    pub user_nft_state_account: AccountView,
    /// The token account holding the staked item, in pool custody.
    pub user_nft_ata: AccountView,
    /// The item's mint account.
    pub user_nft_mint: AccountView,
    /// The reward asset's mint account.
    pub reward_mint: AccountView,
    /// The user's reward token account.
    pub user_reward_ata: AccountView,
    /// The pool custody's reward token account.
    pub pda_reward_token_ata: AccountView,
    /// The pool's derived custody identity account.
    pub pda_account: AccountView,
    /// The item's metadata record account.
    pub nft_metadata_account: AccountView,
    /// The metadata program's account.
    pub metadata_program_account: AccountView,
}

/// What an unstake yields: the two surviving records, the reward transfer
/// to perform, and the balance the user reclaims when the staked-item
/// record's storage is zeroed and closed.
#[derive(Debug, PartialEq, Eq, Structural, Copy, Clone)]
pub struct UnstakeOutcome {
    /// The pool record to store back.
    pub platform: PlatformState,
    /// The participant record to store back.
    pub user_base: UserBaseState,
    /// The raw fixed-point reward realized.
    pub pending_reward: u64,
    /// The scaled reward tokens to move from pool custody to the user.
    pub transfer_amount: u64,
    /// The user's balance after reclaiming the destroyed record's balance.
    pub user_lamports: u64,
}

/// What an unstake does: validate custody and bindings, accrue, realize,
/// return custody, remove the item's points and counts, rebase, and destroy
/// the staked-item record.
pub open spec fn unstake_spec(ctx: UnstakeAccounts, now: u64, reward_per_step: u64) -> Result<
    UnstakeOutcome,
    NFTStakingContractError,
> {
    let checks = and_then(
        validate_is_signer_spec(ctx.user_account),
        and_then(
            check_pool_authority_spec(
                ctx.pda_account.key,
                ctx.platform_data_account.key,
                ctx.program_id,
            ),
            and_then(
                validate_nft_ata_spec(ctx.user_nft_ata, ctx.user_nft_mint),
                and_then(
                    validate_token_owner_spec(ctx.user_nft_ata, ctx.pda_account),
                    and_then(
                        validate_token_ata_spec(ctx.user_reward_ata, ctx.reward_mint),
                        and_then(
                            validate_token_owner_spec(ctx.user_reward_ata, ctx.user_account),
                            and_then(
                                validate_token_ata_spec(ctx.pda_reward_token_ata, ctx.reward_mint),
                                and_then(
                                    validate_token_owner_spec(
                                        ctx.pda_reward_token_ata,
                                        ctx.pda_account,
                                    ),
                                    and_then(
                                        validate_state_account_spec(
                                            ctx.platform_data_account,
                                            ctx.program_id,
                                        ),
                                        and_then(
                                            validate_state_account_spec(
                                                ctx.user_base_state_account,
                                                ctx.program_id,
                                            ),
                                            validate_state_account_spec(
                                                ctx.user_nft_state_account,
                                                ctx.program_id,
                                            ),
                                        ),
                                    ),
                                ),
                            ),
                        ),
                    ),
                ),
            ),
        ),
    );
    match checks {
        Err(e) => Err(e),
        Ok(_) => match spec_unpack_platform_checked(ctx.platform_data_account.data@) {
            Err(e) => Err(e),
            Ok(platform0) => match accrue_spec(platform0, now, reward_per_step) {
                Err(e) => Err(e),
                Ok(platform1) => match spec_unpack_user_base_checked(
                    ctx.user_base_state_account.data@,
                ) {
                    Err(e) => Err(e),
                    Ok(user0) => match spec_unpack_user_nft_checked(
                        ctx.user_nft_state_account.data@,
                    ) {
                        Err(e) => Err(e),
                        Ok(nft0) => {
                            let checks2 = and_then(
                                validate_equality_spec(user0.user, ctx.user_account.key),
                                and_then(
                                    validate_equality_spec(
                                        user0.user_reward_ata,
                                        ctx.user_reward_ata.key,
                                    ),
                                    and_then(
                                        validate_equality_spec(nft0.user, ctx.user_account.key),
                                        and_then(
                                            validate_equality_spec(
                                                nft0.user_base_state,
                                                ctx.user_base_state_account.key,
                                            ),
                                            and_then(
                                                validate_equality_spec(
                                                    nft0.nft_ata,
                                                    ctx.user_nft_ata.key,
                                                ),
                                                and_then(
                                                    validate_equality_spec(
                                                        platform1.reward_mint,
                                                        ctx.reward_mint.key,
                                                    ),
                                                    validate_equality_spec(
                                                        platform1.reward_token_ata,
                                                        ctx.pda_reward_token_ata.key,
                                                    ),
                                                ),
                                            ),
                                        ),
                                    ),
                                ),
                            );
                            match checks2 {
                                Err(e) => Err(e),
                                Ok(_) => match realize_spec(user0, platform1.reward_per_share) {
                                    Err(e) => Err(e),
                                    Ok(rr) => {
                                        if platform1.total_staked_nfts < 1 {
                                            Err(NFTStakingContractError::MathError)
                                        } else if rr.0.total_staked_nfts < 1 {
                                            Err(NFTStakingContractError::MathError)
                                        } else {
                                            let platform2 = PlatformState {
                                                total_staked_nfts: (platform1.total_staked_nfts
                                                    - 1) as u64,
                                                ..platform1
                                            };
                                            let user1 = UserBaseState {
                                                total_staked_nfts: (rr.0.total_staked_nfts
                                                    - 1) as u64,
                                                ..rr.0
                                            };
                                            match check_metadata_address_spec(
                                                ctx.nft_metadata_account.key,
                                                ctx.metadata_program_account.key,
                                                ctx.user_nft_mint.key,
                                            ) {
                                                Err(e) => Err(e),
                                                Ok(_) => match spec_metadata_rarity(
                                                    ctx.nft_metadata_account.data@,
                                                ) {
                                                    Err(e) => Err(e),
                                                    Ok(rarity) => {
                                                        if user1.total_nft_points
                                                            < rarity.spec_points() {
                                                            Err(NFTStakingContractError::MathError)
                                                        } else {
                                                            let user2 = UserBaseState {
                                                                total_nft_points:
                                                                    (user1.total_nft_points
                                                                    - rarity.spec_points()) as u64,
                                                                ..user1
                                                            };
                                                            match rebase_spec(
                                                                user2,
                                                                platform1.reward_per_share,
                                                            ) {
                                                                Err(e) => Err(e),
                                                                Ok(user3) => {
                                                                    if ctx.user_account.lamports
                                                                        + ctx.user_nft_state_account.lamports
                                                                        > u64::MAX {
                                                                        Err(
                                                                            NFTStakingContractError::MathError,
                                                                        )
                                                                    } else {
                                                                        Ok(
                                                                            UnstakeOutcome {
                                                                                platform: platform2,
                                                                                user_base: user3,
                                                                                pending_reward: rr.1,
                                                                                transfer_amount: rr.2,
                                                                                user_lamports: (ctx.user_account.lamports
                                                                                    + ctx.user_nft_state_account.lamports) as u64,
                                                                            },
                                                                        )
                                                                    }
                                                                },
                                                            }
                                                        }
                                                    },
                                                },
                                            }
                                        }
                                    },
                                },
                            }
                        },
                    },
                },
            },
        },
    }
}

// --- the laws of the orchestrator ---

/// Accrual monotonicity at the operation level: no successful claim ever
/// decreases the pool's accumulator while anything is staked.
pub proof fn lemma_claim_never_decreases_accumulator(
    ctx: ClaimAccounts,
    now: u64,
    reward_per_step: u64,
)
    requires
        spec_platform_of_bytes(ctx.platform_data_account.data@).total_staked_nfts > 0,
    ensures
        claim_spec(ctx, now, reward_per_step) matches Ok(o) ==> o.platform.reward_per_share
            >= spec_platform_of_bytes(ctx.platform_data_account.data@).reward_per_share,
{
    crate::engine::lemma_accrual_monotonic(
        spec_platform_of_bytes(ctx.platform_data_account.data@),
        now,
        reward_per_step,
    );
}

/// Accrual monotonicity at the operation level: no successful stake ever
/// decreases the pool's accumulator while anything is staked.
pub proof fn lemma_stake_never_decreases_accumulator(
    ctx: StakeAccounts,
    now: u64,
    reward_per_step: u64,
)
    requires
        spec_platform_of_bytes(ctx.platform_data_account.data@).total_staked_nfts > 0,
    ensures
        stake_spec(ctx, now, reward_per_step) matches Ok(o) ==> o.platform.reward_per_share
            >= spec_platform_of_bytes(ctx.platform_data_account.data@).reward_per_share,
{
    crate::engine::lemma_accrual_monotonic(
        spec_platform_of_bytes(ctx.platform_data_account.data@),
        now,
        reward_per_step,
    );
}

/// Accrual monotonicity at the operation level: no successful unstake ever
/// decreases the pool's accumulator while anything is staked.
pub proof fn lemma_unstake_never_decreases_accumulator(
    ctx: UnstakeAccounts,
    now: u64,
    reward_per_step: u64,
)
    requires
        spec_platform_of_bytes(ctx.platform_data_account.data@).total_staked_nfts > 0,
    ensures
        unstake_spec(ctx, now, reward_per_step) matches Ok(o) ==> o.platform.reward_per_share
            >= spec_platform_of_bytes(ctx.platform_data_account.data@).reward_per_share,
{
    crate::engine::lemma_accrual_monotonic(
        spec_platform_of_bytes(ctx.platform_data_account.data@),
        now,
        reward_per_step,
    );
}

/// A destroyed staked-item record never unstakes again: once its storage is
/// zeroed, every further unstake of it fails.
pub proof fn lemma_destroyed_item_record_cannot_unstake(
    ctx: UnstakeAccounts,
    now: u64,
    reward_per_step: u64,
)
    requires
        ctx.user_nft_state_account.data@ == zero_bytes(ctx.user_nft_state_account.data@.len()),
    ensures
        unstake_spec(ctx, now, reward_per_step) is Err,
{
    let d = ctx.user_nft_state_account.data@;
    if d.len() > 0 {
        assert(d[0] == 0);
    }
    assert(spec_unpack_user_nft_checked(d) is Err);
}

/// The stateful operations of the ledger.
pub struct Processor;

impl Processor {
    /// Bootstraps the pool record once.
    ///
    /// The caller must create the record account, fund pool custody with
    /// the outcome's amount, and store the outcome's packed pool record.
    pub fn process_initialize_platform(ctx: &InitializeAccounts, platform_data: PlatformData) -> (r:
        Result<InitializeOutcome, NFTStakingContractError>)
        ensures
            r == initialize_spec(*ctx, platform_data),
    {
        if let Err(e) = Validator::validate_admin(&ctx.admin_account) {
            return Err(e);
        }
        if let Err(e) = Validator::validate_token_ata(&ctx.admin_reward_token_ata, &ctx.reward_mint) {
            return Err(e);
        }
        if let Err(e) = Validator::validate_token_owner(
            &ctx.admin_reward_token_ata,
            &ctx.admin_account,
        ) {
            return Err(e);
        }
        if let Err(e) = Validator::validate_token_ata(&ctx.pda_reward_token_ata, &ctx.reward_mint) {
            return Err(e);
        }
        if let Err(e) = Validator::validate_token_owner(
            &ctx.pda_reward_token_ata,
            &ctx.pda_account,
        ) {
            return Err(e);
        }
        if let Err(e) = check_pool_authority(
            &ctx.pda_account.key,
            &ctx.platform_data_account.key,
            &ctx.program_id,
        ) {
            return Err(e);
        }
        if !ctx.platform_data_account.data_is_empty() {
            return Err(NFTStakingContractError::InvalidStateAccount);
        }
        let total_coin_emission = match EMISSION_BASE_SUPPLY.checked_mul(
            platform_data.percent as u64,
        ) {
            Some(v) => v,
            None => {
                return Err(NFTStakingContractError::MathError);
            },
        } / 100;
        Ok(
            InitializeOutcome {
                platform: PlatformState {
                    is_initialized: true,
                    coin_emission_percentage: platform_data.percent,
                    coin_emission_distribution_in_sec: platform_data.distribution,
                    reward_accumulation_in_sec: platform_data.accumulation,
                    total_coin_emission,
                    total_staked_nfts: 0,
                    reward_per_share: 0,
                    last_updated: 0,
                    reward_mint: ctx.reward_mint.key,
                    reward_token_ata: ctx.pda_reward_token_ata.key,
                    pda_account: ctx.pda_account.key,
                },
                funding_amount: REWARD_FUNDING_AMOUNT,
            },
        )
    }

    /// Locks one item into custody and settles the caller's reward.
    ///
    /// The caller must create the accounts the outcome marks, take custody
    /// of the item, perform the outcome's reward transfer, and store the
    /// outcome's three packed records.
    pub fn process_stake_nft(ctx: &StakeAccounts, now: u64, reward_per_step: u64) -> (r: Result<
        StakeOutcome,
        NFTStakingContractError,
    >)
        ensures
            r == stake_spec(*ctx, now, reward_per_step),
    {
        if let Err(e) = Validator::validate_admin(&ctx.admin_account) {
            return Err(e);
        }
        if let Err(e) = Validator::validate_is_signer(&ctx.user_account) {
            return Err(e);
        }
        if let Err(e) = check_pool_authority(
            &ctx.pda_account.key,
            &ctx.platform_data_account.key,
            &ctx.program_id,
        ) {
            return Err(e);
        }
        if let Err(e) = Validator::validate_nft_ata(&ctx.user_nft_ata, &ctx.user_nft_mint) {
            return Err(e);
        }
        if let Err(e) = Validator::validate_token_owner(&ctx.user_nft_ata, &ctx.user_account) {
            return Err(e);
        }
        if let Err(e) = Validator::validate_state_account(
            &ctx.platform_data_account,
            ctx.program_id,
        ) {
            return Err(e);
        }
        let mut platform = match PlatformState::unpack(&ctx.platform_data_account.data) {
            Ok(p) => p,
            Err(e) => {
                return Err(e);
            },
        };
        if let Err(e) = update_pool(&mut platform, now, reward_per_step) {
            return Err(e);
        }
        let user_base_created = ctx.user_base_state_account.data_is_empty();
        let mut user = if user_base_created {
            UserBaseState {
                is_initialized: true,
                user: ctx.user_account.key,
                user_reward_ata: ctx.user_reward_ata.key,
                total_staked_nfts: 0,
                total_nft_points: 0,
                total_reward_claimed: 0,
                reward_debt: 0,
            }
        } else {
            if let Err(e) = Validator::validate_state_account(
                &ctx.user_base_state_account,
                ctx.program_id,
            ) {
                return Err(e);
            }
            match UserBaseState::unpack_from_slice(&ctx.user_base_state_account.data) {
                Ok(u) => u,
                Err(e) => {
                    return Err(e);
                },
            }
        };
        let item_index = platform.total_staked_nfts;
        let (pending_reward, transfer_amount) = match realize_reward(
            &mut user,
            platform.reward_per_share,
        ) {
            Ok(p) => p,
            Err(e) => {
                return Err(e);
            },
        };
        let new_total = match platform.total_staked_nfts.checked_add(1) {
            Some(v) => v,
            None => {
                return Err(NFTStakingContractError::MathError);
            },
        };
        platform.total_staked_nfts = new_total;
        let new_user_total = match user.total_staked_nfts.checked_add(1) {
            Some(v) => v,
            None => {
                return Err(NFTStakingContractError::MathError);
            },
        };
        user.total_staked_nfts = new_user_total;
        if let Err(e) = check_metadata_address(
            &ctx.nft_metadata_account.key,
            &ctx.metadata_program_account.key,
            &ctx.user_nft_mint.key,
        ) {
            return Err(e);
        }
        let rarity = match metadata_rarity(&ctx.nft_metadata_account.data) {
            Ok(t) => t,
            Err(e) => {
                return Err(e);
            },
        };
        let new_points = match user.total_nft_points.checked_add(rarity.points()) {
            Some(v) => v,
            None => {
                return Err(NFTStakingContractError::MathError);
            },
        };
        user.total_nft_points = new_points;
        if let Err(e) = rebase_debt(&mut user, platform.reward_per_share) {
            return Err(e);
        }
        Ok(
            StakeOutcome {
                platform,
                user_base: user,
                user_nft: UserNFTState {
                    is_initialized: true,
                    user: ctx.user_account.key,
                    user_base_state: ctx.user_base_state_account.key,
                    nft_ata: ctx.user_nft_ata.key,
                    nft_mint: ctx.user_nft_mint.key,
                },
                user_base_created,
                user_reward_ata_created: ctx.user_reward_ata.data_is_empty(),
                item_index,
                pending_reward,
                transfer_amount,
            },
        )
    }

    /// Releases one item from custody, settles the caller's reward, and
    /// destroys the staked-item record.
    ///
    /// The caller must return custody of the item, perform the outcome's
    /// reward transfer, store the two surviving packed records, and close
    /// the staked-item record account with [`Processor::close_state_account`].
    pub fn process_unstake_nft(ctx: &UnstakeAccounts, now: u64, reward_per_step: u64) -> (r: Result<
        UnstakeOutcome,
        NFTStakingContractError,
    >)
        ensures
            r == unstake_spec(*ctx, now, reward_per_step),
    {
        if let Err(e) = Validator::validate_is_signer(&ctx.user_account) {
            return Err(e);
        }
        if let Err(e) = check_pool_authority(
            &ctx.pda_account.key,
            &ctx.platform_data_account.key,
            &ctx.program_id,
        ) {
            return Err(e);
        }
        if let Err(e) = Validator::validate_nft_ata(&ctx.user_nft_ata, &ctx.user_nft_mint) {
            return Err(e);
        }
        if let Err(e) = Validator::validate_token_owner(&ctx.user_nft_ata, &ctx.pda_account) {
            return Err(e);
        }
        if let Err(e) = Validator::validate_token_ata(&ctx.user_reward_ata, &ctx.reward_mint) {
            return Err(e);
        }
        if let Err(e) = Validator::validate_token_owner(&ctx.user_reward_ata, &ctx.user_account) {
            return Err(e);
        }
        if let Err(e) = Validator::validate_token_ata(&ctx.pda_reward_token_ata, &ctx.reward_mint) {
            return Err(e);
        }
        if let Err(e) = Validator::validate_token_owner(
            &ctx.pda_reward_token_ata,
            &ctx.pda_account,
        ) {
            return Err(e);
        }
        if let Err(e) = Validator::validate_state_account(
            &ctx.platform_data_account,
            ctx.program_id,
        ) {
            return Err(e);
        }
        if let Err(e) = Validator::validate_state_account(
            &ctx.user_base_state_account,
            ctx.program_id,
        ) {
            return Err(e);
        }
        if let Err(e) = Validator::validate_state_account(
            &ctx.user_nft_state_account,
            ctx.program_id,
        ) {
            return Err(e);
        }
        let mut platform = match PlatformState::unpack(&ctx.platform_data_account.data) {
            Ok(p) => p,
            Err(e) => {
                return Err(e);
            },
        };
        if let Err(e) = update_pool(&mut platform, now, reward_per_step) {
            return Err(e);
        }
        let mut user = match UserBaseState::unpack(&ctx.user_base_state_account.data) {
            Ok(u) => u,
            Err(e) => {
                return Err(e);
            },
        };
        let nft_record = match UserNFTState::unpack(&ctx.user_nft_state_account.data) {
            Ok(s) => s,
            Err(e) => {
                return Err(e);
            },
        };
        if let Err(e) = Validator::validate_equality(user.user, ctx.user_account.key) {
            return Err(e);
        }
        if let Err(e) = Validator::validate_equality(user.user_reward_ata, ctx.user_reward_ata.key) {
            return Err(e);
        }
        if let Err(e) = Validator::validate_equality(nft_record.user, ctx.user_account.key) {
            return Err(e);
        }
        if let Err(e) = Validator::validate_equality(
            nft_record.user_base_state,
            ctx.user_base_state_account.key,
        ) {
            return Err(e);
        }
        if let Err(e) = Validator::validate_equality(nft_record.nft_ata, ctx.user_nft_ata.key) {
            return Err(e);
        }
        if let Err(e) = Validator::validate_equality(platform.reward_mint, ctx.reward_mint.key) {
            return Err(e);
        }
        if let Err(e) = Validator::validate_equality(
            platform.reward_token_ata,
            ctx.pda_reward_token_ata.key,
        ) {
            return Err(e);
        }
        let (pending_reward, transfer_amount) = match realize_reward(
            &mut user,
            platform.reward_per_share,
        ) {
            Ok(p) => p,
            Err(e) => {
                return Err(e);
            },
        };
        let new_total = match platform.total_staked_nfts.checked_sub(1) {
            Some(v) => v,
            None => {
                return Err(NFTStakingContractError::MathError);
            },
        };
        platform.total_staked_nfts = new_total;
        let new_user_total = match user.total_staked_nfts.checked_sub(1) {
            Some(v) => v,
            None => {
                return Err(NFTStakingContractError::MathError);
            },
        };
        user.total_staked_nfts = new_user_total;
        if let Err(e) = check_metadata_address(
            &ctx.nft_metadata_account.key,
            &ctx.metadata_program_account.key,
            &ctx.user_nft_mint.key,
        ) {
            return Err(e);
        }
        let rarity = match metadata_rarity(&ctx.nft_metadata_account.data) {
            Ok(t) => t,
            Err(e) => {
                return Err(e);
            },
        };
        let new_points = match user.total_nft_points.checked_sub(rarity.points()) {
            Some(v) => v,
            None => {
                return Err(NFTStakingContractError::MathError);
            },
        };
        user.total_nft_points = new_points;
        if let Err(e) = rebase_debt(&mut user, platform.reward_per_share) {
            return Err(e);
        }
        let user_lamports = match ctx.user_account.lamports.checked_add(
            ctx.user_nft_state_account.lamports,
        ) {
            Some(v) => v,
            None => {
                return Err(NFTStakingContractError::MathError);
            },
        };
        Ok(
            UnstakeOutcome {
                platform,
                user_base: user,
                pending_reward,
                transfer_amount,
                user_lamports,
            },
        )
    }

    /// Destroys a persistent record account: zeroes its storage and moves
    /// its whole balance to `dest_account`. After this, a repeated
    /// operation on the record fails as an invalid state account.
    pub fn close_state_account(state_account: &mut AccountView, dest_account: &mut AccountView) -> (r:
        Result<(), NFTStakingContractError>)
        ensures
            match r {
                Ok(_) => {
                    &&& old(dest_account).lamports + old(state_account).lamports <= u64::MAX
                    &&& final(dest_account).lamports == old(dest_account).lamports + old(
                        state_account,
                    ).lamports
                    &&& final(dest_account).key == old(dest_account).key
                    &&& final(dest_account).owner == old(dest_account).owner
                    &&& final(dest_account).is_signer == old(dest_account).is_signer
                    &&& final(dest_account).data == old(dest_account).data
                    &&& final(state_account).lamports == 0
                    &&& final(state_account).data@ == zero_bytes(old(state_account).data@.len())
                    &&& final(state_account).key == old(state_account).key
                    &&& final(state_account).owner == old(state_account).owner
                    &&& final(state_account).is_signer == old(state_account).is_signer
                },
                Err(e) => {
                    &&& old(dest_account).lamports + old(state_account).lamports > u64::MAX
                    &&& e == NFTStakingContractError::MathError
                    &&& *final(state_account) == *old(state_account)
                    &&& *final(dest_account) == *old(dest_account)
                },
            },
    {
        let new_lamports = match dest_account.lamports.checked_add(state_account.lamports) {
            Some(v) => v,
            None => {
                return Err(NFTStakingContractError::MathError);
            },
        };
        dest_account.lamports = new_lamports;
        state_account.lamports = 0;
        let len = state_account.data.len();
        state_account.data = zeroed_buffer(len);
        Ok(())
    }

    /// Realizes and settles the caller's pending reward without changing
    /// stake weight.
    ///
    /// The caller must store back both records and transfer the outcome's
    /// scaled amount from pool custody to the user's reward account.
    pub fn process_claim_reward(ctx: &ClaimAccounts, now: u64, reward_per_step: u64) -> (r: Result<
        ClaimOutcome,
        NFTStakingContractError,
    >)
        ensures
            r == claim_spec(*ctx, now, reward_per_step),
    {
        if let Err(e) = Validator::validate_is_signer(&ctx.user_account) {
            return Err(e);
        }
        if let Err(e) = check_pool_authority(
            &ctx.pda_account.key,
            &ctx.platform_data_account.key,
            &ctx.program_id,
        ) {
            return Err(e);
        }
        if let Err(e) = Validator::validate_token_ata(&ctx.user_reward_ata, &ctx.reward_mint) {
            return Err(e);
        }
        if let Err(e) = Validator::validate_token_owner(&ctx.user_reward_ata, &ctx.user_account) {
            return Err(e);
        }
        if let Err(e) = Validator::validate_token_ata(&ctx.pda_reward_token_ata, &ctx.reward_mint) {
            return Err(e);
        }
        if let Err(e) = Validator::validate_token_owner(
            &ctx.pda_reward_token_ata,
            &ctx.pda_account,
        ) {
            return Err(e);
        }
        if let Err(e) = Validator::validate_state_account(
            &ctx.platform_data_account,
            ctx.program_id,
        ) {
            return Err(e);
        }
        if let Err(e) = Validator::validate_state_account(
            &ctx.user_base_state_account,
            ctx.program_id,
        ) {
            return Err(e);
        }
        let mut platform = match PlatformState::unpack(&ctx.platform_data_account.data) {
            Ok(p) => p,
            Err(e) => {
                return Err(e);
            },
        };
        if let Err(e) = update_pool(&mut platform, now, reward_per_step) {
            return Err(e);
        }
        let mut user = match UserBaseState::unpack(&ctx.user_base_state_account.data) {
            Ok(u) => u,
            Err(e) => {
                return Err(e);
            },
        };
        if let Err(e) = Validator::validate_equality(user.user, ctx.user_account.key) {
            return Err(e);
        }
        if let Err(e) = Validator::validate_equality(user.user_reward_ata, ctx.user_reward_ata.key) {
            return Err(e);
        }
        if let Err(e) = Validator::validate_equality(platform.reward_mint, ctx.reward_mint.key) {
            return Err(e);
        }
        if let Err(e) = Validator::validate_equality(
            platform.reward_token_ata,
            ctx.pda_reward_token_ata.key,
        ) {
            return Err(e);
        }
        let (pending_reward, transfer_amount) = match realize_reward(
            &mut user,
            platform.reward_per_share,
        ) {
            Ok(p) => p,
            Err(e) => {
                return Err(e);
            },
        };
        if let Err(e) = rebase_debt(&mut user, platform.reward_per_share) {
            return Err(e);
        }
        Ok(
            ClaimOutcome {
                platform,
                user_base: user,
                pending_reward,
                transfer_amount,
            },
        )
    }
}

} // verus!
