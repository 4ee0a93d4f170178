use metaplex_token_metadata::state::{Key, MAX_METADATA_LEN};
use nft_staking_contract::account::AccountView;
use nft_staking_contract::codec::{identity_from_bytes, Identity};
use nft_staking_contract::error::NFTStakingContractError;
use nft_staking_contract::instruction::PlatformData;
use nft_staking_contract::processor::{
    ClaimAccounts, InitializeAccounts, Processor, StakeAccounts, UnstakeAccounts,
};
use nft_staking_contract::state::{PlatformState, UserBaseState, UserNFTState};
use solana_program::program_option::COption;
use solana_program::program_pack::Pack;
use solana_program::pubkey::Pubkey;
use spl_token::state::{Account, AccountState, Mint};

// The administrator and reward mint fixed at deployment, decoded from their
// public addresses.
const ADMIN: [u8; 32] = [
    254, 42, 122, 136, 39, 161, 155, 171, 242, 221, 29, 107, 79, 195, 57, 223, 82, 60, 13, 231,
    109, 126, 192, 216, 222, 175, 132, 72, 86, 47, 82, 22,
];
const REWARD_MINT: [u8; 32] = [
    28, 96, 68, 121, 118, 179, 48, 50, 225, 222, 59, 159, 74, 113, 130, 145, 212, 4, 225, 161, 88,
    13, 164, 21, 10, 147, 92, 73, 239, 141, 125, 140,
];

const PROGRAM_ID: [u8; 32] = [77u8; 32];
const PLATFORM_KEY: [u8; 32] = [10u8; 32];
const USER_KEY: [u8; 32] = [1u8; 32];
const REWARD_MINT_ACCOUNT_KEY: [u8; 32] = [40u8; 32];
const ADMIN_REWARD_ATA_KEY: [u8; 32] = [41u8; 32];
const NFT_MINT_KEY: [u8; 32] = [60u8; 32];
const NFT_ATA_KEY: [u8; 32] = [61u8; 32];
const USER_REWARD_ATA_KEY: [u8; 32] = [62u8; 32];
const PDA_REWARD_ATA_KEY: [u8; 32] = [63u8; 32];
const USER_BASE_KEY: [u8; 32] = [64u8; 32];
const METADATA_PROGRAM_KEY: [u8; 32] = [70u8; 32];

// One accrual step of 10 s emits (10_000_000 / 100) * 10 * 100 fixed-point
// units: the emission budget over the window, per step, scaled by 100.
const REWARD_PER_STEP: u64 = 100_000_000;

fn ident(bytes: [u8; 32]) -> Identity {
    identity_from_bytes(&bytes.to_vec())
}

fn pda_key() -> [u8; 32] {
    Pubkey::find_program_address(
        &["nft_staking_contract".as_bytes(), &PLATFORM_KEY],
        &Pubkey::new_from_array(PROGRAM_ID),
    )
    .0
    .to_bytes()
}

fn metadata_key() -> [u8; 32] {
    Pubkey::find_program_address(
        &["metadata".as_bytes(), &METADATA_PROGRAM_KEY, &NFT_MINT_KEY],
        &Pubkey::new_from_array(METADATA_PROGRAM_KEY),
    )
    .0
    .to_bytes()
}

fn account(key: [u8; 32], owner: [u8; 32], is_signer: bool, data: Vec<u8>) -> AccountView {
    AccountView { key: ident(key), owner: ident(owner), is_signer, lamports: 0, data }
}

fn token_account_image(mint: [u8; 32], owner: [u8; 32], amount: u64) -> Vec<u8> {
    let acc = Account {
        mint: Pubkey::new_from_array(mint),
        owner: Pubkey::new_from_array(owner),
        amount,
        delegate: COption::None,
        state: AccountState::Initialized,
        is_native: COption::None,
        delegated_amount: 0,
        close_authority: COption::None,
    };
    let mut buf = vec![0u8; Account::LEN];
    Account::pack(acc, &mut buf).unwrap();
    buf
}

fn mint_image(decimals: u8) -> Vec<u8> {
    let m = Mint {
        mint_authority: COption::None,
        supply: 1000,
        decimals,
        is_initialized: true,
        freeze_authority: COption::None,
    };
    let mut buf = vec![0u8; Mint::LEN];
    Mint::pack(m, &mut buf).unwrap();
    buf
}

fn borsh_string(out: &mut Vec<u8>, s: &str) {
    out.extend_from_slice(&(s.len() as u32).to_le_bytes());
    out.extend_from_slice(s.as_bytes());
}

fn metadata_image(name: &str) -> Vec<u8> {
    let mut out: Vec<u8> = Vec::new();
    out.push(Key::MetadataV1 as u8);
    out.extend_from_slice(&[7u8; 32]);
    out.extend_from_slice(&[8u8; 32]);
    borsh_string(&mut out, name);
    borsh_string(&mut out, "DGN");
    borsh_string(&mut out, "https://example.invalid/dgn.json");
    out.extend_from_slice(&500u16.to_le_bytes());
    out.push(0);
    out.push(0);
    out.push(1);
    out.push(0);
    out.resize(MAX_METADATA_LEN, 0);
    out
}

fn spl_owned(key: [u8; 32], data: Vec<u8>) -> AccountView {
    account(key, spl_token::id().to_bytes(), false, data)
}

fn initialize_accounts() -> InitializeAccounts {
    InitializeAccounts {
        program_id: ident(PROGRAM_ID),
        admin_account: account(ADMIN, [0u8; 32], true, Vec::new()),
        platform_data_account: account(PLATFORM_KEY, PROGRAM_ID, false, Vec::new()),
        reward_mint: account(REWARD_MINT_ACCOUNT_KEY, [0u8; 32], false, mint_image(8)),
        admin_reward_token_ata: spl_owned(
            ADMIN_REWARD_ATA_KEY,
            token_account_image(REWARD_MINT, ADMIN, 1 << 60),
        ),
        pda_reward_token_ata: spl_owned(
            PDA_REWARD_ATA_KEY,
            token_account_image(REWARD_MINT, pda_key(), 0),
        ),
        pda_account: account(pda_key(), [0u8; 32], false, Vec::new()),
    }
}

fn platform_account_with(platform: &PlatformState) -> AccountView {
    let mut data: Vec<u8> = Vec::new();
    platform.pack_into_slice(&mut data);
    account(PLATFORM_KEY, PROGRAM_ID, false, data)
}

fn user_base_account_with(user: &UserBaseState) -> AccountView {
    let mut data: Vec<u8> = Vec::new();
    user.pack_into_slice(&mut data);
    account(USER_BASE_KEY, PROGRAM_ID, false, data)
}

fn stake_accounts(platform: &PlatformState, user_base: Option<&UserBaseState>) -> StakeAccounts {
    StakeAccounts {
        program_id: ident(PROGRAM_ID),
        user_account: account(USER_KEY, [0u8; 32], true, Vec::new()),
        admin_account: account(ADMIN, [0u8; 32], true, Vec::new()),
        platform_data_account: platform_account_with(platform),
        user_base_state_account: match user_base {
            Some(u) => user_base_account_with(u),
            None => account(USER_BASE_KEY, PROGRAM_ID, false, Vec::new()),
        },
        user_nft_ata: spl_owned(NFT_ATA_KEY, token_account_image(NFT_MINT_KEY, USER_KEY, 1)),
        user_nft_mint: account(NFT_MINT_KEY, [0u8; 32], false, mint_image(0)),
        user_reward_ata: spl_owned(
            USER_REWARD_ATA_KEY,
            token_account_image(REWARD_MINT, USER_KEY, 0),
        ),
        pda_account: account(pda_key(), [0u8; 32], false, Vec::new()),
        nft_metadata_account: account(metadata_key(), [0u8; 32], false, metadata_image("Degen CO")),
        metadata_program_account: account(METADATA_PROGRAM_KEY, [0u8; 32], false, Vec::new()),
    }
}

fn claim_accounts(platform: &PlatformState, user_base: &UserBaseState) -> ClaimAccounts {
    ClaimAccounts {
        program_id: ident(PROGRAM_ID),
        user_account: account(USER_KEY, [0u8; 32], true, Vec::new()),
        platform_data_account: platform_account_with(platform),
        user_base_state_account: user_base_account_with(user_base),
        reward_mint: account(REWARD_MINT_ACCOUNT_KEY, [0u8; 32], false, mint_image(8)),
        user_reward_ata: spl_owned(
            USER_REWARD_ATA_KEY,
            token_account_image(REWARD_MINT, USER_KEY, 0),
        ),
        pda_reward_token_ata: spl_owned(
            PDA_REWARD_ATA_KEY,
            token_account_image(REWARD_MINT, pda_key(), 1 << 60),
        ),
        pda_account: account(pda_key(), [0u8; 32], false, Vec::new()),
    }
}

fn unstake_accounts(
    platform: &PlatformState,
    user_base: &UserBaseState,
    nft_record: &UserNFTState,
) -> UnstakeAccounts {
    let mut nft_data: Vec<u8> = Vec::new();
    nft_record.pack_into_slice(&mut nft_data);
    let mut nft_state_account = account([65u8; 32], PROGRAM_ID, false, nft_data);
    nft_state_account.lamports = 2_000_000;
    let mut user_account = account(USER_KEY, [0u8; 32], true, Vec::new());
    user_account.lamports = 5_000_000;
    UnstakeAccounts {
        program_id: ident(PROGRAM_ID),
        user_account,
        platform_data_account: platform_account_with(platform),
        user_base_state_account: user_base_account_with(user_base),
        user_nft_state_account: nft_state_account,
        user_nft_ata: spl_owned(NFT_ATA_KEY, token_account_image(NFT_MINT_KEY, pda_key(), 1)),
        user_nft_mint: account(NFT_MINT_KEY, [0u8; 32], false, mint_image(0)),
        reward_mint: account(REWARD_MINT_ACCOUNT_KEY, [0u8; 32], false, mint_image(8)),
        user_reward_ata: spl_owned(
            USER_REWARD_ATA_KEY,
            token_account_image(REWARD_MINT, USER_KEY, 0),
        ),
        pda_reward_token_ata: spl_owned(
            PDA_REWARD_ATA_KEY,
            token_account_image(REWARD_MINT, pda_key(), 1 << 60),
        ),
        pda_account: account(pda_key(), [0u8; 32], false, Vec::new()),
        nft_metadata_account: account(metadata_key(), [0u8; 32], false, metadata_image("Degen CO")),
        metadata_program_account: account(METADATA_PROGRAM_KEY, [0u8; 32], false, Vec::new()),
    }
}

fn bootstrap() -> PlatformState {
    let outcome = Processor::process_initialize_platform(
        &initialize_accounts(),
        PlatformData { percent: 1, distribution: 100, accumulation: 10 },
    )
    .unwrap();
    outcome.platform
}

#[test]
fn bootstrap_builds_the_pool_record() {
    let ctx = initialize_accounts();
    let outcome = Processor::process_initialize_platform(
        &ctx,
        PlatformData { percent: 1, distribution: 100, accumulation: 10 },
    )
    .unwrap();
    let p = outcome.platform;
    assert!(p.is_initialized);
    assert_eq!(p.coin_emission_percentage, 1);
    assert_eq!(p.coin_emission_distribution_in_sec, 100);
    assert_eq!(p.reward_accumulation_in_sec, 10);
    assert_eq!(p.total_coin_emission, 10_000_000);
    assert_eq!(p.total_staked_nfts, 0);
    assert_eq!(p.reward_per_share, 0);
    assert_eq!(p.last_updated, 0);
    assert!(p.reward_mint == ident(REWARD_MINT_ACCOUNT_KEY));
    assert!(p.reward_token_ata == ident(PDA_REWARD_ATA_KEY));
    assert!(p.pda_account == ident(pda_key()));
    assert_eq!(outcome.funding_amount, 100_000_000_000_000_000);
}

#[test]
fn bootstrap_rejects_non_admin_and_bad_authority() {
    let mut unsigned = initialize_accounts();
    unsigned.admin_account.is_signer = false;
    assert!(matches!(
        Processor::process_initialize_platform(
            &unsigned,
            PlatformData { percent: 1, distribution: 100, accumulation: 10 },
        ),
        Err(NFTStakingContractError::NotAdmin)
    ));

    let mut wrong_pda = initialize_accounts();
    wrong_pda.pda_account.key = ident([99u8; 32]);
    wrong_pda.pda_reward_token_ata.data = token_account_image(REWARD_MINT, [99u8; 32], 0);
    assert!(matches!(
        Processor::process_initialize_platform(
            &wrong_pda,
            PlatformData { percent: 1, distribution: 100, accumulation: 10 },
        ),
        Err(NFTStakingContractError::EqualityMismatch)
    ));
}

#[test]
fn bootstrap_must_not_run_twice() {
    let platform = bootstrap();
    let mut again = initialize_accounts();
    again.platform_data_account = platform_account_with(&platform);
    assert!(matches!(
        Processor::process_initialize_platform(
            &again,
            PlatformData { percent: 1, distribution: 100, accumulation: 10 },
        ),
        Err(NFTStakingContractError::InvalidStateAccount)
    ));
}

#[test]
fn first_stake_creates_the_participant_and_item_records() {
    let platform = bootstrap();
    let ctx = stake_accounts(&platform, None);
    let outcome = Processor::process_stake_nft(&ctx, 1000, REWARD_PER_STEP).unwrap();

    assert_eq!(outcome.platform.total_staked_nfts, 1);
    assert_eq!(outcome.platform.reward_per_share, 0);
    assert_eq!(outcome.platform.last_updated, 1000);
    assert!(outcome.user_base_created);
    // The fixture's reward token account already exists, so it is not to be
    // created.
    assert!(!outcome.user_reward_ata_created);
    assert_eq!(outcome.item_index, 0);
    assert_eq!(outcome.pending_reward, 0);
    assert_eq!(outcome.transfer_amount, 0);

    let u = outcome.user_base;
    assert!(u.is_initialized);
    assert!(u.user == ident(USER_KEY));
    assert!(u.user_reward_ata == ident(USER_REWARD_ATA_KEY));
    assert_eq!(u.total_staked_nfts, 1);
    assert_eq!(u.total_nft_points, 10);
    assert_eq!(u.total_reward_claimed, 0);
    assert_eq!(u.reward_debt, 0);

    let n = outcome.user_nft;
    assert!(n.is_initialized);
    assert!(n.user == ident(USER_KEY));
    assert!(n.user_base_state == ident(USER_BASE_KEY));
    assert!(n.nft_ata == ident(NFT_ATA_KEY));
    assert!(n.nft_mint == ident(NFT_MINT_KEY));
}

#[test]
fn conservation_over_one_full_step() {
    // A single participant with one common item, alone in the pool for
    // exactly one accrual step, claims the whole step's emission at the
    // common tier's share; an immediate second claim yields exactly zero.
    let platform = bootstrap();
    let staked = Processor::process_stake_nft(&stake_accounts(&platform, None), 1000, REWARD_PER_STEP)
        .unwrap();

    let ctx = claim_accounts(&staked.platform, &staked.user_base);
    let claimed = Processor::process_claim_reward(&ctx, 1010, REWARD_PER_STEP).unwrap();
    assert_eq!(claimed.platform.reward_per_share, REWARD_PER_STEP);
    assert_eq!(claimed.platform.last_updated, 1010);
    assert_eq!(claimed.pending_reward, REWARD_PER_STEP * 10 / 100);
    assert_eq!(claimed.pending_reward, 10_000_000);
    assert_eq!(claimed.transfer_amount, 10_000_000 * 1_000_000);
    assert_eq!(claimed.user_base.total_reward_claimed, 10_000_000);
    assert_eq!(claimed.user_base.reward_debt, 10_000_000);

    let again = claim_accounts(&claimed.platform, &claimed.user_base);
    let second = Processor::process_claim_reward(&again, 1010, REWARD_PER_STEP).unwrap();
    assert_eq!(second.pending_reward, 0);
    assert_eq!(second.transfer_amount, 0);
    assert!(second.platform == claimed.platform);
    assert!(second.user_base == claimed.user_base);
}

#[test]
fn unstake_restores_custody_and_destroys_the_item_record() {
    let platform = bootstrap();
    let staked = Processor::process_stake_nft(&stake_accounts(&platform, None), 1000, REWARD_PER_STEP)
        .unwrap();

    let ctx = unstake_accounts(&staked.platform, &staked.user_base, &staked.user_nft);
    let outcome = Processor::process_unstake_nft(&ctx, 1010, REWARD_PER_STEP).unwrap();
    assert_eq!(outcome.platform.total_staked_nfts, 0);
    assert_eq!(outcome.user_base.total_staked_nfts, 0);
    assert_eq!(outcome.user_base.total_nft_points, 0);
    assert_eq!(outcome.pending_reward, 10_000_000);
    assert_eq!(outcome.transfer_amount, 10_000_000 * 1_000_000);
    assert_eq!(outcome.user_lamports, 7_000_000);

    // Destroy the record as the outcome demands: storage zeroed, balance
    // reclaimed by the user.
    let mut state_account = ctx.user_nft_state_account.clone();
    let mut dest_account = ctx.user_account.clone();
    Processor::close_state_account(&mut state_account, &mut dest_account).unwrap();
    assert_eq!(dest_account.lamports, 7_000_000);
    assert_eq!(state_account.lamports, 0);
    assert!(state_account.data.iter().all(|b| *b == 0));
    assert_eq!(state_account.data.len(), ctx.user_nft_state_account.data.len());

    // A repeated unstake of the destroyed record fails as an invalid state
    // account.
    let mut repeat = unstake_accounts(&outcome.platform, &outcome.user_base, &staked.user_nft);
    repeat.user_nft_state_account.data = state_account.data.clone();
    repeat.user_nft_state_account.lamports = 0;
    assert!(matches!(
        Processor::process_unstake_nft(&repeat, 1010, REWARD_PER_STEP),
        Err(NFTStakingContractError::InvalidStateAccount)
    ));
}

#[test]
fn stake_marks_a_missing_reward_account_for_creation() {
    let platform = bootstrap();
    let mut ctx = stake_accounts(&platform, None);
    ctx.user_reward_ata.data = Vec::new();
    let outcome = Processor::process_stake_nft(&ctx, 1000, REWARD_PER_STEP).unwrap();
    assert!(outcome.user_reward_ata_created);
}

#[test]
fn claim_rejects_a_record_bound_to_another_user() {
    let platform = bootstrap();
    let staked = Processor::process_stake_nft(&stake_accounts(&platform, None), 1000, REWARD_PER_STEP)
        .unwrap();
    let mut other = staked.user_base;
    other.user = ident([123u8; 32]);
    let ctx = claim_accounts(&staked.platform, &other);
    assert!(matches!(
        Processor::process_claim_reward(&ctx, 1010, REWARD_PER_STEP),
        Err(NFTStakingContractError::EqualityMismatch)
    ));
}

#[test]
fn unstake_rejects_an_item_record_of_another_item() {
    let platform = bootstrap();
    let staked = Processor::process_stake_nft(&stake_accounts(&platform, None), 1000, REWARD_PER_STEP)
        .unwrap();
    let mut other_item = staked.user_nft;
    other_item.nft_ata = ident([124u8; 32]);
    let ctx = unstake_accounts(&staked.platform, &staked.user_base, &other_item);
    assert!(matches!(
        Processor::process_unstake_nft(&ctx, 1010, REWARD_PER_STEP),
        Err(NFTStakingContractError::EqualityMismatch)
    ));
}

#[test]
fn stake_rejects_unsigned_and_misbound_requests() {
    let platform = bootstrap();

    let mut unsigned = stake_accounts(&platform, None);
    unsigned.user_account.is_signer = false;
    assert!(matches!(
        Processor::process_stake_nft(&unsigned, 1000, REWARD_PER_STEP),
        Err(NFTStakingContractError::UserNotSigner)
    ));

    let mut foreign_platform = stake_accounts(&platform, None);
    foreign_platform.platform_data_account.owner = ident([99u8; 32]);
    assert!(matches!(
        Processor::process_stake_nft(&foreign_platform, 1000, REWARD_PER_STEP),
        Err(NFTStakingContractError::InvalidStateAccount)
    ));

    let mut wrong_metadata = stake_accounts(&platform, None);
    wrong_metadata.nft_metadata_account.key = ident([98u8; 32]);
    assert!(matches!(
        Processor::process_stake_nft(&wrong_metadata, 1000, REWARD_PER_STEP),
        Err(NFTStakingContractError::InvalidNFTMetadata)
    ));

    let mut unknown_tier = stake_accounts(&platform, None);
    unknown_tier.nft_metadata_account.data = metadata_image("Degen ZZ");
    assert!(matches!(
        Processor::process_stake_nft(&unknown_tier, 1000, REWARD_PER_STEP),
        Err(NFTStakingContractError::InvalidNFTMetadata)
    ));
}

#[test]
fn claim_with_clock_behind_the_pool_fails_whole() {
    let platform = bootstrap();
    let staked = Processor::process_stake_nft(&stake_accounts(&platform, None), 1000, REWARD_PER_STEP)
        .unwrap();
    // The pool's clock stands at 1000; a claim timestamped earlier is a
    // math error and must change nothing.
    let ctx = claim_accounts(&staked.platform, &staked.user_base);
    assert!(matches!(
        Processor::process_claim_reward(&ctx, 999, REWARD_PER_STEP),
        Err(NFTStakingContractError::MathError)
    ));
}

#[test]
fn rare_epic_and_legendary_points_accumulate() {
    let platform = bootstrap();
    let mut ctx = stake_accounts(&platform, None);
    ctx.nft_metadata_account.data = metadata_image("Degen LE");
    let outcome = Processor::process_stake_nft(&ctx, 1000, REWARD_PER_STEP).unwrap();
    assert_eq!(outcome.user_base.total_nft_points, 100);

    let mut second = stake_accounts(&outcome.platform, Some(&outcome.user_base));
    second.nft_metadata_account.data = metadata_image("Degen EP");
    let outcome2 = Processor::process_stake_nft(&second, 1000, REWARD_PER_STEP).unwrap();
    assert_eq!(outcome2.user_base.total_nft_points, 150);
    assert_eq!(outcome2.user_base.total_staked_nfts, 2);
    assert_eq!(outcome2.platform.total_staked_nfts, 2);
    assert_eq!(outcome2.item_index, 1);
    assert!(!outcome2.user_base_created);
}

#[test]
fn point_weighted_fairness_between_two_participants() {
    // Two one-item participants, one common (10 points) and one legendary
    // (100 points), share the same accrual interval and earn in exactly
    // 1:10 proportion.
    let mut platform = bootstrap();
    platform.total_staked_nfts = 2;
    platform.last_updated = 1000;

    let common = UserBaseState {
        is_initialized: true,
        user: ident(USER_KEY),
        user_reward_ata: ident(USER_REWARD_ATA_KEY),
        total_staked_nfts: 1,
        total_nft_points: 10,
        total_reward_claimed: 0,
        reward_debt: 0,
    };
    let legendary = UserBaseState { total_nft_points: 100, ..common };

    let ctx_common = claim_accounts(&platform, &common);
    let claimed_common = Processor::process_claim_reward(&ctx_common, 1010, REWARD_PER_STEP).unwrap();

    let ctx_legendary = claim_accounts(&platform, &legendary);
    let claimed_legendary =
        Processor::process_claim_reward(&ctx_legendary, 1010, REWARD_PER_STEP).unwrap();

    // Each of the two staked items accrues half the step's emission.
    let per_share: u64 = REWARD_PER_STEP / 2;
    assert_eq!(claimed_common.pending_reward, per_share * 10 / 100);
    assert_eq!(claimed_legendary.pending_reward, per_share * 100 / 100);
    assert_eq!(claimed_legendary.pending_reward, 10 * claimed_common.pending_reward);
}
