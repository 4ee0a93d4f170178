use nft_staking_contract::codec::Identity;
use nft_staking_contract::engine::{realize_reward, rebase_debt, update_pool};
use nft_staking_contract::error::NFTStakingContractError;
use nft_staking_contract::state::{PlatformState, UserBaseState};

fn ident(n: u64) -> Identity {
    Identity { w0: n, w1: 0, w2: 0, w3: 0 }
}

fn pool(total_staked: u64, reward_per_share: u64, last_updated: u64) -> PlatformState {
    PlatformState {
        is_initialized: true,
        coin_emission_percentage: 1,
        coin_emission_distribution_in_sec: 100,
        reward_accumulation_in_sec: 10,
        total_coin_emission: 10000000,
        total_staked_nfts: total_staked,
        reward_per_share,
        last_updated,
        reward_mint: ident(1),
        reward_token_ata: ident(2),
        pda_account: ident(3),
    }
}

fn participant(count: u64, points: u64, claimed: u64, debt: u64) -> UserBaseState {
    UserBaseState {
        is_initialized: true,
        user: ident(10),
        user_reward_ata: ident(11),
        total_staked_nfts: count,
        total_nft_points: points,
        total_reward_claimed: claimed,
        reward_debt: debt,
    }
}

#[test]
fn zero_stake_accrual_resets_accumulator() {
    // With nothing staked the idle period is discarded: the accumulator
    // resets and the clock advances to now.
    let mut p = pool(0, 55555, 1000);
    update_pool(&mut p, 5000, 123456).unwrap();
    assert_eq!(p.reward_per_share, 0);
    assert_eq!(p.last_updated, 5000);
}

#[test]
fn accrual_adds_reward_per_step_per_share() {
    // 3 whole steps of 10 s elapsed; each emits 100_000_000 split over 2
    // staked items.
    let mut p = pool(2, 7, 1000);
    update_pool(&mut p, 1035, 100_000_000).unwrap();
    assert_eq!(p.reward_per_share, 7 + 3 * 100_000_000 / 2);
    assert_eq!(p.last_updated, 1035);
}

#[test]
fn accrual_carries_partial_steps_forward() {
    // 9 s elapsed is less than one 10 s step: nothing accrues and the clock
    // does not advance, so the partial step still counts next time.
    let mut p = pool(2, 7, 1000);
    update_pool(&mut p, 1009, 100_000_000).unwrap();
    assert_eq!(p.reward_per_share, 7);
    assert_eq!(p.last_updated, 1000);
}

#[test]
fn accrual_at_same_timestamp_is_a_no_op() {
    let mut p = pool(3, 424242, 1000);
    let before = p;
    update_pool(&mut p, 1000, 100_000_000).unwrap();
    assert!(p == before);
}

#[test]
fn accrual_never_decreases_accumulator_while_staked() {
    let mut p = pool(5, 1000, 0);
    let mut last: u64 = p.reward_per_share;
    for now in [3u64, 10, 11, 25, 25, 1000] {
        update_pool(&mut p, now, 999).unwrap();
        assert!(p.reward_per_share >= last);
        last = p.reward_per_share;
    }
}

#[test]
fn accrual_overflow_fails_and_leaves_pool_unchanged() {
    // One elapsed step of u64::MAX reward overflows the accumulator sum.
    let mut p = pool(1, 10, 1000);
    let before = p;
    let r = update_pool(&mut p, 1010, u64::MAX);
    assert!(matches!(r, Err(NFTStakingContractError::MathError)));
    assert!(p == before);
}

#[test]
fn accrual_with_clock_before_last_update_fails() {
    let mut p = pool(1, 10, 1000);
    let before = p;
    let r = update_pool(&mut p, 999, 5);
    assert!(matches!(r, Err(NFTStakingContractError::MathError)));
    assert!(p == before);
}

#[test]
fn accrual_with_zero_step_length_fails() {
    let mut p = pool(1, 10, 1000);
    p.reward_accumulation_in_sec = 0;
    let before = p;
    let r = update_pool(&mut p, 2000, 5);
    assert!(matches!(r, Err(NFTStakingContractError::MathError)));
    assert!(p == before);
}

#[test]
fn realize_pays_share_minus_debt() {
    // earned = count * rps * points / (100 * count) = rps * points / 100.
    let mut u = participant(2, 30, 100, 40);
    let (pending, transfer) = realize_reward(&mut u, 1000).unwrap();
    assert_eq!(pending, 1000 * 30 / 100 - 40);
    assert_eq!(pending, 260);
    assert_eq!(transfer, 260 * 1_000_000);
    assert_eq!(u.total_reward_claimed, 360);
}

#[test]
fn realize_with_nothing_staked_is_a_no_op() {
    let mut u = participant(0, 0, 77, 12345);
    let before = u;
    let (pending, transfer) = realize_reward(&mut u, 999999).unwrap();
    assert_eq!(pending, 0);
    assert_eq!(transfer, 0);
    assert!(u == before);
}

#[test]
fn realize_of_exactly_zero_performs_no_transfer() {
    let mut u = participant(1, 10, 500, 100);
    let before = u;
    let (pending, transfer) = realize_reward(&mut u, 1000).unwrap();
    assert_eq!(pending, 0);
    assert_eq!(transfer, 0);
    assert!(u == before);
}

#[test]
fn realize_overflow_fails_and_leaves_participant_unchanged() {
    // count * rps overflows.
    let mut u = participant(2, 10, 0, 0);
    let before = u;
    let r = realize_reward(&mut u, u64::MAX);
    assert!(matches!(r, Err(NFTStakingContractError::MathError)));
    assert!(u == before);

    // The scaled transfer amount overflows.
    let mut u2 = participant(1, 100, 0, 0);
    let before2 = u2;
    let r2 = realize_reward(&mut u2, u64::MAX / 100);
    assert!(matches!(r2, Err(NFTStakingContractError::MathError)));
    assert!(u2 == before2);
}

#[test]
fn realize_with_debt_above_share_fails() {
    // The accumulator reset to zero while the participant still had debt.
    let mut u = participant(1, 10, 0, 50);
    let before = u;
    let r = realize_reward(&mut u, 0);
    assert!(matches!(r, Err(NFTStakingContractError::MathError)));
    assert!(u == before);
}

#[test]
fn rebase_sets_debt_to_current_share() {
    let mut u = participant(3, 70, 0, 1);
    rebase_debt(&mut u, 2000).unwrap();
    assert_eq!(u.reward_debt, 2000 * 70 / 100);
}

#[test]
fn rebase_with_nothing_staked_keeps_old_debt() {
    let mut u = participant(0, 0, 0, 4242);
    rebase_debt(&mut u, 99999).unwrap();
    assert_eq!(u.reward_debt, 4242);
}

#[test]
fn debt_rebase_exactness_concrete() {
    // Realize, mutate nothing, rebase: realizing again immediately yields
    // exactly zero.
    let mut u = participant(2, 130, 0, 0);
    let rps: u64 = 12347;
    realize_reward(&mut u, rps).unwrap();
    rebase_debt(&mut u, rps).unwrap();
    let snapshot = u;
    let (pending, transfer) = realize_reward(&mut u, rps).unwrap();
    assert_eq!(pending, 0);
    assert_eq!(transfer, 0);
    assert!(u == snapshot);
}

#[test]
fn point_weighted_fairness_concrete() {
    // A ten-point and a hundred-point participant over the same accumulator
    // interval earn in exactly 1:10 proportion.
    let rps0 = 1000u64;
    let rps1 = 250000u64;
    let mut a = participant(1, 10, 0, 0);
    let mut b = participant(1, 100, 0, 0);
    rebase_debt(&mut a, rps0).unwrap();
    rebase_debt(&mut b, rps0).unwrap();
    let (pa, _) = realize_reward(&mut a, rps1).unwrap();
    let (pb, _) = realize_reward(&mut b, rps1).unwrap();
    assert_eq!(pa, (rps1 - rps0) / 10);
    assert_eq!(pb, rps1 - rps0);
    assert_eq!(pb, 10 * pa);
}
