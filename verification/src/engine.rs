//! The pool accrual engine and the settlement algorithm.
//!
//! Every mutating operation first brings the pool's global accumulator
//! current, then realizes the caller's pending reward against the old debt
//! baseline, then mutates stake weight or points, then recomputes the
//! baseline. All arithmetic is overflow-checked: any overflow, underflow or
//! division by zero fails the whole operation with a math error.

use vstd::prelude::*;
use vstd::arithmetic::div_mod::{
    lemma_div_pos_is_pos, lemma_fundamental_div_mod, lemma_fundamental_div_mod_converse,
    lemma_mod_bound,
};
use crate::error::NFTStakingContractError;
use crate::state::{PlatformState, UserBaseState};

verus! {

/// The factor by which a realized reward is scaled before transfer, turning
/// the 2-decimal fixed-point amount into the reward token's 8-decimal base
/// units.
pub const REWARD_SCALE_FACTOR: u64 = 1000000;

/// What bringing the accumulator current does to the pool record.
///
/// With nothing staked, the accumulator resets to zero and the clock
/// advances: idle periods emit nothing, by design. Otherwise the elapsed
/// whole accrual steps each add `reward_per_step / total_staked_nfts` to the
/// accumulator, and the clock advances only when at least one step elapsed,
/// so partial steps carry forward.
pub open spec fn accrue_spec(p: PlatformState, now: u64, reward_per_step: u64) -> Result<
    PlatformState,
    NFTStakingContractError,
> {
    if p.total_staked_nfts == 0 {
        Ok(
            PlatformState {
                reward_per_share: 0,
                last_updated: now,
                ..p
            },
        )
    } else if now < p.last_updated {
        Err(NFTStakingContractError::MathError)
    } else if p.reward_accumulation_in_sec == 0 {
        Err(NFTStakingContractError::MathError)
    } else {
        let steps = (now - p.last_updated) as int / p.reward_accumulation_in_sec as int;
        if steps * reward_per_step > u64::MAX {
            Err(NFTStakingContractError::MathError)
        } else {
            let add = steps * reward_per_step / p.total_staked_nfts as int;
            if p.reward_per_share + add > u64::MAX {
                Err(NFTStakingContractError::MathError)
            } else {
                Ok(
                    PlatformState {
                        reward_per_share: (p.reward_per_share + add) as u64,
                        last_updated: if steps > 0 {
                            now
                        } else {
                            p.last_updated
                        },
                        ..p
                    },
                )
            }
        }
    }
}

/// Brings the pool accumulator and clock current.
///
/// `reward_per_step` is the floored fixed-point reward one accrual step
/// emits; the caller computes it from the pool's emission rate. On any error
/// the record is left unchanged.
pub fn update_pool(platform: &mut PlatformState, now: u64, reward_per_step: u64) -> (r: Result<
    (),
    NFTStakingContractError,
>)
    ensures
        match r {
            Ok(_) => accrue_spec(*old(platform), now, reward_per_step) == Ok::<
                PlatformState,
                NFTStakingContractError,
            >(*final(platform)),
            Err(e) => accrue_spec(*old(platform), now, reward_per_step) == Err::<
                PlatformState,
                NFTStakingContractError,
            >(e) && *final(platform) == *old(platform),
        },
{
    if platform.total_staked_nfts == 0 {
        platform.reward_per_share = 0;
        platform.last_updated = now;
        return Ok(());
    }
    let interval = match now.checked_sub(platform.last_updated) {
        Some(v) => v,
        None => {
            return Err(NFTStakingContractError::MathError);
        },
    };
    let steps = match interval.checked_div(platform.reward_accumulation_in_sec) {
        Some(v) => v,
        None => {
            return Err(NFTStakingContractError::MathError);
        },
    };
    let reward_generated = match steps.checked_mul(reward_per_step) {
        Some(v) => v,
        None => {
            return Err(NFTStakingContractError::MathError);
        },
    };
    let add = reward_generated / platform.total_staked_nfts;
    let new_reward_per_share = match platform.reward_per_share.checked_add(add) {
        Some(v) => v,
        None => {
            return Err(NFTStakingContractError::MathError);
        },
    };
    platform.reward_per_share = new_reward_per_share;
    if steps > 0 {
        platform.last_updated = now;
    }
    Ok(())
}

/// What realizing a participant's pending reward does.
///
/// Yields the updated record, the raw fixed-point pending amount, and the
/// scaled transfer amount. With no staked items nothing is owed; a pending
/// amount of exactly zero performs no transfer and no mutation.
pub open spec fn realize_spec(u: UserBaseState, reward_per_share: u64) -> Result<
    (UserBaseState, u64, u64),
    NFTStakingContractError,
> {
    if 100 * u.total_staked_nfts > u64::MAX {
        Err(NFTStakingContractError::MathError)
    } else if u.total_staked_nfts == 0 {
        Ok((u, 0, 0))
    } else if u.total_staked_nfts * reward_per_share > u64::MAX {
        Err(NFTStakingContractError::MathError)
    } else if u.total_staked_nfts * reward_per_share * u.total_nft_points > u64::MAX {
        Err(NFTStakingContractError::MathError)
    } else {
        let earned = u.total_staked_nfts * reward_per_share * u.total_nft_points / (100
            * u.total_staked_nfts);
        if earned < u.reward_debt {
            Err(NFTStakingContractError::MathError)
        } else {
            let pending = earned - u.reward_debt;
            if pending > 0 {
                if pending * REWARD_SCALE_FACTOR > u64::MAX {
                    Err(NFTStakingContractError::MathError)
                } else if u.total_reward_claimed + pending > u64::MAX {
                    Err(NFTStakingContractError::MathError)
                } else {
                    Ok(
                        (
                            UserBaseState {
                                total_reward_claimed: (u.total_reward_claimed + pending) as u64,
                                ..u
                            },
                            pending as u64,
                            (pending * REWARD_SCALE_FACTOR) as u64,
                        ),
                    )
                }
            } else {
                Ok((u, 0, 0))
            }
        }
    }
}

/// Realizes the participant's pending reward against the current
/// accumulator.
///
/// Returns the raw fixed-point pending amount and the scaled amount the
/// caller must transfer from pool custody (zero means no transfer). On any
/// error the record is left unchanged.
pub fn realize_reward(user: &mut UserBaseState, reward_per_share: u64) -> (r: Result<
    (u64, u64),
    NFTStakingContractError,
>)
    ensures
        match r {
            Ok(p) => realize_spec(*old(user), reward_per_share) == Ok::<
                (UserBaseState, u64, u64),
                NFTStakingContractError,
            >((*final(user), p.0, p.1)),
            Err(e) => realize_spec(*old(user), reward_per_share) == Err::<
                (UserBaseState, u64, u64),
                NFTStakingContractError,
            >(e) && *final(user) == *old(user),
        },
{
    let dividend = match 100u64.checked_mul(user.total_staked_nfts) {
        Some(v) => v,
        None => {
            return Err(NFTStakingContractError::MathError);
        },
    };
    if user.total_staked_nfts == 0 {
        return Ok((0, 0));
    }
    let m1 = match user.total_staked_nfts.checked_mul(reward_per_share) {
        Some(v) => v,
        None => {
            return Err(NFTStakingContractError::MathError);
        },
    };
    let m2 = match m1.checked_mul(user.total_nft_points) {
        Some(v) => v,
        None => {
            return Err(NFTStakingContractError::MathError);
        },
    };
    let earned = m2 / dividend;
    let pending = match earned.checked_sub(user.reward_debt) {
        Some(v) => v,
        None => {
            return Err(NFTStakingContractError::MathError);
        },
    };
    if pending > 0 {
        let transfer_amount = match pending.checked_mul(REWARD_SCALE_FACTOR) {
            Some(v) => v,
            None => {
                return Err(NFTStakingContractError::MathError);
            },
        };
        let new_claimed = match user.total_reward_claimed.checked_add(pending) {
            Some(v) => v,
            None => {
                return Err(NFTStakingContractError::MathError);
            },
        };
        user.total_reward_claimed = new_claimed;
        Ok((pending, transfer_amount))
    } else {
        Ok((0, 0))
    }
}

/// What recomputing the debt baseline does.
///
/// With staked items, the debt becomes exactly the share of the accumulator
/// the current point total accounts for; with none, the record is unchanged
/// and the stale debt is harmless, because realization is a no-op until a
/// later stake passes through a rebase again.
pub open spec fn rebase_spec(u: UserBaseState, reward_per_share: u64) -> Result<
    UserBaseState,
    NFTStakingContractError,
> {
    if 100 * u.total_staked_nfts > u64::MAX {
        Err(NFTStakingContractError::MathError)
    } else if u.total_staked_nfts == 0 {
        Ok(u)
    } else if u.total_staked_nfts * reward_per_share > u64::MAX {
        Err(NFTStakingContractError::MathError)
    } else if u.total_staked_nfts * reward_per_share * u.total_nft_points > u64::MAX {
        Err(NFTStakingContractError::MathError)
    } else {
        Ok(
            UserBaseState {
                reward_debt: (u.total_staked_nfts * reward_per_share * u.total_nft_points / (100
                    * u.total_staked_nfts)) as u64,
                ..u
            },
        )
    }
}

/// Recomputes the participant's debt baseline after a weight change. On any
/// error the record is left unchanged.
pub fn rebase_debt(user: &mut UserBaseState, reward_per_share: u64) -> (r: Result<
    (),
    NFTStakingContractError,
>)
    ensures
        match r {
            Ok(_) => rebase_spec(*old(user), reward_per_share) == Ok::<
                UserBaseState,
                NFTStakingContractError,
            >(*final(user)),
            Err(e) => rebase_spec(*old(user), reward_per_share) == Err::<
                UserBaseState,
                NFTStakingContractError,
            >(e) && *final(user) == *old(user),
        },
{
    let dividend = match 100u64.checked_mul(user.total_staked_nfts) {
        Some(v) => v,
        None => {
            return Err(NFTStakingContractError::MathError);
        },
    };
    if dividend > 0 {
        let m1 = match user.total_staked_nfts.checked_mul(reward_per_share) {
            Some(v) => v,
            None => {
                return Err(NFTStakingContractError::MathError);
            },
        };
        let m2 = match m1.checked_mul(user.total_nft_points) {
            Some(v) => v,
            None => {
                return Err(NFTStakingContractError::MathError);
            },
        };
        user.reward_debt = m2 / dividend;
    }
    Ok(())
}

/// Dividing both numerator and denominator by a common positive factor
/// leaves an integer quotient unchanged.
proof fn lemma_div_common_factor(c: int, x: int, d: int)
    requires
        c > 0,
        d > 0,
        x >= 0,
    ensures
        (c * x) / (c * d) == x / d,
{
    let q = x / d;
    let r = x % d;
    lemma_fundamental_div_mod(x, d);
    lemma_mod_bound(x, d);
    assert(c * x == q * (c * d) + c * r) by (nonlinear_arith)
        requires
            x == d * q + r,
    ;
    assert(0 <= c * r < c * d) by (nonlinear_arith)
        requires
            c > 0,
            0 <= r < d,
    ;
    lemma_fundamental_div_mod_converse(c * x, c * d, q, c * r);
}

/// The earned share collapses to `reward_per_share * points / 100`: the
/// staked-item count cancels out of numerator and denominator.
pub proof fn lemma_earned_share_collapses(u: UserBaseState, reward_per_share: u64)
    requires
        u.total_staked_nfts > 0,
    ensures
        u.total_staked_nfts * reward_per_share * u.total_nft_points / (100 * u.total_staked_nfts)
            == reward_per_share * u.total_nft_points / 100,
{
    let c = u.total_staked_nfts as int;
    let x = reward_per_share * u.total_nft_points;
    assert(c * reward_per_share * u.total_nft_points == c * x) by (nonlinear_arith)
        requires
            x == reward_per_share * u.total_nft_points,
    ;
    assert(100 * c == c * 100) by (nonlinear_arith);
    assert(x >= 0) by (nonlinear_arith)
        requires
            x == reward_per_share * u.total_nft_points,
    ;
    lemma_div_common_factor(c, x, 100);
}

// --- the laws of the engine ---

/// Zero-stake neutrality: when nothing is staked, bringing the accumulator
/// current resets it to zero and advances the clock; no reward is fabricated
/// from the idle period.
pub proof fn lemma_zero_stake_neutrality(p: PlatformState, now: u64, reward_per_step: u64)
    requires
        p.total_staked_nfts == 0,
    ensures
        accrue_spec(p, now, reward_per_step) matches Ok(p2) ==> p2.reward_per_share == 0
            && p2.last_updated == now,
        accrue_spec(p, now, reward_per_step) is Ok,
{
}

/// Accrual monotonicity: while anything is staked, bringing the accumulator
/// current never decreases it. (When the pool empties, the accumulator
/// instead resets to zero, by design.)
pub proof fn lemma_accrual_monotonic(p: PlatformState, now: u64, reward_per_step: u64)
    requires
        p.total_staked_nfts > 0,
    ensures
        accrue_spec(p, now, reward_per_step) matches Ok(p2) ==> p2.reward_per_share
            >= p.reward_per_share,
{
    if accrue_spec(p, now, reward_per_step) is Ok {
        let steps = (now - p.last_updated) as int / p.reward_accumulation_in_sec as int;
        lemma_div_pos_is_pos(now - p.last_updated, p.reward_accumulation_in_sec as int);
        assert(steps * reward_per_step >= 0) by (nonlinear_arith)
            requires
                steps >= 0,
                reward_per_step >= 0,
        ;
        lemma_div_pos_is_pos(steps * reward_per_step, p.total_staked_nfts as int);
    }
}

/// Accrual idempotence: while anything is staked, an accrual run at the very
/// timestamp of the previous accrual changes nothing.
pub proof fn lemma_accrual_same_timestamp(p: PlatformState, reward_per_step: u64)
    requires
        p.total_staked_nfts > 0,
        p.reward_accumulation_in_sec > 0,
    ensures
        accrue_spec(p, p.last_updated, reward_per_step) == Ok::<
            PlatformState,
            NFTStakingContractError,
        >(p),
{
    let d = p.reward_accumulation_in_sec as int;
    assert(0int / d == 0) by (nonlinear_arith)
        requires
            d > 0,
    ;
    assert(0int / p.total_staked_nfts as int == 0) by (nonlinear_arith)
        requires
            p.total_staked_nfts > 0,
    ;
}

/// Debt rebase exactness: immediately after a rebase, realizing again at the
/// same accumulator yields a pending reward of exactly zero and changes
/// nothing.
pub proof fn lemma_debt_rebase_exactness(u: UserBaseState, reward_per_share: u64)
    ensures
        rebase_spec(u, reward_per_share) matches Ok(u2) ==> realize_spec(u2, reward_per_share)
            == Ok::<(UserBaseState, u64, u64), NFTStakingContractError>((u2, 0, 0)),
{
}

/// Realization accounting: a successful realize adds exactly the pending
/// amount to the monotonic claimed total and changes nothing else, and the
/// transfer amount is the pending amount at the reward token's scale.
pub proof fn lemma_realize_accounting(u: UserBaseState, reward_per_share: u64)
    ensures
        realize_spec(u, reward_per_share) matches Ok(rr) ==> {
            &&& rr.0.total_reward_claimed == u.total_reward_claimed + rr.1
            &&& rr.0.total_staked_nfts == u.total_staked_nfts
            &&& rr.0.total_nft_points == u.total_nft_points
            &&& rr.0.reward_debt == u.reward_debt
            &&& rr.0.user == u.user
            &&& rr.0.user_reward_ata == u.user_reward_ata
            &&& rr.0.is_initialized == u.is_initialized
            &&& rr.2 == rr.1 * REWARD_SCALE_FACTOR
        },
{
}

/// Point-weighted fairness: over the same accumulator interval, a
/// participant holding one hundred points is owed exactly ten times what a
/// participant holding ten points is owed, whenever the accumulator values
/// are whole multiples of ten (otherwise rounding skews the ratio).
pub proof fn lemma_point_weighted_fairness(
    a: UserBaseState,
    b: UserBaseState,
    rps0: u64,
    rps1: u64,
)
    requires
        a.total_nft_points == 10,
        b.total_nft_points == 100,
        a.total_staked_nfts > 0,
        b.total_staked_nfts > 0,
        rebase_spec(a, rps0) == Ok::<UserBaseState, NFTStakingContractError>(a),
        rebase_spec(b, rps0) == Ok::<UserBaseState, NFTStakingContractError>(b),
        rps0 <= rps1,
        rps0 % 10 == 0,
        rps1 % 10 == 0,
        realize_spec(a, rps1) is Ok,
        realize_spec(b, rps1) is Ok,
    ensures
        match (realize_spec(a, rps1), realize_spec(b, rps1)) {
            (Ok(ra), Ok(rb)) => rb.1 == 10 * ra.1,
            _ => false,
        },
{
    lemma_earned_share_collapses(a, rps0);
    lemma_earned_share_collapses(b, rps0);
    lemma_earned_share_collapses(a, rps1);
    lemma_earned_share_collapses(b, rps1);
    let k0 = rps0 as int / 10;
    let k1 = rps1 as int / 10;
    assert(rps0 == 10 * k0 && rps1 == 10 * k1) by {
        lemma_fundamental_div_mod(rps0 as int, 10);
        lemma_fundamental_div_mod(rps1 as int, 10);
    };
    assert(rps0 * 10 / 100 == k0 && rps0 * 100 / 100 == rps0) by (nonlinear_arith)
        requires
            rps0 == 10 * k0,
    ;
    assert(rps1 * 10 / 100 == k1 && rps1 * 100 / 100 == rps1) by (nonlinear_arith)
        requires
            rps1 == 10 * k1,
    ;
    assert(k0 <= k1) by (nonlinear_arith)
        requires
            rps0 == 10 * k0,
            rps1 == 10 * k1,
            rps0 <= rps1,
    ;
}

} // verus!
