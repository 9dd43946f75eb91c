//! Reward accounting: recording trade profit, proportional distribution,
//! and auto-compounding.
//!
//! Distribution pays a point-in-time share of the undistributed rewards
//! proportional to the staker's *weighted* stake; auto-compounding
//! reclassifies a share proportional to raw *principal* as principal.
//! The two bases are intentionally distinct.

use vstd::prelude::*;
use crate::errors::CustomError;
use crate::state::{Pool, Staker, pool_config_unchanged};
use crate::weight::{weight_spec, weight_fits, weight_of};
use vstd::arithmetic::div_mod::{lemma_div_is_ordered, lemma_div_multiples_vanish};
use vstd::arithmetic::mul::{lemma_mul_inequality, lemma_mul_upper_bound};

verus! {

/// Credits `profit` to the pool's undistributed reward balance.
pub fn record_trade_profit(pool: &mut Pool, profit: u64) -> (result: Result<(), CustomError>)
    requires
        old(pool).total_rewards + profit <= u64::MAX,
    ensures
        result == Ok::<(), CustomError>(()),
        final(pool).total_rewards == old(pool).total_rewards + profit,
        final(pool).total_staked == old(pool).total_staked,
        final(pool).total_weighted_stake == old(pool).total_weighted_stake,
        pool_config_unchanged(*old(pool), *final(pool)),
{
    pool.total_rewards = pool.total_rewards + profit;
    Ok(())
}

/// The reward share a distribution at `now` pays `staker`: the floor of
/// the staker's weight times the reward balance over the pool's weighted
/// stake.
pub open spec fn distribute_share(pool: Pool, staker: Staker, now: i64) -> int {
    weight_spec(staker.amount as int, now - staker.deposit_timestamp) * pool.total_rewards
        / (pool.total_weighted_stake as int)
}

/// What a distribution at `now` needs of the records to stay within
/// machine limits: the staker's weight computes without wrapping and is
/// covered by the pool's weighted-stake aggregate, so the paid share
/// never exceeds the reward balance.
pub open spec fn distribute_fits(pool: Pool, staker: Staker, now: i64) -> bool {
    (pool.total_rewards > 0 && pool.total_weighted_stake > 0) ==> {
        let age = now - staker.deposit_timestamp;
        &&& i64::MIN <= age <= i64::MAX
        &&& weight_fits(staker.amount as int, age)
        &&& weight_spec(staker.amount as int, age) <= pool.total_weighted_stake
    }
}

/// Decides `distribute_fits` for these records, so an unverified caller
/// can test the machine limits before committing to a distribution.
pub fn distribute_fits_check(pool: &Pool, staker: &Staker, now: i64) -> (b: bool)
    ensures
        b == distribute_fits(*pool, *staker, now),
{
    if pool.total_rewards > 0 && pool.total_weighted_stake > 0 {
        let age_wide = (now as i128) - (staker.deposit_timestamp as i128);
        if age_wide < i64::MIN as i128 || age_wide > i64::MAX as i128 {
            return false;
        }
        let age = age_wide as i64;
        if age > crate::weight::SECONDS_PER_YEAR {
            if staker.amount > u64::MAX / 2 {
                return false;
            }
        } else if age > crate::weight::SECONDS_PER_HALF_YEAR {
            if staker.amount > u64::MAX / 3 {
                return false;
            }
        }
        let w = weight_of(staker.amount, age);
        if w > pool.total_weighted_stake {
            return false;
        }
    }
    true
}

/// Ledger state after a successful distribution at `now` paying `share`:
/// only the reward balance moves, and the staker's record (including its
/// accrued weight) is untouched.
pub open spec fn distribute_result(p0: Pool, staker: Staker, p1: Pool, share: u64, now: i64) -> bool {
    &&& share == distribute_share(p0, staker, now)
    &&& p1.total_rewards == p0.total_rewards - share
    &&& p1.total_staked == p0.total_staked
    &&& p1.total_weighted_stake == p0.total_weighted_stake
    &&& pool_config_unchanged(p0, p1)
}

/// Pays `staker` its proportional share of the undistributed rewards and
/// returns the amount the caller must then move from pool custody to the
/// staker's account, as part of the same atomic unit.
///
/// The share is `floor(weight * total_rewards / total_weighted_stake)`,
/// computed in a widened domain so the multiplication cannot overflow.
pub fn distribute_rewards(pool: &mut Pool, staker: &Staker, now: i64) -> (result: Result<
    u64,
    CustomError,
>)
    requires
        distribute_fits(*old(pool), *staker, now),
    ensures
        result == Err::<u64, CustomError>(CustomError::NoRewardsAvailable)
            <==> old(pool).total_rewards == 0,
        result == Err::<u64, CustomError>(CustomError::NoStakedFunds)
            <==> (old(pool).total_rewards > 0 && old(pool).total_weighted_stake == 0),
        (old(pool).total_rewards == 0 || old(pool).total_weighted_stake == 0)
            ==> *final(pool) == *old(pool),
        (old(pool).total_rewards > 0 && old(pool).total_weighted_stake > 0) ==> {
            &&& result == Ok::<u64, CustomError>(distribute_share(*old(pool), *staker, now) as u64)
            &&& distribute_result(
                *old(pool),
                *staker,
                *final(pool),
                (distribute_share(*old(pool), *staker, now) as u64),
                now,
            )
        },
{
    if pool.total_rewards == 0 {
        return Err(CustomError::NoRewardsAvailable);
    }
    if pool.total_weighted_stake == 0 {
        return Err(CustomError::NoStakedFunds);
    }

    let age = now - staker.deposit_timestamp;
    let weighted_stake = weight_of(staker.amount, age);
    proof {
        // The widened multiplication fits, and the share it yields is at
        // most total_rewards, since the staker's weight is covered by
        // the weighted-stake aggregate.
        lemma_mul_upper_bound(
            weighted_stake as int,
            u64::MAX as int,
            pool.total_rewards as int,
            u64::MAX as int,
        );
        lemma_mul_inequality(
            weighted_stake as int,
            pool.total_weighted_stake as int,
            pool.total_rewards as int,
        );
        lemma_div_is_ordered(
            (weighted_stake as int) * (pool.total_rewards as int),
            (pool.total_weighted_stake as int) * (pool.total_rewards as int),
            pool.total_weighted_stake as int,
        );
        lemma_div_multiples_vanish(pool.total_rewards as int, pool.total_weighted_stake as int);
    }
    let reward_share = (weighted_stake as u128) * (pool.total_rewards as u128)
        / (pool.total_weighted_stake as u128);
    let reward_amount = reward_share as u64;

    pool.total_rewards = pool.total_rewards - reward_amount;
    Ok(reward_amount)
}

/// The share auto-compounding credits `staker`: the floor of the
/// staker's raw principal times the reward balance over `total_staked`.
pub open spec fn compound_share(pool: Pool, staker: Staker) -> int {
    staker.amount * pool.total_rewards / (pool.total_staked as int)
}

/// What auto-compounding needs of the records to stay within machine
/// limits: the staker's principal is covered by `total_staked` (so the
/// share never exceeds the reward balance) and the two credited fields
/// do not overflow.
pub open spec fn compound_fits(pool: Pool, staker: Staker) -> bool {
    (pool.total_rewards > 0 && pool.total_staked > 0) ==> {
        &&& staker.amount <= pool.total_staked
        &&& staker.amount + compound_share(pool, staker) <= u64::MAX
        &&& pool.total_staked + compound_share(pool, staker) <= u64::MAX
    }
}

/// Decides `compound_fits` for these records, so an unverified caller
/// can test the machine limits before committing to auto-compounding.
pub fn compound_fits_check(pool: &Pool, staker: &Staker) -> (b: bool)
    ensures
        b == compound_fits(*pool, *staker),
{
    if pool.total_rewards > 0 && pool.total_staked > 0 {
        if staker.amount > pool.total_staked {
            return false;
        }
        proof {
            lemma_mul_upper_bound(
                staker.amount as int,
                u64::MAX as int,
                pool.total_rewards as int,
                u64::MAX as int,
            );
            lemma_mul_inequality(
                staker.amount as int,
                pool.total_staked as int,
                pool.total_rewards as int,
            );
            lemma_div_is_ordered(
                (staker.amount as int) * (pool.total_rewards as int),
                (pool.total_staked as int) * (pool.total_rewards as int),
                pool.total_staked as int,
            );
            lemma_div_multiples_vanish(pool.total_rewards as int, pool.total_staked as int);
        }
        let share = ((staker.amount as u128) * (pool.total_rewards as u128)
            / (pool.total_staked as u128)) as u64;
        if share > u64::MAX - staker.amount {
            return false;
        }
        if share > u64::MAX - pool.total_staked {
            return false;
        }
    }
    true
}

/// Ledger state after successful auto-compounding: the share moves from
/// the reward balance into the staker's principal and `total_staked`,
/// with no custody transfer. The weighted-stake snapshot is *not*
/// adjusted despite the principal increasing: it only follows explicit
/// stake/withdraw events.
pub open spec fn compound_result(p0: Pool, s0: Staker, p1: Pool, s1: Staker) -> bool {
    let share = compound_share(p0, s0);
    &&& s1.owner == s0.owner
    &&& s1.amount == s0.amount + share
    &&& s1.deposit_timestamp == s0.deposit_timestamp
    &&& p1.total_rewards == p0.total_rewards - share
    &&& p1.total_staked == p0.total_staked + share
    &&& p1.total_weighted_stake == p0.total_weighted_stake
    &&& pool_config_unchanged(p0, p1)
}

/// Credits `staker`'s principal-proportional share of the rewards to its
/// principal. Rewards stay in custody, reclassified as principal, so no
/// transfer is owed by the caller.
pub fn auto_compound_rewards(pool: &mut Pool, staker: &mut Staker) -> (result: Result<
    (),
    CustomError,
>)
    requires
        compound_fits(*old(pool), *old(staker)),
    ensures
        result == Err::<(), CustomError>(CustomError::NoRewardsAvailable)
            <==> old(pool).total_rewards == 0,
        result == Err::<(), CustomError>(CustomError::NoStakedFunds)
            <==> (old(pool).total_rewards > 0 && old(pool).total_staked == 0),
        (old(pool).total_rewards == 0 || old(pool).total_staked == 0)
            ==> *final(pool) == *old(pool) && *final(staker) == *old(staker),
        (old(pool).total_rewards > 0 && old(pool).total_staked > 0) ==> {
            &&& result == Ok::<(), CustomError>(())
            &&& compound_result(*old(pool), *old(staker), *final(pool), *final(staker))
        },
{
    if pool.total_rewards == 0 {
        return Err(CustomError::NoRewardsAvailable);
    }
    if pool.total_staked == 0 {
        return Err(CustomError::NoStakedFunds);
    }

    proof {
        // The widened multiplication fits, and the share it yields is at
        // most total_rewards, since principal is covered by the staked
        // aggregate.
        lemma_mul_upper_bound(
            staker.amount as int,
            u64::MAX as int,
            pool.total_rewards as int,
            u64::MAX as int,
        );
        lemma_mul_inequality(
            staker.amount as int,
            pool.total_staked as int,
            pool.total_rewards as int,
        );
        lemma_div_is_ordered(
            (staker.amount as int) * (pool.total_rewards as int),
            (pool.total_staked as int) * (pool.total_rewards as int),
            pool.total_staked as int,
        );
        lemma_div_multiples_vanish(pool.total_rewards as int, pool.total_staked as int);
    }
    let reward_share = (staker.amount as u128) * (pool.total_rewards as u128)
        / (pool.total_staked as u128);
    let reward_amount = reward_share as u64;

    staker.amount = staker.amount + reward_amount;
    pool.total_rewards = pool.total_rewards - reward_amount;
    pool.total_staked = pool.total_staked + reward_amount;

    Ok(())
}

} // verus!
