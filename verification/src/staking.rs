//! Stake and withdraw: the two principal-moving operations.
//!
//! Both update the staker's principal together with the pool aggregates
//! (`total_staked` and the weighted-stake snapshot). The paired custody
//! transfer is the caller's concern: a caller must treat a failed
//! transfer as failing the whole operation and discard the updated
//! records.

use vstd::prelude::*;
use crate::errors::CustomError;
use crate::state::{AccountId, Pool, Staker, pool_config_unchanged};
use crate::weight::{
    weight_spec, weight_fits, weight_of, lemma_weight_monotone, lemma_weight_fits_monotone,
    SECONDS_PER_YEAR, SECONDS_PER_HALF_YEAR,
};

verus! {

/// Minimum stake duration in seconds (7 days) before a withdrawal.
pub const MIN_STAKE_DURATION: i64 = 604800;

/// The deposit timestamp a stake at `now` leaves in the record: reset to
/// `now` when principal is zero, kept otherwise.
pub open spec fn stake_timestamp(staker: Staker, now: i64) -> i64 {
    if staker.amount == 0 {
        now
    } else {
        staker.deposit_timestamp
    }
}

/// The arithmetic of a stake of `amount` at `now` stays within the
/// fixed-width ledger fields. Overflow is fatal for the operation, so
/// callers must stay within these machine limits.
pub open spec fn stake_fits(pool: Pool, staker: Staker, amount: u64, now: i64) -> bool {
    let age = now - stake_timestamp(staker, now);
    &&& staker.amount + amount <= u64::MAX
    &&& i64::MIN <= age <= i64::MAX
    &&& weight_fits(staker.amount + amount, age)
    &&& pool.total_weighted_stake + weight_spec(staker.amount + amount, age)
        - weight_spec(staker.amount as int, age) <= u64::MAX
    &&& pool.total_staked + amount <= u64::MAX
}

/// Ledger state after a successful stake of `amount` at `now`: principal
/// and `total_staked` grow by `amount`, and the weighted-stake snapshot
/// absorbs the staker's weight change as of `now`.
pub open spec fn stake_result(p0: Pool, s0: Staker, p1: Pool, s1: Staker, amount: u64, now: i64) -> bool {
    let ts = stake_timestamp(s0, now);
    let age = now - ts;
    let prev_w = weight_spec(s0.amount as int, age);
    let new_w = weight_spec(s0.amount + amount, age);
    &&& s1.owner == s0.owner
    &&& s1.amount == s0.amount + amount
    &&& s1.deposit_timestamp == ts
    &&& p1.total_staked == p0.total_staked + amount
    &&& p1.total_weighted_stake == p0.total_weighted_stake + (new_w - prev_w)
    &&& p1.total_rewards == p0.total_rewards
    &&& pool_config_unchanged(p0, p1)
}

/// Stakes `amount` into the pool for `staker`.
///
/// `user_token_mint` is the mint of the token account the caller intends
/// to debit; it must match the pool's configured mint. On success the
/// caller must move `amount` from the owner into pool custody as part of
/// the same atomic unit.
pub fn stake(
    pool: &mut Pool,
    staker: &mut Staker,
    user_token_mint: AccountId,
    amount: u64,
    now: i64,
) -> (result: Result<(), CustomError>)
    requires
        user_token_mint == old(pool).token_mint ==> stake_fits(*old(pool), *old(staker), amount, now),
    ensures
        result == Err::<(), CustomError>(CustomError::InvalidTokenMint)
            <==> user_token_mint != old(pool).token_mint,
        user_token_mint != old(pool).token_mint
            ==> *final(pool) == *old(pool) && *final(staker) == *old(staker),
        user_token_mint == old(pool).token_mint ==> {
            &&& result == Ok::<(), CustomError>(())
            &&& stake_result(*old(pool), *old(staker), *final(pool), *final(staker), amount, now)
        },
{
    if user_token_mint != pool.token_mint {
        return Err(CustomError::InvalidTokenMint);
    }

    // First stake of this record: the deposit clock starts now.
    if staker.amount == 0 {
        staker.deposit_timestamp = now;
    }

    let age = now - staker.deposit_timestamp;
    proof {
        lemma_weight_fits_monotone(
            old(staker).amount as int,
            old(staker).amount + amount,
            age as int,
        );
    }
    let previous_weight = weight_of(staker.amount, age);
    let new_amount = staker.amount + amount;
    proof {
        lemma_weight_monotone(old(staker).amount as int, new_amount as int, age as int);
    }
    let new_weight = weight_of(new_amount, age);

    staker.amount = new_amount;
    pool.total_weighted_stake = pool.total_weighted_stake + (new_weight - previous_weight);
    pool.total_staked = pool.total_staked + amount;

    Ok(())
}

/// Decides `stake_fits` for these records, so an unverified caller can
/// test the machine limits before committing to a stake.
pub fn stake_fits_check(pool: &Pool, staker: &Staker, amount: u64, now: i64) -> (b: bool)
    ensures
        b == stake_fits(*pool, *staker, amount, now),
{
    let ts = if staker.amount == 0 {
        now
    } else {
        staker.deposit_timestamp
    };
    let age_wide = (now as i128) - (ts as i128);
    if age_wide < i64::MIN as i128 || age_wide > i64::MAX as i128 {
        return false;
    }
    let age = age_wide as i64;
    if amount > u64::MAX - staker.amount {
        return false;
    }
    let new_amount = staker.amount + amount;
    if age > SECONDS_PER_YEAR {
        if new_amount > u64::MAX / 2 {
            return false;
        }
    } else if age > SECONDS_PER_HALF_YEAR {
        if new_amount > u64::MAX / 3 {
            return false;
        }
    }
    proof {
        lemma_weight_fits_monotone(staker.amount as int, new_amount as int, age as int);
        lemma_weight_monotone(staker.amount as int, new_amount as int, age as int);
    }
    let prev_w = weight_of(staker.amount, age);
    let new_w = weight_of(new_amount, age);
    if new_w - prev_w > u64::MAX - pool.total_weighted_stake {
        return false;
    }
    if amount > u64::MAX - pool.total_staked {
        return false;
    }
    true
}

/// The lock-up has elapsed and the principal covers the request: the two
/// preconditions under which a withdrawal goes through.
pub open spec fn withdraw_allowed(staker: Staker, amount: u64, now: i64) -> bool {
    &&& now >= staker.deposit_timestamp + MIN_STAKE_DURATION
    &&& amount <= staker.amount
}

/// The arithmetic of a withdrawal of `amount` at `now` stays within the
/// fixed-width ledger fields. The weighted-stake snapshot must still
/// cover the staker's weight drop: between mutations the snapshot does
/// not follow the clock, so a caller refreshing records across tenure
/// boundaries owes this bound.
pub open spec fn withdraw_fits(pool: Pool, staker: Staker, amount: u64, now: i64) -> bool {
    let age = now - staker.deposit_timestamp;
    &&& staker.deposit_timestamp + MIN_STAKE_DURATION <= i64::MAX
    &&& withdraw_allowed(staker, amount, now) ==> {
        &&& age <= i64::MAX
        &&& weight_fits(staker.amount as int, age)
        &&& weight_spec(staker.amount as int, age) - weight_spec(staker.amount - amount, age)
            <= pool.total_weighted_stake
        &&& amount <= pool.total_staked
    }
}

/// Decides `withdraw_fits` for these records, so an unverified caller
/// can test the machine limits before committing to a withdrawal.
pub fn withdraw_fits_check(pool: &Pool, staker: &Staker, amount: u64, now: i64) -> (b: bool)
    ensures
        b == withdraw_fits(*pool, *staker, amount, now),
{
    if staker.deposit_timestamp > i64::MAX - MIN_STAKE_DURATION {
        return false;
    }
    if now >= staker.deposit_timestamp + MIN_STAKE_DURATION && amount <= staker.amount {
        let age_wide = (now as i128) - (staker.deposit_timestamp as i128);
        if age_wide > i64::MAX as i128 {
            return false;
        }
        let age = age_wide as i64;
        if age > SECONDS_PER_YEAR {
            if staker.amount > u64::MAX / 2 {
                return false;
            }
        } else if age > SECONDS_PER_HALF_YEAR {
            if staker.amount > u64::MAX / 3 {
                return false;
            }
        }
        let new_amount = staker.amount - amount;
        proof {
            lemma_weight_fits_monotone(new_amount as int, staker.amount as int, age as int);
            lemma_weight_monotone(new_amount as int, staker.amount as int, age as int);
        }
        let prev_w = weight_of(staker.amount, age);
        let new_w = weight_of(new_amount, age);
        if prev_w - new_w > pool.total_weighted_stake {
            return false;
        }
        if amount > pool.total_staked {
            return false;
        }
    }
    true
}

/// Ledger state after a successful withdrawal of `amount` at `now`:
/// principal and `total_staked` shrink by `amount`, and the
/// weighted-stake snapshot sheds the staker's weight drop as of `now`.
pub open spec fn withdraw_result(p0: Pool, s0: Staker, p1: Pool, s1: Staker, amount: u64, now: i64) -> bool {
    let age = now - s0.deposit_timestamp;
    let prev_w = weight_spec(s0.amount as int, age);
    let new_w = weight_spec(s0.amount - amount, age);
    &&& s1.owner == s0.owner
    &&& s1.amount == s0.amount - amount
    &&& s1.deposit_timestamp == s0.deposit_timestamp
    &&& p1.total_staked == p0.total_staked - amount
    &&& p1.total_weighted_stake == p0.total_weighted_stake - (prev_w - new_w)
    &&& p1.total_rewards == p0.total_rewards
    &&& pool_config_unchanged(p0, p1)
}

/// Withdraws `amount` of staked principal.
///
/// Fails with `StakeTimeNotReached` strictly before the lock-up elapses
/// and succeeds from exactly `deposit_timestamp + MIN_STAKE_DURATION`
/// on; fails with `InsufficientStake` when the principal does not cover
/// the request. On success the caller must move `amount` from pool
/// custody back to the owner as part of the same atomic unit.
pub fn withdraw(
    pool: &mut Pool,
    staker: &mut Staker,
    amount: u64,
    now: i64,
) -> (result: Result<(), CustomError>)
    requires
        withdraw_fits(*old(pool), *old(staker), amount, now),
    ensures
        result == Err::<(), CustomError>(CustomError::StakeTimeNotReached)
            <==> now < old(staker).deposit_timestamp + MIN_STAKE_DURATION,
        result == Err::<(), CustomError>(CustomError::InsufficientStake)
            <==> (now >= old(staker).deposit_timestamp + MIN_STAKE_DURATION
                && amount > old(staker).amount),
        result == Ok::<(), CustomError>(()) <==> withdraw_allowed(*old(staker), amount, now),
        !withdraw_allowed(*old(staker), amount, now)
            ==> *final(pool) == *old(pool) && *final(staker) == *old(staker),
        withdraw_allowed(*old(staker), amount, now)
            ==> withdraw_result(*old(pool), *old(staker), *final(pool), *final(staker), amount, now),
{
    if now < staker.deposit_timestamp + MIN_STAKE_DURATION {
        return Err(CustomError::StakeTimeNotReached);
    }
    if staker.amount < amount {
        return Err(CustomError::InsufficientStake);
    }

    let age = now - staker.deposit_timestamp;
    let previous_weight = weight_of(staker.amount, age);
    let new_amount = staker.amount - amount;
    proof {
        lemma_weight_fits_monotone(new_amount as int, old(staker).amount as int, age as int);
        lemma_weight_monotone(new_amount as int, old(staker).amount as int, age as int);
    }
    let new_weight = weight_of(new_amount, age);

    staker.amount = new_amount;
    pool.total_weighted_stake = pool.total_weighted_stake - (previous_weight - new_weight);
    pool.total_staked = pool.total_staked - amount;

    Ok(())
}

} // verus!
