//! Pool-wide laws, stated over a ghost sequence of all of a pool's
//! staker records and the per-operation result relations.
//!
//! The execution environment serializes operations per pool, so each
//! mutation touches one staker record at index `i` while the others
//! stand still; the lemmas here show that the pool aggregates keep
//! tracking the whole collection across such a step.

use vstd::prelude::*;
use crate::rewards::{compound_result, distribute_result};
use crate::staking::{stake_result, withdraw_result};
use crate::state::{Pool, Staker, Treasury};
use crate::weight::weight_spec;

verus! {

/// Sum of the stakers' current principal.
pub open spec fn sum_amounts(stakers: Seq<Staker>) -> int
    decreases stakers.len(),
{
    if stakers.len() == 0 {
        0
    } else {
        sum_amounts(stakers.drop_last()) + stakers.last().amount
    }
}

/// Sum of the stakers' weighted stake, each weighed at `now`.
pub open spec fn sum_weights(stakers: Seq<Staker>, now: i64) -> int
    decreases stakers.len(),
{
    if stakers.len() == 0 {
        0
    } else {
        sum_weights(stakers.drop_last(), now) + weight_spec(
            stakers.last().amount as int,
            now - stakers.last().deposit_timestamp,
        )
    }
}

/// A new pool has no staker records, and both sums over the empty
/// collection are zero — matching the zeroed aggregates of a fresh pool
/// record, the base of the conservation argument.
pub proof fn lemma_sums_empty(now: i64)
    ensures
        sum_amounts(Seq::<Staker>::empty()) == 0,
        sum_weights(Seq::<Staker>::empty(), now) == 0,
{
}

/// Staker records are created lazily with zero principal: appending a
/// record moves each sum by exactly that record's own contribution, so
/// bringing a fresh zero record into the collection changes neither.
pub proof fn lemma_sums_push(stakers: Seq<Staker>, s: Staker, now: i64)
    ensures
        sum_amounts(stakers.push(s)) == sum_amounts(stakers) + s.amount,
        sum_weights(stakers.push(s), now) == sum_weights(stakers, now) + weight_spec(
            s.amount as int,
            now - s.deposit_timestamp,
        ),
{
    assert(stakers.push(s).drop_last() =~= stakers);
}

/// Replacing one record changes the principal sum by exactly the change
/// in that record's principal.
pub proof fn lemma_sum_amounts_update(stakers: Seq<Staker>, i: int, s: Staker)
    requires
        0 <= i < stakers.len(),
    ensures
        sum_amounts(stakers.update(i, s)) == sum_amounts(stakers) - stakers[i].amount + s.amount,
    decreases stakers.len(),
{
    let n = stakers.len() - 1;
    if i == n {
        assert(stakers.update(i, s).drop_last() =~= stakers.drop_last());
    } else {
        assert(stakers.update(i, s).drop_last() =~= stakers.drop_last().update(i, s));
        lemma_sum_amounts_update(stakers.drop_last(), i, s);
    }
}

/// Replacing one record changes the weight sum by exactly the change in
/// that record's weight at `now`.
pub proof fn lemma_sum_weights_update(stakers: Seq<Staker>, i: int, s: Staker, now: i64)
    requires
        0 <= i < stakers.len(),
    ensures
        sum_weights(stakers.update(i, s), now) == sum_weights(stakers, now) - weight_spec(
            stakers[i].amount as int,
            now - stakers[i].deposit_timestamp,
        ) + weight_spec(s.amount as int, now - s.deposit_timestamp),
    decreases stakers.len(),
{
    let n = stakers.len() - 1;
    if i == n {
        assert(stakers.update(i, s).drop_last() =~= stakers.drop_last());
    } else {
        assert(stakers.update(i, s).drop_last() =~= stakers.drop_last().update(i, s));
        lemma_sum_weights_update(stakers.drop_last(), i, s, now);
    }
}

/// Conservation across a stake: when `total_staked` equals the sum of
/// all stakers' principal and staker `i` completes a stake, the updated
/// `total_staked` equals the sum over the updated collection.
pub proof fn lemma_conservation_stake(
    stakers: Seq<Staker>,
    i: int,
    p0: Pool,
    p1: Pool,
    s1: Staker,
    amount: u64,
    now: i64,
)
    requires
        0 <= i < stakers.len(),
        p0.total_staked == sum_amounts(stakers),
        stake_result(p0, stakers[i], p1, s1, amount, now),
    ensures
        p1.total_staked == sum_amounts(stakers.update(i, s1)),
{
    lemma_sum_amounts_update(stakers, i, s1);
}

/// Conservation across a withdrawal, symmetrically.
pub proof fn lemma_conservation_withdraw(
    stakers: Seq<Staker>,
    i: int,
    p0: Pool,
    p1: Pool,
    s1: Staker,
    amount: u64,
    now: i64,
)
    requires
        0 <= i < stakers.len(),
        p0.total_staked == sum_amounts(stakers),
        withdraw_result(p0, stakers[i], p1, s1, amount, now),
    ensures
        p1.total_staked == sum_amounts(stakers.update(i, s1)),
{
    lemma_sum_amounts_update(stakers, i, s1);
}

/// Conservation across auto-compounding: the share moves into the
/// staker's principal and into `total_staked` together, so the aggregate
/// keeps tracking the sum.
pub proof fn lemma_conservation_compound(
    stakers: Seq<Staker>,
    i: int,
    p0: Pool,
    p1: Pool,
    s1: Staker,
)
    requires
        0 <= i < stakers.len(),
        p0.total_staked == sum_amounts(stakers),
        compound_result(p0, stakers[i], p1, s1),
    ensures
        p1.total_staked == sum_amounts(stakers.update(i, s1)),
{
    lemma_sum_amounts_update(stakers, i, s1);
}

/// Conservation across an emergency withdrawal: zeroing staker `i` and
/// debiting `total_staked` by its principal keeps the aggregate equal to
/// the sum.
pub proof fn lemma_conservation_emergency(
    stakers: Seq<Staker>,
    i: int,
    p0: Pool,
    p1: Pool,
    s1: Staker,
)
    requires
        0 <= i < stakers.len(),
        p0.total_staked == sum_amounts(stakers),
        s1.amount == 0,
        p1.total_staked == p0.total_staked - stakers[i].amount,
    ensures
        p1.total_staked == sum_amounts(stakers.update(i, s1)),
{
    lemma_sum_amounts_update(stakers, i, s1);
}

/// Weight consistency across a stake: when the weighted-stake snapshot
/// equals the sum of all stakers' weights at `now` and staker `i`
/// completes a stake at `now`, the updated snapshot equals the weight
/// sum over the updated collection, still at `now`.
///
/// The hypothesis is the snapshot semantics itself: the aggregate
/// reflects weights as of the last mutating event, so it matches the
/// live sum only when re-weighed at that same instant.
pub proof fn lemma_weight_consistency_stake(
    stakers: Seq<Staker>,
    i: int,
    p0: Pool,
    p1: Pool,
    s1: Staker,
    amount: u64,
    now: i64,
)
    requires
        0 <= i < stakers.len(),
        p0.total_weighted_stake == sum_weights(stakers, now),
        stake_result(p0, stakers[i], p1, s1, amount, now),
    ensures
        p1.total_weighted_stake == sum_weights(stakers.update(i, s1), now),
{
    lemma_sum_weights_update(stakers, i, s1, now);
    // When the staker's principal was zero, the stake resets its deposit
    // timestamp; both the old and the re-timed weight of a zero
    // principal are zero, so the aggregate's delta is unaffected.
}

/// Weight consistency across a withdrawal, symmetrically.
pub proof fn lemma_weight_consistency_withdraw(
    stakers: Seq<Staker>,
    i: int,
    p0: Pool,
    p1: Pool,
    s1: Staker,
    amount: u64,
    now: i64,
)
    requires
        0 <= i < stakers.len(),
        p0.total_weighted_stake == sum_weights(stakers, now),
        withdraw_result(p0, stakers[i], p1, s1, amount, now),
    ensures
        p1.total_weighted_stake == sum_weights(stakers.update(i, s1), now),
{
    lemma_sum_weights_update(stakers, i, s1, now);
}

/// No negative balances: every ledger quantity is carried as an
/// unsigned 64-bit integer, so each is at least zero in every state;
/// the operations' contracts replace wrapping subtraction with typed
/// failures.
pub proof fn lemma_no_negative_balances(pool: Pool, staker: Staker, treasury: Treasury)
    ensures
        staker.amount >= 0,
        pool.total_staked >= 0,
        pool.total_rewards >= 0,
        pool.total_weighted_stake >= 0,
        pool.impermanent_loss_protection_fund >= 0,
        treasury.collected_fees >= 0,
{
}

/// Proportional distribution in a two-staker pool: with weights `w1`
/// and `w2` making up the weighted-stake aggregate and reward balance
/// `R`, distributing to the first staker pays `floor(w1 * R / (w1 +
/// w2))` and leaves `R` minus that share undistributed.
pub proof fn lemma_proportional_distribution_two(
    p0: Pool,
    p1: Pool,
    first: Staker,
    second: Staker,
    share: u64,
    now: i64,
)
    requires
        p0.total_weighted_stake == weight_spec(
            first.amount as int,
            now - first.deposit_timestamp,
        ) + weight_spec(second.amount as int, now - second.deposit_timestamp),
        distribute_result(p0, first, p1, share, now),
    ensures
        share == weight_spec(first.amount as int, now - first.deposit_timestamp)
            * p0.total_rewards / (weight_spec(first.amount as int, now - first.deposit_timestamp)
            + weight_spec(second.amount as int, now - second.deposit_timestamp)),
        p1.total_rewards == p0.total_rewards - share,
{
}

} // verus!
