//! Time-weighted stake: a staker's principal multiplied by a tenure
//! multiplier (1x under six months, 1.5x under a year, 2x beyond).

use vstd::prelude::*;
use crate::state::Staker;

verus! {

/// Deposit age above which principal counts double.
pub const SECONDS_PER_YEAR: i64 = 31536000;

/// Deposit age above which principal counts one-and-a-half times.
pub const SECONDS_PER_HALF_YEAR: i64 = 15768000;

/// Weighted stake of `amount` units deposited `age` seconds ago:
/// `2 * amount` beyond a year, `amount * 3 / 2` (truncating) beyond six
/// months, `amount` otherwise.
pub open spec fn weight_spec(amount: int, age: int) -> int {
    if age > SECONDS_PER_YEAR {
        amount * 2
    } else if age > SECONDS_PER_HALF_YEAR {
        amount * 3 / 2
    } else {
        amount
    }
}

/// The tenure multiplication for `amount` at `age` stays within `u64`,
/// so the weight can be computed without wrapping.
pub open spec fn weight_fits(amount: int, age: int) -> bool {
    if age > SECONDS_PER_YEAR {
        amount * 2 <= u64::MAX
    } else if age > SECONDS_PER_HALF_YEAR {
        amount * 3 <= u64::MAX
    } else {
        true
    }
}

/// Weight is monotone in principal at a fixed age.
pub proof fn lemma_weight_monotone(a1: int, a2: int, age: int)
    requires
        0 <= a1 <= a2,
    ensures
        weight_spec(a1, age) <= weight_spec(a2, age),
{
    if age > SECONDS_PER_YEAR {
    } else if age > SECONDS_PER_HALF_YEAR {
        vstd::arithmetic::mul::lemma_mul_inequality(a1, a2, 3);
        vstd::arithmetic::div_mod::lemma_div_is_ordered(a1 * 3, a2 * 3, 2);
    }
}

/// If the weight computation fits for some principal, it fits for any
/// smaller principal at the same age.
pub proof fn lemma_weight_fits_monotone(a1: int, a2: int, age: int)
    requires
        0 <= a1 <= a2,
        weight_fits(a2, age),
    ensures
        weight_fits(a1, age),
{
}

/// Weighted stake of `amount` units whose deposit is `age` seconds old.
pub(crate) fn weight_of(amount: u64, age: i64) -> (w: u64)
    requires
        weight_fits(amount as int, age as int),
    ensures
        w == weight_spec(amount as int, age as int),
{
    if age > SECONDS_PER_YEAR {
        amount * 2
    } else if age > SECONDS_PER_HALF_YEAR {
        amount * 3 / 2
    } else {
        amount
    }
}

/// Weighted stake of `staker` at `current_time`, from its principal and
/// deposit age.
pub fn calculate_staker_weight(staker: &Staker, current_time: i64) -> (w: u64)
    requires
        i64::MIN <= current_time - staker.deposit_timestamp <= i64::MAX,
        weight_fits(staker.amount as int, current_time - staker.deposit_timestamp),
    ensures
        w == weight_spec(staker.amount as int, current_time - staker.deposit_timestamp),
{
    let age = current_time - staker.deposit_timestamp;
    weight_of(staker.amount, age)
}

} // verus!
