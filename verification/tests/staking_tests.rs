use dsmm::errors::CustomError;
use dsmm::staking::{stake, withdraw, MIN_STAKE_DURATION};
use dsmm::state::{initialize_pool, Staker};
use dsmm::weight::calculate_staker_weight;

const MINT: u64 = 7;
const ADMIN: u64 = 99;

fn fresh_staker(owner: u64) -> Staker {
    Staker { owner, amount: 0, deposit_timestamp: 0 }
}

#[test]
fn initialize_pool_zeroes_balances() {
    let pool = initialize_pool(3, MINT, 25, 30, ADMIN);
    assert_eq!(pool.bump, 3);
    assert_eq!(pool.total_staked, 0);
    assert_eq!(pool.total_rewards, 0);
    assert_eq!(pool.total_weighted_stake, 0);
    assert_eq!(pool.token_mint, MINT);
    assert_eq!(pool.maker_fee_rate, 25);
    assert_eq!(pool.taker_fee_rate, 30);
    assert_eq!(pool.admin, ADMIN);
    assert_eq!(pool.impermanent_loss_protection_fund, 0);
    assert!(!pool.is_emergency);
}

#[test]
fn first_stake_sets_timestamp_and_aggregates() {
    let mut pool = initialize_pool(1, MINT, 10, 20, ADMIN);
    let mut staker = fresh_staker(5);
    let r = stake(&mut pool, &mut staker, MINT, 100, 1234);
    assert_eq!(r, Ok(()));
    assert_eq!(staker.amount, 100);
    assert_eq!(staker.deposit_timestamp, 1234);
    assert_eq!(pool.total_staked, 100);
    assert_eq!(pool.total_weighted_stake, 100);
}

#[test]
fn stake_rejects_wrong_mint() {
    let mut pool = initialize_pool(1, MINT, 10, 20, ADMIN);
    let mut staker = fresh_staker(5);
    let r = stake(&mut pool, &mut staker, MINT + 1, 100, 0);
    assert_eq!(r, Err(CustomError::InvalidTokenMint));
    assert_eq!(staker.amount, 0);
    assert_eq!(pool.total_staked, 0);
}

#[test]
fn second_stake_keeps_deposit_timestamp() {
    let mut pool = initialize_pool(1, MINT, 10, 20, ADMIN);
    let mut staker = fresh_staker(5);
    assert_eq!(stake(&mut pool, &mut staker, MINT, 100, 50), Ok(()));
    assert_eq!(stake(&mut pool, &mut staker, MINT, 40, 5000), Ok(()));
    assert_eq!(staker.deposit_timestamp, 50);
    assert_eq!(staker.amount, 140);
    assert_eq!(pool.total_staked, 140);
    assert_eq!(pool.total_weighted_stake, 140);
}

#[test]
fn stake_across_tenure_boundary_updates_weight_delta() {
    let mut pool = initialize_pool(1, MINT, 10, 20, ADMIN);
    let mut staker = fresh_staker(5);
    assert_eq!(stake(&mut pool, &mut staker, MINT, 100, 0), Ok(()));
    assert_eq!(pool.total_weighted_stake, 100);
    // Six months and a second later the same principal weighs 1.5x, so a
    // further stake of 100 moves the snapshot from weight(100) recorded
    // at deposit time to weight(200) at the new instant.
    let later = 15768001;
    assert_eq!(stake(&mut pool, &mut staker, MINT, 100, later), Ok(()));
    assert_eq!(staker.amount, 200);
    // Snapshot absorbed weight(200, later) - weight(100, later) = 300 - 150.
    assert_eq!(pool.total_weighted_stake, 100 + (300 - 150));
}

#[test]
fn withdraw_lockup_boundary() {
    // Deposit 100 at t = 0; withdrawing 50 one second early fails, at
    // exactly the lock-up boundary it succeeds and leaves 50.
    let mut pool = initialize_pool(1, MINT, 10, 20, ADMIN);
    let mut staker = fresh_staker(5);
    assert_eq!(stake(&mut pool, &mut staker, MINT, 100, 0), Ok(()));
    let r_early = withdraw(&mut pool, &mut staker, 50, 604799);
    assert_eq!(r_early, Err(CustomError::StakeTimeNotReached));
    assert_eq!(staker.amount, 100);
    assert_eq!(pool.total_staked, 100);
    let r_at = withdraw(&mut pool, &mut staker, 50, 604800);
    assert_eq!(r_at, Ok(()));
    assert_eq!(staker.amount, 50);
    assert_eq!(pool.total_staked, 50);
    assert_eq!(pool.total_weighted_stake, 50);
}

#[test]
fn withdraw_insufficient_stake() {
    let mut pool = initialize_pool(1, MINT, 10, 20, ADMIN);
    let mut staker = fresh_staker(5);
    assert_eq!(stake(&mut pool, &mut staker, MINT, 100, 0), Ok(()));
    let r = withdraw(&mut pool, &mut staker, 101, MIN_STAKE_DURATION);
    assert_eq!(r, Err(CustomError::InsufficientStake));
    assert_eq!(staker.amount, 100);
    assert_eq!(pool.total_staked, 100);
}

#[test]
fn withdraw_full_amount_allowed() {
    let mut pool = initialize_pool(1, MINT, 10, 20, ADMIN);
    let mut staker = fresh_staker(5);
    assert_eq!(stake(&mut pool, &mut staker, MINT, 100, 0), Ok(()));
    assert_eq!(withdraw(&mut pool, &mut staker, 100, MIN_STAKE_DURATION), Ok(()));
    assert_eq!(staker.amount, 0);
    assert_eq!(pool.total_staked, 0);
    assert_eq!(pool.total_weighted_stake, 0);
}

#[test]
fn conservation_over_interleaved_operations() {
    // total_staked tracks the sum of both stakers' principal across an
    // interleaved sequence of stakes and withdrawals.
    let mut pool = initialize_pool(1, MINT, 10, 20, ADMIN);
    let mut a = fresh_staker(5);
    let mut b = fresh_staker(6);
    assert_eq!(stake(&mut pool, &mut a, MINT, 300, 0), Ok(()));
    assert_eq!(stake(&mut pool, &mut b, MINT, 700, 10), Ok(()));
    assert_eq!(pool.total_staked, a.amount + b.amount);
    assert_eq!(stake(&mut pool, &mut a, MINT, 50, 20), Ok(()));
    assert_eq!(pool.total_staked, a.amount + b.amount);
    assert_eq!(withdraw(&mut pool, &mut b, 200, 604810), Ok(()));
    assert_eq!(pool.total_staked, a.amount + b.amount);
    assert_eq!(withdraw(&mut pool, &mut a, 350, 604820), Ok(()));
    assert_eq!(pool.total_staked, a.amount + b.amount);
    assert_eq!(pool.total_staked, 500);
}

#[test]
fn weight_snapshot_matches_live_weights_after_mutation() {
    // Immediately after a mutation the snapshot equals the sum of the
    // stakers' weights re-computed at that same instant.
    let mut pool = initialize_pool(1, MINT, 10, 20, ADMIN);
    let mut a = fresh_staker(5);
    let mut b = fresh_staker(6);
    assert_eq!(stake(&mut pool, &mut a, MINT, 300, 0), Ok(()));
    assert_eq!(stake(&mut pool, &mut b, MINT, 700, 0), Ok(()));
    let now = 604800;
    assert_eq!(withdraw(&mut pool, &mut a, 100, now), Ok(()));
    let live = calculate_staker_weight(&a, now) + calculate_staker_weight(&b, now);
    assert_eq!(pool.total_weighted_stake, live);
}

#[test]
fn weight_tiers_and_truncation() {
    let base = Staker { owner: 5, amount: 100, deposit_timestamp: 0 };
    // Up to and including six months: 1x.
    assert_eq!(calculate_staker_weight(&base, 15768000), 100);
    // Just past six months: 1.5x.
    assert_eq!(calculate_staker_weight(&base, 15768001), 150);
    // Exactly one year still sits in the 1.5x tier.
    assert_eq!(calculate_staker_weight(&base, 31536000), 150);
    // Just past one year: 2x.
    assert_eq!(calculate_staker_weight(&base, 31536001), 200);
    // The 1.5x tier truncates: 101 * 3 / 2 = 151.
    let odd = Staker { owner: 5, amount: 101, deposit_timestamp: 0 };
    assert_eq!(calculate_staker_weight(&odd, 15768001), 151);
}
