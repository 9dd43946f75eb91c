//! Governance-controlled transitions: fee parameters, loss compensation,
//! emergency withdrawal, the flash-loan guard, multi-signature actions,
//! and treasury allocation.

use vstd::prelude::*;
use crate::errors::CustomError;
use crate::state::{AccountId, Governance, Pool, Staker, Treasury};

verus! {

/// Upper bound, in basis points, that the performance-adjusted fee path
/// enforces (10%).
pub const MAX_FEE_RATE_BPS: u16 = 1000;

/// Minimum deposit age in seconds (10 minutes) before actions guarded
/// against flash loans.
pub const FLASH_LOAN_COOLDOWN: i64 = 600;

/// Minimum number of presented signer identities for a multi-signature
/// governance action.
pub const MIN_GOVERNANCE_SIGNATURES: usize = 2;

/// Both pool records agree on everything except the two fee rates.
pub open spec fn pool_except_fees_unchanged(p0: Pool, p1: Pool) -> bool {
    &&& p1.bump == p0.bump
    &&& p1.total_staked == p0.total_staked
    &&& p1.total_rewards == p0.total_rewards
    &&& p1.total_weighted_stake == p0.total_weighted_stake
    &&& p1.token_mint == p0.token_mint
    &&& p1.admin == p0.admin
    &&& p1.impermanent_loss_protection_fund == p0.impermanent_loss_protection_fund
    &&& p1.is_emergency == p0.is_emergency
}

/// Sets both fee rates, gated on the caller being the recorded admin.
///
/// This path applies no bound to the new rates: any `u16` value is
/// accepted. The bounded path is `adjust_fee_based_on_performance`; the
/// asymmetry is deliberate and part of this core's contract.
pub fn update_fee_structure(
    pool: &mut Pool,
    caller: AccountId,
    new_maker_fee: u16,
    new_taker_fee: u16,
) -> (result: Result<(), CustomError>)
    ensures
        result == Err::<(), CustomError>(CustomError::Unauthorized)
            <==> caller != old(pool).admin,
        caller != old(pool).admin ==> *final(pool) == *old(pool),
        caller == old(pool).admin ==> {
            &&& result == Ok::<(), CustomError>(())
            &&& final(pool).maker_fee_rate == new_maker_fee
            &&& final(pool).taker_fee_rate == new_taker_fee
            &&& pool_except_fees_unchanged(*old(pool), *final(pool))
        },
{
    if caller != pool.admin {
        return Err(CustomError::Unauthorized);
    }
    pool.maker_fee_rate = new_maker_fee;
    pool.taker_fee_rate = new_taker_fee;
    Ok(())
}

/// Sets both fee rates, gated on the caller being the recorded admin and
/// on each new rate staying within `MAX_FEE_RATE_BPS`.
pub fn adjust_fee_based_on_performance(
    pool: &mut Pool,
    caller: AccountId,
    new_maker_fee: u16,
    new_taker_fee: u16,
) -> (result: Result<(), CustomError>)
    ensures
        result == Err::<(), CustomError>(CustomError::Unauthorized)
            <==> caller != old(pool).admin,
        result == Err::<(), CustomError>(CustomError::InvalidFeeRate)
            <==> (caller == old(pool).admin
                && (new_maker_fee > MAX_FEE_RATE_BPS || new_taker_fee > MAX_FEE_RATE_BPS)),
        (caller != old(pool).admin
            || new_maker_fee > MAX_FEE_RATE_BPS
            || new_taker_fee > MAX_FEE_RATE_BPS) ==> *final(pool) == *old(pool),
        (caller == old(pool).admin
            && new_maker_fee <= MAX_FEE_RATE_BPS
            && new_taker_fee <= MAX_FEE_RATE_BPS) ==> {
            &&& result == Ok::<(), CustomError>(())
            &&& final(pool).maker_fee_rate == new_maker_fee
            &&& final(pool).taker_fee_rate == new_taker_fee
            &&& pool_except_fees_unchanged(*old(pool), *final(pool))
        },
{
    if caller != pool.admin {
        return Err(CustomError::Unauthorized);
    }
    if new_maker_fee > MAX_FEE_RATE_BPS {
        return Err(CustomError::InvalidFeeRate);
    }
    if new_taker_fee > MAX_FEE_RATE_BPS {
        return Err(CustomError::InvalidFeeRate);
    }
    pool.maker_fee_rate = new_maker_fee;
    pool.taker_fee_rate = new_taker_fee;
    Ok(())
}

/// Debits `loss_amount` from the impermanent-loss protection fund. This
/// is recording only: the actual payout to the compensated party is an
/// external concern.
pub fn compensate_lp_losses(pool: &mut Pool, loss_amount: u64) -> (result: Result<
    (),
    CustomError,
>)
    ensures
        result == Err::<(), CustomError>(CustomError::NotEnoughFunds)
            <==> old(pool).impermanent_loss_protection_fund < loss_amount,
        old(pool).impermanent_loss_protection_fund < loss_amount
            ==> *final(pool) == *old(pool),
        old(pool).impermanent_loss_protection_fund >= loss_amount ==> {
            &&& result == Ok::<(), CustomError>(())
            &&& final(pool).impermanent_loss_protection_fund
                == old(pool).impermanent_loss_protection_fund - loss_amount
            &&& final(pool).bump == old(pool).bump
            &&& final(pool).total_staked == old(pool).total_staked
            &&& final(pool).total_rewards == old(pool).total_rewards
            &&& final(pool).total_weighted_stake == old(pool).total_weighted_stake
            &&& final(pool).token_mint == old(pool).token_mint
            &&& final(pool).maker_fee_rate == old(pool).maker_fee_rate
            &&& final(pool).taker_fee_rate == old(pool).taker_fee_rate
            &&& final(pool).admin == old(pool).admin
            &&& final(pool).is_emergency == old(pool).is_emergency
        },
{
    if pool.impermanent_loss_protection_fund < loss_amount {
        return Err(CustomError::NotEnoughFunds);
    }
    pool.impermanent_loss_protection_fund = pool.impermanent_loss_protection_fund - loss_amount;
    Ok(())
}

/// Zeroes the staker's principal and debits the pool total by that
/// amount, bypassing the minimum-duration lock entirely. Only available
/// while emergency mode is on. The weighted-stake snapshot is *not*
/// adjusted here; the payout itself is an external concern.
pub fn emergency_withdraw(pool: &mut Pool, staker: &mut Staker) -> (result: Result<
    (),
    CustomError,
>)
    requires
        old(pool).is_emergency ==> old(staker).amount <= old(pool).total_staked,
    ensures
        result == Err::<(), CustomError>(CustomError::EmergencyNotActivated)
            <==> !old(pool).is_emergency,
        !old(pool).is_emergency ==> *final(pool) == *old(pool) && *final(staker) == *old(staker),
        old(pool).is_emergency ==> {
            &&& result == Ok::<(), CustomError>(())
            &&& final(staker).amount == 0
            &&& final(staker).owner == old(staker).owner
            &&& final(staker).deposit_timestamp == old(staker).deposit_timestamp
            &&& final(pool).total_staked == old(pool).total_staked - old(staker).amount
            &&& final(pool).total_rewards == old(pool).total_rewards
            &&& final(pool).total_weighted_stake == old(pool).total_weighted_stake
            &&& crate::state::pool_config_unchanged(*old(pool), *final(pool))
        },
{
    if !pool.is_emergency {
        return Err(CustomError::EmergencyNotActivated);
    }
    let amount = staker.amount;
    staker.amount = 0;
    pool.total_staked = pool.total_staked - amount;
    Ok(())
}

/// Guard, not a mutation: passes only once the staker's deposit is at
/// least `FLASH_LOAN_COOLDOWN` seconds old. Meant to be composed before
/// sensitive actions rather than invoked standalone.
pub fn prevent_flash_loans(staker: &Staker, now: i64) -> (result: Result<(), CustomError>)
    requires
        staker.deposit_timestamp + FLASH_LOAN_COOLDOWN <= i64::MAX,
    ensures
        result == Err::<(), CustomError>(CustomError::FlashLoanDetected)
            <==> now < staker.deposit_timestamp + FLASH_LOAN_COOLDOWN,
        result == Ok::<(), CustomError>(())
            <==> now >= staker.deposit_timestamp + FLASH_LOAN_COOLDOWN,
{
    if now < staker.deposit_timestamp + FLASH_LOAN_COOLDOWN {
        return Err(CustomError::FlashLoanDetected);
    }
    Ok(())
}

/// Multi-signature governance action: requires at least
/// `MIN_GOVERNANCE_SIGNATURES` presented signer identities. The count is
/// over presented entries exactly as given — no deduplication and no
/// membership check against `governance` — and the proposal's effect
/// itself is abstract, external to this core.
#[allow(unused_variables)]
pub fn execute_governance_action(
    governance: &Governance,
    proposal_id: u64,
    signatures: &Vec<AccountId>,
) -> (result: Result<(), CustomError>)
    ensures
        result == Err::<(), CustomError>(CustomError::NotEnoughSignatures)
            <==> signatures@.len() < MIN_GOVERNANCE_SIGNATURES,
        result == Ok::<(), CustomError>(())
            <==> signatures@.len() >= MIN_GOVERNANCE_SIGNATURES,
{
    if signatures.len() < MIN_GOVERNANCE_SIGNATURES {
        return Err(CustomError::NotEnoughSignatures);
    }
    Ok(())
}

/// Debits `amount` of collected fees from the treasury. The payout
/// destination is an external concern.
pub fn allocate_treasury_funds(treasury: &mut Treasury, amount: u64) -> (result: Result<
    (),
    CustomError,
>)
    ensures
        result == Err::<(), CustomError>(CustomError::NotEnoughFunds)
            <==> old(treasury).collected_fees < amount,
        old(treasury).collected_fees < amount ==> *final(treasury) == *old(treasury),
        old(treasury).collected_fees >= amount ==> {
            &&& result == Ok::<(), CustomError>(())
            &&& final(treasury).collected_fees == old(treasury).collected_fees - amount
        },
{
    if treasury.collected_fees < amount {
        return Err(CustomError::NotEnoughFunds);
    }
    treasury.collected_fees = treasury.collected_fees - amount;
    Ok(())
}

} // verus!
