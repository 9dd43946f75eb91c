//! Ledger records: pool aggregates, per-staker principal, governance set,
//! and the treasury balance.
//!
//! Identities (the admin, a staker's owner, a token mint) are carried as
//! plain account identifiers: the logic only ever compares them for
//! equality; resolving an identifier to an actual account is the
//! surrounding execution environment's concern.

use vstd::prelude::*;

verus! {

/// Identifier of an on-ledger account or asset mint. The core only
/// compares identities for equality, so a plain number suffices.
pub type AccountId = u64;

/// Aggregate record for one stake/reward market.
///
/// `total_staked` must equal the sum of all stakers' `amount` at all
/// times. `total_weighted_stake` equals the sum of all stakers' weights
/// as of the last mutating stake/withdraw event (it is a snapshot, not
/// continuously recomputed as time passes). `total_rewards` increases
/// only via recorded trade profit and decreases only via distribution.
#[derive(Clone, Copy, Debug, PartialEq, Eq, Structural)]
pub struct Pool {
    /// Seed bump for the pool's delegated signing authority.
    pub bump: u8,
    /// Sum of all stakers' current principal.
    pub total_staked: u64,
    /// Undistributed reward balance awaiting claim.
    pub total_rewards: u64,
    /// Sum of all stakers' weighted stake as of the last mutation.
    pub total_weighted_stake: u64,
    /// Mint of the asset this pool stakes.
    pub token_mint: AccountId,
    /// Maker fee in basis points.
    pub maker_fee_rate: u16,
    /// Taker fee in basis points.
    pub taker_fee_rate: u16,
    /// Identity authorized for parameter changes.
    pub admin: AccountId,
    /// Reserve balance for impermanent-loss compensation.
    pub impermanent_loss_protection_fund: u64,
    /// Gate for the emergency-only withdrawal path.
    pub is_emergency: bool,
}

/// Per-participant record: current principal and the time it was (first)
/// deposited. `deposit_timestamp` is set when principal transitions from
/// zero to non-zero and is never reset while `amount > 0`.
#[derive(Clone, Copy, Debug, PartialEq, Eq, Structural)]
pub struct Staker {
    /// The participant this record belongs to.
    pub owner: AccountId,
    /// Current principal.
    pub amount: u64,
    /// Unix time of the deposit that took `amount` from zero to non-zero.
    pub deposit_timestamp: i64,
}

/// Set of identities authorized for multi-signature actions.
#[derive(Clone, Copy, Debug, PartialEq, Eq, Structural)]
pub struct Governance {
    pub admin_1: AccountId,
    pub admin_2: AccountId,
    pub admin_3: AccountId,
}

/// Collected-fee balance, spent via governance allocation; its credit
/// path (fee collection) is external to this core.
#[derive(Clone, Copy, Debug, PartialEq, Eq, Structural)]
pub struct Treasury {
    pub collected_fees: u64,
}

/// The pool's configuration and governance-owned balances are the same
/// in both records: everything but the three staking/reward aggregates.
pub open spec fn pool_config_unchanged(p0: Pool, p1: Pool) -> bool {
    &&& p1.bump == p0.bump
    &&& p1.token_mint == p0.token_mint
    &&& p1.maker_fee_rate == p0.maker_fee_rate
    &&& p1.taker_fee_rate == p0.taker_fee_rate
    &&& p1.admin == p0.admin
    &&& p1.impermanent_loss_protection_fund == p0.impermanent_loss_protection_fund
    &&& p1.is_emergency == p0.is_emergency
}

/// Builds the pool record for a new market: all balances zero, emergency
/// mode off, configuration as supplied.
pub fn initialize_pool(
    bump: u8,
    token_mint: AccountId,
    maker_fee_rate: u16,
    taker_fee_rate: u16,
    admin: AccountId,
) -> (pool: Pool)
    ensures
        pool.bump == bump,
        pool.total_staked == 0,
        pool.total_rewards == 0,
        pool.total_weighted_stake == 0,
        pool.token_mint == token_mint,
        pool.maker_fee_rate == maker_fee_rate,
        pool.taker_fee_rate == taker_fee_rate,
        pool.admin == admin,
        pool.impermanent_loss_protection_fund == 0,
        pool.is_emergency == false,
{
    Pool {
        bump,
        total_staked: 0,
        total_rewards: 0,
        total_weighted_stake: 0,
        token_mint,
        maker_fee_rate,
        taker_fee_rate,
        admin,
        impermanent_loss_protection_fund: 0,
        is_emergency: false,
    }
}

} // verus!
