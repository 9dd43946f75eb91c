//! Error taxonomy for rejected state transitions.
//!
//! Every failure is terminal for the attempted operation: no partial state
//! is committed and the specific kind is surfaced to the caller.

use vstd::prelude::*;

verus! {

/// Why a state transition was rejected. Each operation's contract states
/// exactly which inputs produce which variant.
#[derive(Clone, Copy, Debug, PartialEq, Eq, Structural)]
pub enum CustomError {
    /// Withdrawal asks for more than the staker's principal.
    InsufficientStake,
    /// Reward distribution requested while the reward balance is zero.
    NoRewardsAvailable,
    /// Reward distribution requested while nothing is staked.
    NoStakedFunds,
    /// Withdrawal attempted before the minimum stake duration elapsed.
    StakeTimeNotReached,
    /// Caller is not the recorded admin for a governance-gated action.
    Unauthorized,
    /// The presented token account's mint does not match the pool's mint.
    InvalidTokenMint,
    /// A performance-adjusted fee rate exceeds the allowed bound.
    InvalidFeeRate,
    /// A debit asks for more than the available balance.
    NotEnoughFunds,
    /// Emergency-only path used while emergency mode is off.
    EmergencyNotActivated,
    /// Action attempted too soon after the deposit (flash-loan guard).
    FlashLoanDetected,
    /// A multi-party action was presented with too few signers.
    NotEnoughSignatures,
}

} // verus!
