use dsmm::errors::CustomError;
use dsmm::governance::{
    adjust_fee_based_on_performance, allocate_treasury_funds, compensate_lp_losses,
    emergency_withdraw, execute_governance_action, prevent_flash_loans, update_fee_structure,
};
use dsmm::staking::stake;
use dsmm::state::{initialize_pool, Governance, Staker, Treasury};

const MINT: u64 = 7;
const ADMIN: u64 = 99;

#[test]
fn update_fee_structure_requires_admin() {
    let mut pool = initialize_pool(1, MINT, 10, 20, ADMIN);
    let r = update_fee_structure(&mut pool, ADMIN + 1, 30, 40);
    assert_eq!(r, Err(CustomError::Unauthorized));
    assert_eq!(pool.maker_fee_rate, 10);
    assert_eq!(pool.taker_fee_rate, 20);
}

#[test]
fn update_fee_structure_applies_any_rate() {
    // The unconditional path applies no bound: even the largest u16
    // values are accepted. The bounded path is the performance variant.
    let mut pool = initialize_pool(1, MINT, 10, 20, ADMIN);
    let r = update_fee_structure(&mut pool, ADMIN, u16::MAX, 2000);
    assert_eq!(r, Ok(()));
    assert_eq!(pool.maker_fee_rate, u16::MAX);
    assert_eq!(pool.taker_fee_rate, 2000);
}

#[test]
fn adjust_fee_rejects_rates_above_bound() {
    let mut pool = initialize_pool(1, MINT, 10, 20, ADMIN);
    assert_eq!(
        adjust_fee_based_on_performance(&mut pool, ADMIN, 1001, 5),
        Err(CustomError::InvalidFeeRate)
    );
    assert_eq!(
        adjust_fee_based_on_performance(&mut pool, ADMIN, 5, 1001),
        Err(CustomError::InvalidFeeRate)
    );
    assert_eq!(pool.maker_fee_rate, 10);
    assert_eq!(pool.taker_fee_rate, 20);
}

#[test]
fn adjust_fee_accepts_bound_and_checks_admin_first() {
    let mut pool = initialize_pool(1, MINT, 10, 20, ADMIN);
    // A non-admin caller is rejected before the rates are looked at.
    assert_eq!(
        adjust_fee_based_on_performance(&mut pool, ADMIN + 1, 1001, 1001),
        Err(CustomError::Unauthorized)
    );
    assert_eq!(adjust_fee_based_on_performance(&mut pool, ADMIN, 1000, 1000), Ok(()));
    assert_eq!(pool.maker_fee_rate, 1000);
    assert_eq!(pool.taker_fee_rate, 1000);
}

#[test]
fn compensate_lp_losses_debits_fund() {
    let mut pool = initialize_pool(1, MINT, 10, 20, ADMIN);
    pool.impermanent_loss_protection_fund = 100;
    assert_eq!(compensate_lp_losses(&mut pool, 101), Err(CustomError::NotEnoughFunds));
    assert_eq!(pool.impermanent_loss_protection_fund, 100);
    assert_eq!(compensate_lp_losses(&mut pool, 60), Ok(()));
    assert_eq!(pool.impermanent_loss_protection_fund, 40);
}

#[test]
fn emergency_withdraw_gated_on_emergency_mode() {
    // A staker holding 500 cannot use the emergency path while the flag
    // is off; once the admin turns it on, the path succeeds and zeroes
    // the record regardless of the lock-up.
    let mut pool = initialize_pool(1, MINT, 10, 20, ADMIN);
    let mut staker = Staker { owner: 5, amount: 0, deposit_timestamp: 0 };
    assert_eq!(stake(&mut pool, &mut staker, MINT, 500, 0), Ok(()));
    assert_eq!(emergency_withdraw(&mut pool, &mut staker), Err(CustomError::EmergencyNotActivated));
    assert_eq!(staker.amount, 500);
    pool.is_emergency = true;
    assert_eq!(emergency_withdraw(&mut pool, &mut staker), Ok(()));
    assert_eq!(staker.amount, 0);
    assert_eq!(pool.total_staked, 0);
    // The weighted-stake snapshot is not adjusted on this path.
    assert_eq!(pool.total_weighted_stake, 500);
}

#[test]
fn prevent_flash_loans_cooldown_boundary() {
    let staker = Staker { owner: 5, amount: 100, deposit_timestamp: 1000 };
    assert_eq!(prevent_flash_loans(&staker, 1599), Err(CustomError::FlashLoanDetected));
    assert_eq!(prevent_flash_loans(&staker, 1600), Ok(()));
}

#[test]
fn governance_action_needs_two_signatures() {
    let governance = Governance { admin_1: 1, admin_2: 2, admin_3: 3 };
    let one: Vec<u64> = vec![1];
    assert_eq!(
        execute_governance_action(&governance, 42, &one),
        Err(CustomError::NotEnoughSignatures)
    );
    let two: Vec<u64> = vec![1, 2];
    assert_eq!(execute_governance_action(&governance, 42, &two), Ok(()));
    // The check counts presented entries as given, duplicates included.
    let dup: Vec<u64> = vec![1, 1];
    assert_eq!(execute_governance_action(&governance, 42, &dup), Ok(()));
}

#[test]
fn allocate_treasury_funds_debits_fees() {
    let mut treasury = Treasury { collected_fees: 50 };
    assert_eq!(allocate_treasury_funds(&mut treasury, 51), Err(CustomError::NotEnoughFunds));
    assert_eq!(treasury.collected_fees, 50);
    assert_eq!(allocate_treasury_funds(&mut treasury, 20), Ok(()));
    assert_eq!(treasury.collected_fees, 30);
}
