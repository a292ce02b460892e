use subly::errors::ErrorCode;
use subly::staking::{claim_yield, stake_sol, unstake_sol, unstake_sol_if_needed};
use subly::state::{StakeAccount, User};

const STAKER: u64 = 7;

fn staker(deposited: u64, locked: u64) -> User {
    User { wallet: STAKER, deposited_sol: deposited, locked_sol: locked, staked_sol: 0, created_at: 0 }
}

fn empty_stake() -> StakeAccount {
    StakeAccount {
        user: 0,
        staked_amount: 0,
        jito_sol_amount: 0,
        stake_date: 0,
        last_yield_claim: 0,
        total_yield_earned: 0,
        is_active: false,
    }
}

#[test]
fn stake_below_minimum_rejected() {
    let mut user = staker(5_000_000_000, 0);
    let mut sa = empty_stake();
    assert_eq!(
        stake_sol(&mut user, &mut sa, 999_999_999, 100),
        Err(ErrorCode::MinimumStakeNotMet)
    );
    assert_eq!(user.staked_sol, 0);
}

#[test]
fn stake_needs_available_balance() {
    // deposited covers the amount, but most of it is locked collateral
    let mut user = staker(5_000_000_000, 4_500_000_000);
    let mut sa = empty_stake();
    assert_eq!(
        stake_sol(&mut user, &mut sa, 1_000_000_000, 100),
        Err(ErrorCode::InsufficientAvailableBalance)
    );
    assert!(!sa.is_active);
}

#[test]
fn stake_moves_balance_and_books_receipts() {
    let mut user = staker(5_000_000_000, 0);
    let mut sa = empty_stake();
    assert_eq!(stake_sol(&mut user, &mut sa, 2_000_000_000, 100), Ok(()));
    assert_eq!(user.deposited_sol, 3_000_000_000);
    assert_eq!(user.staked_sol, 2_000_000_000);
    assert_eq!(sa.user, STAKER);
    assert_eq!(sa.staked_amount, 2_000_000_000);
    // the receipt estimate applies the two-percent haircut
    assert_eq!(sa.jito_sol_amount, 1_960_000_000);
    assert_eq!(sa.stake_date, 100);
    assert_eq!(sa.last_yield_claim, 100);
    assert_eq!(sa.total_yield_earned, 0);
    assert!(sa.is_active);
}

#[test]
fn stake_accumulates_on_active_position() {
    let mut user = staker(5_000_000_000, 0);
    let mut sa = empty_stake();
    stake_sol(&mut user, &mut sa, 2_000_000_000, 100).unwrap();
    stake_sol(&mut user, &mut sa, 1_000_000_000, 200).unwrap();
    assert_eq!(sa.staked_amount, 3_000_000_000);
    assert_eq!(sa.jito_sol_amount, 1_960_000_000 + 980_000_000);
    assert_eq!(sa.stake_date, 100); // the position keeps its original date
    assert_eq!(user.staked_sol, 3_000_000_000);
}

#[test]
fn unstake_estimates_proceeds_from_apy() {
    let mut user = staker(5_000_000_000, 0);
    let mut sa = empty_stake();
    stake_sol(&mut user, &mut sa, 2_000_000_000, 100).unwrap();
    // 1_000_000_000 receipt tokens at 2% APY return 1_020_000_000 lamports
    assert_eq!(unstake_sol(&mut user, &mut sa, 1_000_000_000, 200), Ok(()));
    assert_eq!(sa.jito_sol_amount, 960_000_000);
    assert_eq!(sa.staked_amount, 980_000_000);
    assert!(sa.is_active);
    assert_eq!(user.staked_sol, 980_000_000);
    assert_eq!(user.deposited_sol, 3_000_000_000 + 1_020_000_000);
}

#[test]
fn unstake_rejections() {
    let mut user = staker(5_000_000_000, 0);
    let mut sa = empty_stake();
    assert_eq!(
        unstake_sol(&mut user, &mut sa, 1, 200),
        Err(ErrorCode::UnauthorizedUser)
    );
    stake_sol(&mut user, &mut sa, 2_000_000_000, 100).unwrap();
    assert_eq!(unstake_sol(&mut user, &mut sa, 0, 200), Err(ErrorCode::InvalidAmount));
    assert_eq!(
        unstake_sol(&mut user, &mut sa, 1_960_000_001, 200),
        Err(ErrorCode::InsufficientStakedFunds)
    );
    let mut inactive = sa;
    inactive.is_active = false;
    assert_eq!(
        unstake_sol(&mut user, &mut inactive, 1, 200),
        Err(ErrorCode::StakingNotAvailable)
    );
    // at an absurd APY the estimated proceeds exceed the booked stake
    assert_eq!(
        unstake_sol(&mut user, &mut sa, 1_960_000_000, 10_000),
        Err(ErrorCode::ArithmeticUnderflow)
    );
}

#[test]
fn position_deactivates_when_fully_unwound() {
    let mut user = staker(5_000_000_000, 0);
    let mut sa = empty_stake();
    stake_sol(&mut user, &mut sa, 1_000_000_000, 100).unwrap();
    // at 0 bps the proceeds equal the receipt amount; 980_000_000 receipts
    // return 980_000_000 lamports, leaving 20_000_000 staked
    assert_eq!(unstake_sol(&mut user, &mut sa, 980_000_000, 0), Ok(()));
    assert_eq!(sa.staked_amount, 20_000_000);
    assert!(sa.is_active);
    // unwinding the rest empties and deactivates the position
    sa.jito_sol_amount = 20_000_000;
    assert_eq!(unstake_sol(&mut user, &mut sa, 20_000_000, 0), Ok(()));
    assert_eq!(sa.staked_amount, 0);
    assert!(!sa.is_active);
}

#[test]
fn withdrawal_covered_by_balance_needs_no_unstake() {
    let mut user = staker(1_000_000_000, 0);
    let mut sa: Option<StakeAccount> = None;
    assert_eq!(unstake_sol_if_needed(&mut user, &mut sa, 500_000_000, 200), Ok(0));
    assert_eq!(user.deposited_sol, 1_000_000_000);
}

#[test]
fn withdrawal_shortfall_without_stake_fails() {
    let mut user = staker(100_000_000, 0);
    let mut sa: Option<StakeAccount> = None;
    assert_eq!(
        unstake_sol_if_needed(&mut user, &mut sa, 500_000_000, 200),
        Err(ErrorCode::InsufficientBalance)
    );
}

#[test]
fn withdrawal_shortfall_unwinds_just_enough() {
    let mut user = staker(2_100_000_000, 0);
    let mut sa = empty_stake();
    stake_sol(&mut user, &mut sa, 2_000_000_000, 100).unwrap();
    assert_eq!(user.deposited_sol, 100_000_000);
    let mut opt = Some(sa);
    // 400_000_000 lamports are missing; at 0 bps that takes 400_000_000 receipts
    assert_eq!(unstake_sol_if_needed(&mut user, &mut opt, 500_000_000, 0), Ok(400_000_000));
    assert_eq!(user.deposited_sol, 500_000_000);
    assert_eq!(user.staked_sol, 1_600_000_000);
    let after = opt.unwrap();
    assert_eq!(after.jito_sol_amount, 1_960_000_000 - 400_000_000);
    assert_eq!(after.staked_amount, 1_600_000_000);
}

#[test]
fn yield_claim_needs_a_full_period() {
    let mut user = staker(5_000_000_000, 0);
    let mut sa = empty_stake();
    stake_sol(&mut user, &mut sa, 1_000_000_000, 0).unwrap();
    assert_eq!(claim_yield(&mut user, &mut sa, 86_399), Err(ErrorCode::PaymentNotDue));
    let mut other = staker(0, 0);
    other.wallet = 1_234;
    assert_eq!(claim_yield(&mut other, &mut sa, 86_400), Err(ErrorCode::UnauthorizedUser));
}

#[test]
fn yield_claim_credits_linear_rate() {
    let mut user = staker(5_000_000_000, 0);
    let mut sa = empty_stake();
    stake_sol(&mut user, &mut sa, 1_000_000_000, 0).unwrap();
    let deposited_before = user.deposited_sol;
    // three days on 1 SOL at 5% a year: 1e9 * 5 / 100 * 259200 / 31536000
    assert_eq!(claim_yield(&mut user, &mut sa, 3 * 86_400), Ok(410_958));
    assert_eq!(user.deposited_sol, deposited_before + 410_958);
    assert_eq!(sa.total_yield_earned, 410_958);
    assert_eq!(sa.last_yield_claim, 3 * 86_400);
    // a second claim immediately afterwards is not due yet
    assert_eq!(claim_yield(&mut user, &mut sa, 3 * 86_400 + 1), Err(ErrorCode::PaymentNotDue));
}

#[test]
fn zero_yield_claim_changes_nothing() {
    let mut user = staker(5_000_000_000, 0);
    let mut sa = empty_stake();
    stake_sol(&mut user, &mut sa, 1_000_000_000, 0).unwrap();
    sa.staked_amount = 0; // nothing staked, nothing accrues
    let before = sa;
    assert_eq!(claim_yield(&mut user, &mut sa, 86_400), Ok(0));
    assert_eq!(sa, before); // the claim time in particular is kept
}
