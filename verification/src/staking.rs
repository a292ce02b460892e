use vstd::prelude::*;
use crate::constants::{
    BPS_DENOMINATOR, MIN_STAKE_AMOUNT, SECONDS_PER_YEAR, STAKE_RECEIPT_DENOMINATOR,
    STAKE_RECEIPT_NUMERATOR, YIELD_APY_PERCENT, YIELD_CALCULATION_PERIOD,
};
use crate::errors::ErrorCode;
use crate::state::{StakeAccount, User};

verus! {

/// Receipt tokens estimated for delegating `amount` native units: a
/// conservative haircut of the stake pool's rate, saturating at the 64-bit
/// maximum before the division, as the executable arithmetic does.
pub open spec fn spec_receipt_for_stake(amount: int) -> int {
    if amount * STAKE_RECEIPT_NUMERATOR > u64::MAX {
        u64::MAX as int / STAKE_RECEIPT_DENOMINATOR as int
    } else {
        (amount * STAKE_RECEIPT_NUMERATOR) / STAKE_RECEIPT_DENOMINATOR as int
    }
}

/// Native units estimated for undelegating `receipt` tokens at the given
/// APY: `receipt * (10000 + apy) / 10000`, saturating at the 64-bit maximum
/// before the division.
pub open spec fn spec_sol_for_receipt(receipt: int, apy_bps: int) -> int {
    if receipt * (BPS_DENOMINATOR + apy_bps) > u64::MAX {
        u64::MAX as int / BPS_DENOMINATOR as int
    } else {
        (receipt * (BPS_DENOMINATOR + apy_bps)) / BPS_DENOMINATOR as int
    }
}

/// Receipt tokens that must be undelegated to obtain `needed` native units
/// at the given APY: the inverse of `spec_sol_for_receipt`, saturating the
/// same way.
pub open spec fn spec_receipt_needed(needed: int, apy_bps: int) -> int {
    if needed * BPS_DENOMINATOR > u64::MAX {
        u64::MAX as int / (BPS_DENOMINATOR + apy_bps)
    } else {
        (needed * BPS_DENOMINATOR) / (BPS_DENOMINATOR + apy_bps)
    }
}

/// A stake record that is not yet in use: never written, or fully unwound.
pub open spec fn spec_stake_fresh(sa: StakeAccount) -> bool {
    sa.user == 0 || !sa.is_active
}

/// The error with which a stake call is rejected, if any, in the order the
/// checks are made: minimum stake, available balance, record and ledger
/// arithmetic.
pub open spec fn spec_stake_err(user: User, sa: StakeAccount, amount: u64) -> Option<ErrorCode> {
    let receipt = spec_receipt_for_stake(amount as int);
    if amount < MIN_STAKE_AMOUNT {
        Some(ErrorCode::MinimumStakeNotMet)
    } else if user.spec_available_balance() < amount {
        Some(ErrorCode::InsufficientAvailableBalance)
    } else if !spec_stake_fresh(sa) && sa.staked_amount + amount > u64::MAX {
        Some(ErrorCode::ArithmeticOverflow)
    } else if !spec_stake_fresh(sa) && sa.jito_sol_amount + receipt > u64::MAX {
        Some(ErrorCode::ArithmeticOverflow)
    } else if user.staked_sol + amount > u64::MAX {
        Some(ErrorCode::ArithmeticOverflow)
    } else {
        None
    }
}

/// The stake record after a successful stake of `amount` at `now`: a fresh
/// record is created for the user; an active one accumulates.
pub open spec fn spec_staked_account(
    sa: StakeAccount,
    user: User,
    amount: u64,
    now: i64,
) -> StakeAccount {
    let receipt = spec_receipt_for_stake(amount as int);
    if spec_stake_fresh(sa) {
        StakeAccount {
            user: user.wallet,
            staked_amount: amount,
            jito_sol_amount: receipt as u64,
            stake_date: now,
            last_yield_claim: now,
            total_yield_earned: 0,
            is_active: true,
        }
    } else {
        StakeAccount {
            staked_amount: (sa.staked_amount + amount) as u64,
            jito_sol_amount: (sa.jito_sol_amount + receipt) as u64,
            ..sa
        }
    }
}

/// Delegates `amount` lamports of the user's available balance to the
/// liquid-staking service.
///
/// The amount moves from the deposited to the staked balance, and the stake
/// record books the receipt tokens the delegation is estimated to return.
/// On success the caller performs the delegation.  No state is mutated on
/// any failure.
pub fn stake_sol(user: &mut User, stake_acct: &mut StakeAccount, amount: u64, now: i64) -> (r:
    Result<(), ErrorCode>)
    requires
        old(user).wf(),
    ensures
        r is Ok <==> spec_stake_err(*old(user), *old(stake_acct), amount) is None,
        r is Err ==> Some(r->Err_0) == spec_stake_err(*old(user), *old(stake_acct), amount),
        r is Err ==> *final(user) == *old(user) && *final(stake_acct) == *old(stake_acct),
        r is Ok ==> *final(user) == (User {
            deposited_sol: (old(user).deposited_sol - amount) as u64,
            staked_sol: (old(user).staked_sol + amount) as u64,
            ..*old(user)
        }),
        r is Ok ==> *final(stake_acct) == spec_staked_account(
            *old(stake_acct),
            *old(user),
            amount,
            now,
        ),
        final(user).wf(),
{
    if amount < MIN_STAKE_AMOUNT {
        return Err(ErrorCode::MinimumStakeNotMet);
    }
    if user.available_balance() < amount {
        return Err(ErrorCode::InsufficientAvailableBalance);
    }
    let scaled: u64 = match amount.checked_mul(STAKE_RECEIPT_NUMERATOR) {
        Some(v) => v,
        None => u64::MAX,
    };
    let receipt: u64 = scaled / STAKE_RECEIPT_DENOMINATOR;
    let fresh: bool = stake_acct.user == 0 || !stake_acct.is_active;
    let new_stake_acct: StakeAccount = if fresh {
        StakeAccount {
            user: user.wallet,
            staked_amount: amount,
            jito_sol_amount: receipt,
            stake_date: now,
            last_yield_claim: now,
            total_yield_earned: 0,
            is_active: true,
        }
    } else {
        let staked_amount: u64 = match stake_acct.staked_amount.checked_add(amount) {
            Some(v) => v,
            None => {
                return Err(ErrorCode::ArithmeticOverflow);
            },
        };
        let jito_sol_amount: u64 = match stake_acct.jito_sol_amount.checked_add(receipt) {
            Some(v) => v,
            None => {
                return Err(ErrorCode::ArithmeticOverflow);
            },
        };
        StakeAccount { staked_amount, jito_sol_amount, ..*stake_acct }
    };
    let staked_sol: u64 = match user.staked_sol.checked_add(amount) {
        Some(v) => v,
        None => {
            return Err(ErrorCode::ArithmeticOverflow);
        },
    };
    user.deposited_sol = user.deposited_sol - amount;
    user.staked_sol = staked_sol;
    *stake_acct = new_stake_acct;
    Ok(())
}

/// The error with which an unstake call is rejected, if any, in the order
/// the checks are made: record identity and state, amount, receipt balance,
/// and the accounting arithmetic on the estimated proceeds.
pub open spec fn spec_unstake_err(
    user: User,
    sa: StakeAccount,
    jito_sol_amount: u64,
    jito_apy_bps: u16,
) -> Option<ErrorCode> {
    let estimated = spec_sol_for_receipt(jito_sol_amount as int, jito_apy_bps as int);
    if sa.user != user.wallet {
        Some(ErrorCode::UnauthorizedUser)
    } else if !sa.is_active {
        Some(ErrorCode::StakingNotAvailable)
    } else if jito_sol_amount == 0 {
        Some(ErrorCode::InvalidAmount)
    } else if sa.jito_sol_amount < jito_sol_amount {
        Some(ErrorCode::InsufficientStakedFunds)
    } else if sa.staked_amount < estimated {
        Some(ErrorCode::ArithmeticUnderflow)
    } else if user.staked_sol < estimated {
        Some(ErrorCode::ArithmeticUnderflow)
    } else if user.deposited_sol + estimated > u64::MAX {
        Some(ErrorCode::ArithmeticOverflow)
    } else {
        None
    }
}

/// The stake record after undelegating `jito_sol_amount` receipt tokens
/// whose estimated proceeds are `estimated`: it deactivates once the staked
/// amount reaches zero.
pub open spec fn spec_unstaked_account(
    sa: StakeAccount,
    jito_sol_amount: u64,
    estimated: int,
) -> StakeAccount {
    StakeAccount {
        jito_sol_amount: (sa.jito_sol_amount - jito_sol_amount) as u64,
        staked_amount: (sa.staked_amount - estimated) as u64,
        is_active: sa.is_active && sa.staked_amount - estimated != 0,
        ..sa
    }
}

/// Undelegates `jito_sol_amount` receipt tokens from the liquid-staking
/// service.
///
/// The proceeds are estimated from the given APY; they move from the staked
/// back to the deposited balance, and the position deactivates once fully
/// unwound.  On success the caller performs the withdrawal.  No state is
/// mutated on any failure.
pub fn unstake_sol(
    user: &mut User,
    stake_acct: &mut StakeAccount,
    jito_sol_amount: u64,
    jito_apy_bps: u16,
) -> (r: Result<(), ErrorCode>)
    requires
        old(user).wf(),
    ensures
        r is Ok <==> spec_unstake_err(
            *old(user),
            *old(stake_acct),
            jito_sol_amount,
            jito_apy_bps,
        ) is None,
        r is Err ==> Some(r->Err_0) == spec_unstake_err(
            *old(user),
            *old(stake_acct),
            jito_sol_amount,
            jito_apy_bps,
        ),
        r is Err ==> *final(user) == *old(user) && *final(stake_acct) == *old(stake_acct),
        r is Ok ==> *final(user) == (User {
            deposited_sol: (old(user).deposited_sol + spec_sol_for_receipt(
                jito_sol_amount as int,
                jito_apy_bps as int,
            )) as u64,
            staked_sol: (old(user).staked_sol - spec_sol_for_receipt(
                jito_sol_amount as int,
                jito_apy_bps as int,
            )) as u64,
            ..*old(user)
        }),
        r is Ok ==> *final(stake_acct) == spec_unstaked_account(
            *old(stake_acct),
            jito_sol_amount,
            spec_sol_for_receipt(jito_sol_amount as int, jito_apy_bps as int),
        ),
        final(user).wf(),
{
    if stake_acct.user != user.wallet {
        return Err(ErrorCode::UnauthorizedUser);
    }
    if !stake_acct.is_active {
        return Err(ErrorCode::StakingNotAvailable);
    }
    if jito_sol_amount == 0 {
        return Err(ErrorCode::InvalidAmount);
    }
    if stake_acct.jito_sol_amount < jito_sol_amount {
        return Err(ErrorCode::InsufficientStakedFunds);
    }
    let estimated: u64 = estimate_sol_for_receipt(jito_sol_amount, jito_apy_bps);
    if stake_acct.staked_amount < estimated {
        return Err(ErrorCode::ArithmeticUnderflow);
    }
    if user.staked_sol < estimated {
        return Err(ErrorCode::ArithmeticUnderflow);
    }
    let deposited: u64 = match user.deposited_sol.checked_add(estimated) {
        Some(v) => v,
        None => {
            return Err(ErrorCode::ArithmeticOverflow);
        },
    };
    stake_acct.jito_sol_amount = stake_acct.jito_sol_amount - jito_sol_amount;
    stake_acct.staked_amount = stake_acct.staked_amount - estimated;
    if stake_acct.staked_amount == 0 {
        stake_acct.is_active = false;
    }
    user.staked_sol = user.staked_sol - estimated;
    user.deposited_sol = deposited;
    Ok(())
}

/// The receipt tokens that a withdrawal of `withdraw_amount` must
/// undelegate: enough (at the given APY) to cover the shortfall against the
/// on-hand balance, but no more than the position holds.
pub open spec fn spec_unstake_needed_receipt(
    user: User,
    sa: StakeAccount,
    withdraw_amount: u64,
    apy_bps: u16,
) -> int {
    let needed = withdraw_amount - user.deposited_sol;
    let want = spec_receipt_needed(needed, apy_bps as int);
    if want <= sa.jito_sol_amount {
        want
    } else {
        sa.jito_sol_amount as int
    }
}

/// The error with which the pre-withdrawal unstake step is rejected, if
/// any: a shortfall with no receipt tokens to unwind, then the accounting
/// arithmetic on the estimated proceeds.  A withdrawal already covered by
/// the on-hand balance needs nothing and passes.
pub open spec fn spec_unstake_needed_err(
    user: User,
    sa_opt: Option<StakeAccount>,
    withdraw_amount: u64,
    apy_bps: u16,
) -> Option<ErrorCode> {
    if user.deposited_sol >= withdraw_amount {
        None
    } else if sa_opt is None {
        Some(ErrorCode::InsufficientBalance)
    } else if sa_opt->0.jito_sol_amount == 0 {
        Some(ErrorCode::InsufficientBalance)
    } else {
        let sa = sa_opt->0;
        let to_unstake = spec_unstake_needed_receipt(user, sa, withdraw_amount, apy_bps);
        let estimated = spec_sol_for_receipt(to_unstake, apy_bps as int);
        if sa.staked_amount < estimated {
            Some(ErrorCode::ArithmeticUnderflow)
        } else if user.staked_sol < estimated {
            Some(ErrorCode::ArithmeticUnderflow)
        } else if user.deposited_sol + estimated > u64::MAX {
            Some(ErrorCode::ArithmeticOverflow)
        } else {
            None
        }
    }
}

/// Unwinds just enough of the stake position to cover a withdrawal that
/// the on-hand balance cannot.
///
/// Returns the receipt tokens to undelegate (zero where the balance
/// already suffices, so nothing changes); the estimated proceeds move from
/// the staked to the deposited balance.  On success the caller performs
/// the undelegation before transferring the withdrawal out.
pub fn unstake_sol_if_needed(
    user: &mut User,
    stake_acct: &mut Option<StakeAccount>,
    withdraw_amount: u64,
    jito_apy_bps: u16,
) -> (r: Result<u64, ErrorCode>)
    ensures
        r is Ok <==> spec_unstake_needed_err(
            *old(user),
            *old(stake_acct),
            withdraw_amount,
            jito_apy_bps,
        ) is None,
        r is Err ==> Some(r->Err_0) == spec_unstake_needed_err(
            *old(user),
            *old(stake_acct),
            withdraw_amount,
            jito_apy_bps,
        ),
        r is Err ==> *final(user) == *old(user) && *final(stake_acct) == *old(stake_acct),
        r is Ok && old(user).deposited_sol >= withdraw_amount ==> r->Ok_0 == 0 && *final(user)
            == *old(user) && *final(stake_acct) == *old(stake_acct),
        r is Ok && old(user).deposited_sol < withdraw_amount ==> r->Ok_0
            == spec_unstake_needed_receipt(
            *old(user),
            old(stake_acct)->0,
            withdraw_amount,
            jito_apy_bps,
        ),
        r is Ok && old(user).deposited_sol < withdraw_amount ==> *final(user) == (User {
            deposited_sol: (old(user).deposited_sol + spec_sol_for_receipt(
                r->Ok_0 as int,
                jito_apy_bps as int,
            )) as u64,
            staked_sol: (old(user).staked_sol - spec_sol_for_receipt(
                r->Ok_0 as int,
                jito_apy_bps as int,
            )) as u64,
            ..*old(user)
        }),
        r is Ok && old(user).deposited_sol < withdraw_amount ==> *final(stake_acct) == Some(
            spec_unstaked_account(
                old(stake_acct)->0,
                r->Ok_0,
                spec_sol_for_receipt(r->Ok_0 as int, jito_apy_bps as int),
            ),
        ),
        old(user).wf() ==> final(user).wf(),
{
    if user.deposited_sol >= withdraw_amount {
        return Ok(0);
    }
    let needed: u64 = withdraw_amount - user.deposited_sol;
    match stake_acct {
        None => Err(ErrorCode::InsufficientBalance),
        Some(sa) => {
            if sa.jito_sol_amount == 0 {
                return Err(ErrorCode::InsufficientBalance);
            }
            let multiplier: u64 = BPS_DENOMINATOR + (jito_apy_bps as u64);
            let scaled: u64 = match needed.checked_mul(BPS_DENOMINATOR) {
                Some(v) => v,
                None => u64::MAX,
            };
            let jito_needed: u64 = scaled / multiplier;
            let to_unstake: u64 = if jito_needed < sa.jito_sol_amount {
                jito_needed
            } else {
                sa.jito_sol_amount
            };
            let estimated: u64 = estimate_sol_for_receipt(to_unstake, jito_apy_bps);
            if sa.staked_amount < estimated {
                return Err(ErrorCode::ArithmeticUnderflow);
            }
            if user.staked_sol < estimated {
                return Err(ErrorCode::ArithmeticUnderflow);
            }
            let deposited: u64 = match user.deposited_sol.checked_add(estimated) {
                Some(v) => v,
                None => {
                    return Err(ErrorCode::ArithmeticOverflow);
                },
            };
            sa.jito_sol_amount = sa.jito_sol_amount - to_unstake;
            sa.staked_amount = sa.staked_amount - estimated;
            if sa.staked_amount == 0 {
                sa.is_active = false;
            }
            user.staked_sol = user.staked_sol - estimated;
            user.deposited_sol = deposited;
            Ok(to_unstake)
        },
    }
}

/// Estimates the native proceeds of undelegating `receipt` tokens.
fn estimate_sol_for_receipt(receipt: u64, apy_bps: u16) -> (r: u64)
    ensures
        r == spec_sol_for_receipt(receipt as int, apy_bps as int),
{
    let multiplier: u64 = BPS_DENOMINATOR + (apy_bps as u64);
    let scaled: u64 = match receipt.checked_mul(multiplier) {
        Some(v) => v,
        None => u64::MAX,
    };
    scaled / BPS_DENOMINATOR
}

/// The yield accrued on `staked` lamports over `elapsed` seconds at the
/// simple linear rate: `staked * 5% * elapsed / seconds-per-year`, clamped
/// to zero where the 64-bit arithmetic would overflow.
pub open spec fn spec_yield_amount(staked: int, elapsed: int) -> int {
    let base = (staked * YIELD_APY_PERCENT) / 100;
    if staked * YIELD_APY_PERCENT > u64::MAX {
        0
    } else if base * elapsed > u64::MAX {
        0
    } else {
        (base * elapsed) / SECONDS_PER_YEAR as int
    }
}

/// The error with which a yield claim is rejected, if any: record identity
/// and state, the claim period, then the crediting arithmetic.
pub open spec fn spec_claim_yield_err(user: User, sa: StakeAccount, now: i64) -> Option<
    ErrorCode,
> {
    let elapsed = now - sa.last_yield_claim;
    let amount = spec_yield_amount(sa.staked_amount as int, elapsed);
    if sa.user != user.wallet {
        Some(ErrorCode::UnauthorizedUser)
    } else if !sa.is_active {
        Some(ErrorCode::StakingNotAvailable)
    } else if elapsed < YIELD_CALCULATION_PERIOD {
        Some(ErrorCode::PaymentNotDue)
    } else if amount > 0 && sa.total_yield_earned + amount > u64::MAX {
        Some(ErrorCode::ArithmeticOverflow)
    } else if amount > 0 && user.deposited_sol + amount > u64::MAX {
        Some(ErrorCode::ArithmeticOverflow)
    } else {
        None
    }
}

/// Credits the yield accrued since the last claim to the deposited balance.
///
/// A claim is allowed only once the claim period has elapsed; the yield is
/// computed by the linear-rate formula rather than queried from the
/// staking service.  A zero yield leaves all state (the claim time
/// included) unchanged.  On success the caller transfers the returned
/// amount into the user's vault.
pub fn claim_yield(user: &mut User, stake_acct: &mut StakeAccount, now: i64) -> (r: Result<
    u64,
    ErrorCode,
>)
    ensures
        r is Ok <==> spec_claim_yield_err(*old(user), *old(stake_acct), now) is None,
        r is Err ==> Some(r->Err_0) == spec_claim_yield_err(*old(user), *old(stake_acct), now),
        r is Err ==> *final(user) == *old(user) && *final(stake_acct) == *old(stake_acct),
        r is Ok ==> r->Ok_0 == spec_yield_amount(
            old(stake_acct).staked_amount as int,
            now - old(stake_acct).last_yield_claim,
        ),
        r is Ok && r->Ok_0 == 0 ==> *final(user) == *old(user) && *final(stake_acct) == *old(
            stake_acct,
        ),
        r is Ok && r->Ok_0 > 0 ==> *final(user) == (User {
            deposited_sol: (old(user).deposited_sol + r->Ok_0) as u64,
            ..*old(user)
        }),
        r is Ok && r->Ok_0 > 0 ==> *final(stake_acct) == (StakeAccount {
            total_yield_earned: (old(stake_acct).total_yield_earned + r->Ok_0) as u64,
            last_yield_claim: now,
            ..*old(stake_acct)
        }),
        old(user).wf() ==> final(user).wf(),
{
    if stake_acct.user != user.wallet {
        return Err(ErrorCode::UnauthorizedUser);
    }
    if !stake_acct.is_active {
        return Err(ErrorCode::StakingNotAvailable);
    }
    let elapsed_wide: i128 = (now as i128) - (stake_acct.last_yield_claim as i128);
    if elapsed_wide < YIELD_CALCULATION_PERIOD as i128 {
        return Err(ErrorCode::PaymentNotDue);
    }
    let elapsed: u64 = elapsed_wide as u64;
    let yield_amount: u64 = match stake_acct.staked_amount.checked_mul(YIELD_APY_PERCENT) {
        Some(scaled) => {
            let base: u64 = scaled / 100;
            match base.checked_mul(elapsed) {
                Some(accrued) => accrued / SECONDS_PER_YEAR,
                None => 0,
            }
        },
        None => 0,
    };
    if yield_amount > 0 {
        let total: u64 = match stake_acct.total_yield_earned.checked_add(yield_amount) {
            Some(v) => v,
            None => {
                return Err(ErrorCode::ArithmeticOverflow);
            },
        };
        let deposited: u64 = match user.deposited_sol.checked_add(yield_amount) {
            Some(v) => v,
            None => {
                return Err(ErrorCode::ArithmeticOverflow);
            },
        };
        stake_acct.total_yield_earned = total;
        stake_acct.last_yield_claim = now;
        user.deposited_sol = deposited;
    }
    Ok(yield_amount)
}

} // verus!
