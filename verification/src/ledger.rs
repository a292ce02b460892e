use vstd::prelude::*;
use crate::errors::ErrorCode;
use crate::state::{GlobalState, User};

verus! {

impl User {
    /// A fresh ledger record for `wallet`, created at `now`.
    pub fn new(wallet: u64, now: i64) -> (r: User)
        ensures
            r == (User {
                wallet,
                deposited_sol: 0,
                locked_sol: 0,
                staked_sol: 0,
                created_at: now,
            }),
    {
        User { wallet, deposited_sol: 0, locked_sol: 0, staked_sol: 0, created_at: now }
    }

    /// The deposited balance minus locked collateral, clamped at zero.
    pub fn available_balance(&self) -> (r: u64)
        ensures
            r == self.spec_available_balance(),
    {
        if self.deposited_sol >= self.locked_sol {
            self.deposited_sol - self.locked_sol
        } else {
            0
        }
    }
}

/// The ledger record after its first-use initialization: a record whose
/// `wallet` is still zero is set up for `wallet` at `now`.
pub open spec fn spec_deposit_init(u: User, wallet: u64, now: i64) -> User {
    if u.wallet == 0 {
        User { wallet, deposited_sol: 0, locked_sol: 0, staked_sol: 0, created_at: now }
    } else {
        u
    }
}

/// Credits `amount` to the user's deposited balance, creating the record on
/// first use.  On success the caller transfers `amount` into the vault.
pub fn deposit(user: &mut User, global: &GlobalState, wallet: u64, amount: u64, now: i64) -> (r:
    Result<(), ErrorCode>)
    ensures
        r == Err::<(), ErrorCode>(ErrorCode::ProtocolPaused) <==> global.is_paused,
        !global.is_paused ==> (r == Err::<(), ErrorCode>(ErrorCode::InvalidAmount) <==> amount
            == 0),
        !global.is_paused && amount > 0 ==> (r == Err::<(), ErrorCode>(
            ErrorCode::ArithmeticOverflow,
        ) <==> spec_deposit_init(*old(user), wallet, now).deposited_sol + amount > u64::MAX),
        r is Ok <==> !global.is_paused && amount > 0 && spec_deposit_init(
            *old(user),
            wallet,
            now,
        ).deposited_sol + amount <= u64::MAX,
        r is Ok ==> *final(user) == (User {
            deposited_sol: (spec_deposit_init(*old(user), wallet, now).deposited_sol
                + amount) as u64,
            ..spec_deposit_init(*old(user), wallet, now)
        }),
        r is Err ==> *final(user) == *old(user),
        old(user).wf() ==> final(user).wf(),
{
    if global.is_paused {
        return Err(ErrorCode::ProtocolPaused);
    }
    if amount == 0 {
        return Err(ErrorCode::InvalidAmount);
    }
    let base: User = if user.wallet == 0 {
        User::new(wallet, now)
    } else {
        *user
    };
    match base.deposited_sol.checked_add(amount) {
        Some(total) => {
            *user = User { deposited_sol: total, ..base };
            Ok(())
        },
        None => Err(ErrorCode::ArithmeticOverflow),
    }
}

/// Debits `amount` from the deposited balance.  Fails on a zero amount, on a
/// balance below `amount`, and on locked collateral making the liquid part
/// insufficient.  On success the caller transfers `amount` out of the vault.
pub fn withdraw(user: &mut User, amount: u64) -> (r: Result<(), ErrorCode>)
    ensures
        r == Err::<(), ErrorCode>(ErrorCode::InvalidAmount) <==> amount == 0,
        amount > 0 ==> (r == Err::<(), ErrorCode>(ErrorCode::InsufficientBalance) <==> old(
            user,
        ).deposited_sol < amount),
        amount > 0 && old(user).deposited_sol >= amount ==> (r == Err::<(), ErrorCode>(
            ErrorCode::InsufficientAvailableBalance,
        ) <==> old(user).spec_available_balance() < amount),
        r is Ok <==> amount > 0 && old(user).deposited_sol >= amount && old(
            user,
        ).spec_available_balance() >= amount,
        r is Ok ==> *final(user) == (User {
            deposited_sol: (old(user).deposited_sol - amount) as u64,
            ..*old(user)
        }),
        r is Err ==> *final(user) == *old(user),
        old(user).wf() ==> final(user).wf(),
{
    if amount == 0 {
        return Err(ErrorCode::InvalidAmount);
    }
    if user.deposited_sol < amount {
        return Err(ErrorCode::InsufficientBalance);
    }
    if user.available_balance() < amount {
        return Err(ErrorCode::InsufficientAvailableBalance);
    }
    user.deposited_sol = user.deposited_sol - amount;
    Ok(())
}

/// Reserves `amount` of the deposited balance as subscription collateral.
pub fn lock(user: &mut User, amount: u64) -> (r: Result<(), ErrorCode>)
    ensures
        r == Err::<(), ErrorCode>(ErrorCode::InsufficientAvailableBalance) <==> old(
            user,
        ).spec_available_balance() < amount,
        r is Ok <==> old(user).spec_available_balance() >= amount,
        r is Ok ==> *final(user) == (User {
            locked_sol: (old(user).locked_sol + amount) as u64,
            ..*old(user)
        }),
        r is Err ==> *final(user) == *old(user),
        old(user).wf() ==> final(user).wf(),
{
    if user.available_balance() < amount {
        return Err(ErrorCode::InsufficientAvailableBalance);
    }
    user.locked_sol = user.locked_sol + amount;
    Ok(())
}

/// Releases up to `amount` of locked collateral, clamping at zero rather
/// than underflowing.
pub fn unlock(user: &mut User, amount: u64)
    ensures
        *final(user) == (User {
            locked_sol: if old(user).locked_sol >= amount {
                (old(user).locked_sol - amount) as u64
            } else {
                0
            },
            ..*old(user)
        }),
        old(user).wf() ==> final(user).wf(),
{
    if user.locked_sol >= amount {
        user.locked_sol = user.locked_sol - amount;
    } else {
        user.locked_sol = 0;
    }
}

/// Moves `amount` from the liquid deposited balance into the staked balance.
pub fn move_to_staked(user: &mut User, amount: u64) -> (r: Result<(), ErrorCode>)
    ensures
        r == Err::<(), ErrorCode>(ErrorCode::InsufficientAvailableBalance) <==> old(
            user,
        ).spec_available_balance() < amount,
        old(user).spec_available_balance() >= amount ==> (r == Err::<(), ErrorCode>(
            ErrorCode::ArithmeticOverflow,
        ) <==> old(user).staked_sol + amount > u64::MAX),
        r is Ok <==> old(user).spec_available_balance() >= amount && old(user).staked_sol
            + amount <= u64::MAX,
        r is Ok ==> *final(user) == (User {
            deposited_sol: (old(user).deposited_sol - amount) as u64,
            staked_sol: (old(user).staked_sol + amount) as u64,
            ..*old(user)
        }),
        r is Err ==> *final(user) == *old(user),
        old(user).wf() ==> final(user).wf(),
{
    if user.available_balance() < amount {
        return Err(ErrorCode::InsufficientAvailableBalance);
    }
    match user.staked_sol.checked_add(amount) {
        Some(staked) => {
            user.deposited_sol = user.deposited_sol - amount;
            user.staked_sol = staked;
            Ok(())
        },
        None => Err(ErrorCode::ArithmeticOverflow),
    }
}

/// Moves `amount` from the staked balance back into the deposited balance.
pub fn move_from_staked(user: &mut User, amount: u64) -> (r: Result<(), ErrorCode>)
    ensures
        r == Err::<(), ErrorCode>(ErrorCode::InsufficientStakedFunds) <==> old(user).staked_sol
            < amount,
        old(user).staked_sol >= amount ==> (r == Err::<(), ErrorCode>(
            ErrorCode::ArithmeticOverflow,
        ) <==> old(user).deposited_sol + amount > u64::MAX),
        r is Ok <==> old(user).staked_sol >= amount && old(user).deposited_sol + amount
            <= u64::MAX,
        r is Ok ==> *final(user) == (User {
            deposited_sol: (old(user).deposited_sol + amount) as u64,
            staked_sol: (old(user).staked_sol - amount) as u64,
            ..*old(user)
        }),
        r is Err ==> *final(user) == *old(user),
        old(user).wf() ==> final(user).wf(),
{
    if user.staked_sol < amount {
        return Err(ErrorCode::InsufficientStakedFunds);
    }
    match user.deposited_sol.checked_add(amount) {
        Some(deposited) => {
            user.deposited_sol = deposited;
            user.staked_sol = user.staked_sol - amount;
            Ok(())
        },
        None => Err(ErrorCode::ArithmeticOverflow),
    }
}

} // verus!
