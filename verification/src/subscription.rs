use vstd::prelude::*;
use crate::constants::{LOCKED_PERIODS, MAX_PRICE_AGE_QUERY, SECONDS_PER_DAY};
use crate::errors::ErrorCode;
use crate::ledger::{lock, unlock};
use crate::price::{
    convert_usd_to_sol_lamports, get_validated_price, spec_price_cents, spec_price_err,
    spec_usd_to_lamports, PriceObservation,
};
use crate::state::{GlobalState, Provider, SubscriptionService, User, UserSubscription};

verus! {

/// Lamports reserved as collateral on subscribe: `LOCKED_PERIODS` billing
/// periods of the fee at the given rate.
pub open spec fn spec_required_lock(fee_usd: u64, rate_cents: int) -> int {
    spec_usd_to_lamports(fee_usd as int, rate_cents) * LOCKED_PERIODS
}

/// Whether a record passed as the existing subscription for the triple is
/// active, so that a second subscription is refused.
pub open spec fn spec_existing_active(existing: Option<UserSubscription>) -> bool {
    existing is Some && existing->0.is_active
}

/// The error with which a subscribe call is rejected, if any, in the order
/// the checks are made: service state, self-subscription, duplicate record,
/// pause flag, oracle quote, collateral arithmetic, available balance,
/// schedule arithmetic, subscriber counters.
pub open spec fn spec_subscribe_err(
    user: User,
    svc: SubscriptionService,
    provider_acct: Provider,
    global: GlobalState,
    existing: Option<UserSubscription>,
    obs: PriceObservation,
    now: i64,
) -> Option<ErrorCode> {
    let rate = spec_price_cents(obs.price as int, obs.expo as int);
    let monthly = spec_usd_to_lamports(svc.fee_usd as int, rate);
    let required = spec_required_lock(svc.fee_usd, rate);
    if !svc.is_active {
        Some(ErrorCode::ServiceNotActive)
    } else if svc.provider == user.wallet {
        Some(ErrorCode::CannotSubscribeToOwnService)
    } else if spec_existing_active(existing) {
        Some(ErrorCode::SubscriptionAlreadyExists)
    } else if global.is_paused {
        Some(ErrorCode::ProtocolPaused)
    } else if spec_price_err(obs, now, MAX_PRICE_AGE_QUERY) is Some {
        spec_price_err(obs, now, MAX_PRICE_AGE_QUERY)
    } else if monthly > u64::MAX {
        Some(ErrorCode::ArithmeticOverflow)
    } else if required > u64::MAX {
        Some(ErrorCode::ArithmeticOverflow)
    } else if user.spec_available_balance() < required {
        Some(ErrorCode::InsufficientAvailableBalance)
    } else if now + svc.billing_frequency_days * SECONDS_PER_DAY > i64::MAX {
        Some(ErrorCode::ArithmeticOverflow)
    } else if svc.current_subscribers == u64::MAX {
        Some(ErrorCode::ArithmeticOverflow)
    } else if provider_acct.total_subscribers == u64::MAX {
        Some(ErrorCode::ArithmeticOverflow)
    } else {
        None
    }
}

/// The subscription record a successful subscribe call creates.
pub open spec fn spec_new_subscription(
    user: User,
    svc: SubscriptionService,
    now: i64,
) -> UserSubscription {
    UserSubscription {
        user: user.wallet,
        provider: svc.provider,
        service_id: svc.service_id,
        subscription_id: svc.service_id,
        subscribed_at: now,
        last_payment_at: None,
        next_payment_due: (now + svc.billing_frequency_days * SECONDS_PER_DAY) as i64,
        total_payments_made: 0,
        is_active: true,
        unsubscribed_at: None,
        has_certificate: true,
    }
}

/// Subscribes the user to a service.
///
/// Twelve billing periods of the fee, valued at the current oracle rate, are
/// locked as collateral; the subscription's first payment falls due one
/// billing period from `now`.  On success the caller mints the subscription
/// certificate (recorded in `has_certificate`).  No state is mutated on any
/// failure.
pub fn subscribe_to_service(
    user: &mut User,
    svc: &mut SubscriptionService,
    provider_acct: &mut Provider,
    global: &GlobalState,
    existing: Option<&UserSubscription>,
    obs: &PriceObservation,
    now: i64,
) -> (r: Result<UserSubscription, ErrorCode>)
    requires
        old(user).wf(),
        old(svc).wf(),
    ensures
        r is Ok <==> spec_subscribe_err(
            *old(user),
            *old(svc),
            *old(provider_acct),
            *global,
            match existing {
                Some(e) => Some(*e),
                None => None,
            },
            *obs,
            now,
        ) is None,
        r is Err ==> Some(r->Err_0) == spec_subscribe_err(
            *old(user),
            *old(svc),
            *old(provider_acct),
            *global,
            match existing {
                Some(e) => Some(*e),
                None => None,
            },
            *obs,
            now,
        ),
        r is Err ==> *final(user) == *old(user) && *final(svc) == *old(svc)
            && *final(provider_acct) == *old(provider_acct),
        r is Ok ==> *final(user) == (User {
            locked_sol: (old(user).locked_sol + spec_required_lock(
                old(svc).fee_usd,
                spec_price_cents(obs.price as int, obs.expo as int),
            )) as u64,
            ..*old(user)
        }),
        r is Ok ==> *final(svc) == (SubscriptionService {
            current_subscribers: (old(svc).current_subscribers + 1) as u64,
            ..*old(svc)
        }),
        r is Ok ==> *final(provider_acct) == (Provider {
            total_subscribers: (old(provider_acct).total_subscribers + 1) as u64,
            ..*old(provider_acct)
        }),
        r is Ok ==> r->Ok_0 == spec_new_subscription(*old(user), *old(svc), now),
        r is Ok ==> r->Ok_0.wf(),
        final(user).wf(),
        final(svc).wf(),
{
    if !svc.is_active {
        return Err(ErrorCode::ServiceNotActive);
    }
    if svc.provider == user.wallet {
        return Err(ErrorCode::CannotSubscribeToOwnService);
    }
    let existing_active: bool = match existing {
        Some(e) => e.is_active,
        None => false,
    };
    if existing_active {
        return Err(ErrorCode::SubscriptionAlreadyExists);
    }
    if global.is_paused {
        return Err(ErrorCode::ProtocolPaused);
    }
    let rate_cents: u64 = match get_validated_price(obs, now, MAX_PRICE_AGE_QUERY) {
        Ok(v) => v,
        Err(e) => {
            return Err(e);
        },
    };
    let monthly_fee_lamports: u64 = match convert_usd_to_sol_lamports(svc.fee_usd, rate_cents) {
        Ok(v) => v,
        Err(e) => {
            return Err(e);
        },
    };
    let required_locked_amount: u64 = match monthly_fee_lamports.checked_mul(LOCKED_PERIODS) {
        Some(v) => v,
        None => {
            return Err(ErrorCode::ArithmeticOverflow);
        },
    };
    if user.available_balance() < required_locked_amount {
        return Err(ErrorCode::InsufficientAvailableBalance);
    }
    let period_seconds: i64 = (svc.billing_frequency_days as i64) * SECONDS_PER_DAY;
    let next_payment_due: i64 = match now.checked_add(period_seconds) {
        Some(v) => v,
        None => {
            return Err(ErrorCode::ArithmeticOverflow);
        },
    };
    let next_subscribers: u64 = match svc.current_subscribers.checked_add(1) {
        Some(v) => v,
        None => {
            return Err(ErrorCode::ArithmeticOverflow);
        },
    };
    let next_total: u64 = match provider_acct.total_subscribers.checked_add(1) {
        Some(v) => v,
        None => {
            return Err(ErrorCode::ArithmeticOverflow);
        },
    };
    let subscription = UserSubscription {
        user: user.wallet,
        provider: svc.provider,
        service_id: svc.service_id,
        subscription_id: svc.service_id,
        subscribed_at: now,
        last_payment_at: None,
        next_payment_due,
        total_payments_made: 0,
        is_active: true,
        unsubscribed_at: None,
        has_certificate: true,
    };
    // the available-balance check above is exactly the lock's precondition
    let locked = lock(user, required_locked_amount);
    proof {
        assert(locked is Ok);
    }
    svc.current_subscribers = next_subscribers;
    provider_acct.total_subscribers = next_total;
    Ok(subscription)
}

/// The error with which an unsubscribe call is rejected, if any, in the
/// order the checks are made: record identity, pause flag, subscription
/// state, oracle quote, collateral arithmetic.
pub open spec fn spec_unsubscribe_err(
    user: User,
    sub: UserSubscription,
    svc: SubscriptionService,
    global: GlobalState,
    obs: PriceObservation,
    now: i64,
) -> Option<ErrorCode> {
    let rate = spec_price_cents(obs.price as int, obs.expo as int);
    let monthly = spec_usd_to_lamports(svc.fee_usd as int, rate);
    let required = spec_required_lock(svc.fee_usd, rate);
    if sub.user != user.wallet {
        Some(ErrorCode::UnauthorizedUser)
    } else if sub.provider != svc.provider {
        Some(ErrorCode::InvalidProvider)
    } else if sub.service_id != svc.service_id {
        Some(ErrorCode::InvalidServiceId)
    } else if global.is_paused {
        Some(ErrorCode::ProtocolPaused)
    } else if !sub.is_active {
        Some(ErrorCode::SubscriptionNotActive)
    } else if spec_price_err(obs, now, MAX_PRICE_AGE_QUERY) is Some {
        spec_price_err(obs, now, MAX_PRICE_AGE_QUERY)
    } else if monthly > u64::MAX {
        Some(ErrorCode::ArithmeticOverflow)
    } else if required > u64::MAX {
        Some(ErrorCode::ArithmeticOverflow)
    } else {
        None
    }
}

/// Cancels an active subscription.
///
/// The collateral for twelve billing periods, revalued at the current
/// oracle rate, is unlocked (clamped at zero rather than underflowing —
/// if the price moved since subscribing, the unlocked amount differs from
/// the amount originally locked).  The record is deactivated, never
/// deleted; the caller burns the certificate.  Subscriber counters fall
/// by one, saturating at zero.  No state is mutated on any failure.
pub fn unsubscribe_from_service(
    user: &mut User,
    sub: &mut UserSubscription,
    svc: &mut SubscriptionService,
    provider_acct: &mut Provider,
    global: &GlobalState,
    obs: &PriceObservation,
    now: i64,
) -> (r: Result<(), ErrorCode>)
    requires
        old(user).wf(),
        old(svc).wf(),
    ensures
        r is Ok <==> spec_unsubscribe_err(
            *old(user),
            *old(sub),
            *old(svc),
            *global,
            *obs,
            now,
        ) is None,
        r is Err ==> Some(r->Err_0) == spec_unsubscribe_err(
            *old(user),
            *old(sub),
            *old(svc),
            *global,
            *obs,
            now,
        ),
        r is Err ==> *final(user) == *old(user) && *final(sub) == *old(sub) && *final(svc)
            == *old(svc) && *final(provider_acct) == *old(provider_acct),
        r is Ok ==> *final(user) == (User {
            locked_sol: if old(user).locked_sol >= spec_required_lock(
                old(svc).fee_usd,
                spec_price_cents(obs.price as int, obs.expo as int),
            ) {
                (old(user).locked_sol - spec_required_lock(
                    old(svc).fee_usd,
                    spec_price_cents(obs.price as int, obs.expo as int),
                )) as u64
            } else {
                0
            },
            ..*old(user)
        }),
        r is Ok ==> *final(sub) == (UserSubscription {
            is_active: false,
            unsubscribed_at: Some(now),
            has_certificate: false,
            ..*old(sub)
        }),
        r is Ok ==> *final(svc) == (SubscriptionService {
            current_subscribers: if old(svc).current_subscribers >= 1 {
                (old(svc).current_subscribers - 1) as u64
            } else {
                0
            },
            ..*old(svc)
        }),
        r is Ok ==> *final(provider_acct) == (Provider {
            total_subscribers: if old(provider_acct).total_subscribers >= 1 {
                (old(provider_acct).total_subscribers - 1) as u64
            } else {
                0
            },
            ..*old(provider_acct)
        }),
        r is Ok ==> final(sub).wf(),
        final(user).wf(),
{
    if sub.user != user.wallet {
        return Err(ErrorCode::UnauthorizedUser);
    }
    if sub.provider != svc.provider {
        return Err(ErrorCode::InvalidProvider);
    }
    if sub.service_id != svc.service_id {
        return Err(ErrorCode::InvalidServiceId);
    }
    if global.is_paused {
        return Err(ErrorCode::ProtocolPaused);
    }
    if !sub.is_active {
        return Err(ErrorCode::SubscriptionNotActive);
    }
    let rate_cents: u64 = match get_validated_price(obs, now, MAX_PRICE_AGE_QUERY) {
        Ok(v) => v,
        Err(e) => {
            return Err(e);
        },
    };
    let monthly_fee_lamports: u64 = match convert_usd_to_sol_lamports(svc.fee_usd, rate_cents) {
        Ok(v) => v,
        Err(e) => {
            return Err(e);
        },
    };
    let locked_amount_for_subscription: u64 = match monthly_fee_lamports.checked_mul(
        LOCKED_PERIODS,
    ) {
        Some(v) => v,
        None => {
            return Err(ErrorCode::ArithmeticOverflow);
        },
    };
    unlock(user, locked_amount_for_subscription);
    sub.is_active = false;
    sub.unsubscribed_at = Some(now);
    sub.has_certificate = false;
    svc.current_subscribers = if svc.current_subscribers >= 1 {
        svc.current_subscribers - 1
    } else {
        0
    };
    provider_acct.total_subscribers = if provider_acct.total_subscribers >= 1 {
        provider_acct.total_subscribers - 1
    } else {
        0
    };
    Ok(())
}

/// What a query for the subscription of (user, provider, service) returns:
/// a record must match the queried triple before it is trusted, and the
/// answer is its `is_active` flag; no record means no subscription.
pub open spec fn spec_check_subscription(
    user_wallet: u64,
    sub: Option<UserSubscription>,
    provider: u64,
    service_id: u64,
) -> Result<bool, ErrorCode> {
    match sub {
        None => Ok(false),
        Some(s) => {
            if s.provider != provider {
                Err(ErrorCode::InvalidProvider)
            } else if s.service_id != service_id {
                Err(ErrorCode::InvalidServiceId)
            } else if s.user != user_wallet {
                Err(ErrorCode::UnauthorizedUser)
            } else {
                Ok(s.is_active)
            }
        },
    }
}

/// Reports whether the user holds an active subscription to the given
/// provider and service.
pub fn check_user_subscription(
    user_wallet: u64,
    sub: Option<&UserSubscription>,
    provider: u64,
    service_id: u64,
) -> (r: Result<bool, ErrorCode>)
    ensures
        r == spec_check_subscription(
            user_wallet,
            match sub {
                Some(s) => Some(*s),
                None => None,
            },
            provider,
            service_id,
        ),
{
    match sub {
        None => Ok(false),
        Some(s) => {
            if s.provider != provider {
                return Err(ErrorCode::InvalidProvider);
            }
            if s.service_id != service_id {
                return Err(ErrorCode::InvalidServiceId);
            }
            if s.user != user_wallet {
                return Err(ErrorCode::UnauthorizedUser);
            }
            Ok(s.is_active)
        },
    }
}

} // verus!
