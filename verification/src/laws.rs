use vstd::prelude::*;
use vstd::arithmetic::div_mod::lemma_div_pos_is_pos;
use vstd::arithmetic::mul::lemma_mul_nonnegative;
use crate::constants::{
    LAMPORTS_PER_SOL, LOCKED_PERIODS, MAX_PRICE_AGE_QUERY, MAX_PRICE_AGE_SETTLEMENT,
    SECONDS_PER_DAY,
};
use crate::errors::ErrorCode;
use crate::affordability::spec_affordability_err;
use crate::price::{
    price_cents_overflows, price_in_band, price_stale, spec_price_cents, spec_usd_to_lamports,
    PriceObservation,
};
use crate::settlement::{
    spec_execute_payment_err, spec_payment_due, spec_run_batch_err, spec_settled_subscription,
};
use crate::state::{GlobalState, Provider, SubscriptionService, User, UserSubscription};
use crate::subscription::{
    spec_existing_active, spec_new_subscription, spec_required_lock, spec_subscribe_err,
    spec_unsubscribe_err,
};

verus! {

/// Ledger invariant: all balances are non-negative (by their unsigned
/// type), and locked collateral never exceeds the deposited balance.
/// Every operation of the library that creates or mutates a `User` record
/// establishes or preserves `wf`, so this holds at every observable point.
pub proof fn lemma_ledger_invariant(u: User)
    requires
        u.wf(),
    ensures
        u.locked_sol <= u.deposited_sol,
        u.deposited_sol >= 0 && u.locked_sol >= 0 && u.staked_sol >= 0,
{
}

/// Round trip: subscribing and then immediately unsubscribing at the same
/// oracle quote leaves the user's ledger record — locked collateral and
/// deposited balance included — exactly as it was, and the unsubscribe is
/// accepted.  (The two operations never touch the deposited balance, so it
/// is unchanged net of any settlement charged in between.)
pub proof fn lemma_subscribe_unsubscribe_roundtrip(
    user: User,
    svc: SubscriptionService,
    provider_acct: Provider,
    global: GlobalState,
    existing: Option<UserSubscription>,
    obs: PriceObservation,
    now: i64,
)
    requires
        user.wf(),
        svc.wf(),
        spec_subscribe_err(user, svc, provider_acct, global, existing, obs, now) is None,
    ensures
        ({
            let rate = spec_price_cents(obs.price as int, obs.expo as int);
            let lock_amount = spec_required_lock(svc.fee_usd, rate);
            let user_subscribed = User {
                locked_sol: (user.locked_sol + lock_amount) as u64,
                ..user
            };
            let sub = spec_new_subscription(user, svc, now);
            let svc_subscribed = SubscriptionService {
                current_subscribers: (svc.current_subscribers + 1) as u64,
                ..svc
            };
            let user_unsubscribed = User {
                locked_sol: if user_subscribed.locked_sol >= lock_amount {
                    (user_subscribed.locked_sol - lock_amount) as u64
                } else {
                    0
                },
                ..user_subscribed
            };
            &&& spec_unsubscribe_err(
                user_subscribed,
                sub,
                svc_subscribed,
                global,
                obs,
                now,
            ) is None
            &&& user_unsubscribed == user
            &&& user_subscribed.deposited_sol == user.deposited_sol
            &&& user_unsubscribed.deposited_sol == user.deposited_sol
        }),
{
    let rate = spec_price_cents(obs.price as int, obs.expo as int);
    let monthly = spec_usd_to_lamports(svc.fee_usd as int, rate);
    lemma_div_pos_is_pos(svc.fee_usd * LAMPORTS_PER_SOL as int, rate);
    lemma_mul_nonnegative(monthly, LOCKED_PERIODS as int);
    let lock_amount = spec_required_lock(svc.fee_usd, rate);
    let user_subscribed = User { locked_sol: (user.locked_sol + lock_amount) as u64, ..user };
    assert(user_subscribed.locked_sol >= lock_amount);
}

/// A payment whose due date lies in the future is always rejected as not
/// yet due — and, by the contract of `execute_subscription_payment`, a
/// rejected payment mutates no balance.  (With the protocol paused or the
/// records mismatched, those rejections come first instead.)
pub proof fn lemma_premature_payment_rejected(
    user: User,
    sub: UserSubscription,
    svc: SubscriptionService,
    global: GlobalState,
    obs: PriceObservation,
    now: i64,
)
    requires
        sub.user == user.wallet,
        sub.provider == svc.provider,
        sub.service_id == svc.service_id,
        !global.is_paused,
        now < sub.next_payment_due,
    ensures
        spec_execute_payment_err(user, sub, svc, global, obs, now) == Some(
            ErrorCode::PaymentNotDue,
        ),
{
}

/// No double charge: a payment accepted at `now` advances the due date a
/// full billing period past `now`, so running the settlement again for the
/// same cycle, at the same time and against the settled record, is
/// rejected as not yet due.
pub proof fn lemma_no_double_charge(
    user: User,
    sub: UserSubscription,
    svc: SubscriptionService,
    global: GlobalState,
    obs: PriceObservation,
    now: i64,
)
    requires
        svc.wf(),
        spec_execute_payment_err(user, sub, svc, global, obs, now) is None,
    ensures
        ({
            let settled = spec_settled_subscription(sub, svc, now);
            let fee = spec_usd_to_lamports(
                svc.fee_usd as int,
                spec_price_cents(obs.price as int, obs.expo as int),
            );
            let user_debited = User {
                deposited_sol: (user.deposited_sol - fee) as u64,
                ..user
            };
            &&& !spec_payment_due(settled, now)
            &&& spec_execute_payment_err(user_debited, settled, svc, global, obs, now) == Some(
                ErrorCode::PaymentNotDue,
            )
        }),
{
    let settled = spec_settled_subscription(sub, svc, now);
    assert(svc.billing_frequency_days * SECONDS_PER_DAY >= 7 * 86400) by (nonlinear_arith)
        requires svc.billing_frequency_days >= 7 && SECONDS_PER_DAY == 86400;
    assert(settled.next_payment_due == now + svc.billing_frequency_days * SECONDS_PER_DAY);
    assert(settled.next_payment_due > now);
}

/// An oracle quote whose fiat value per native unit lies outside the
/// sanity band is rejected by every consumer — subscribe, unsubscribe,
/// the settlement scan, payment execution, and the affordability query —
/// with the same error kind, and before any state is touched.
pub proof fn lemma_out_of_band_price_rejected_everywhere(
    user: User,
    sub: UserSubscription,
    svc: SubscriptionService,
    provider_acct: Provider,
    global: GlobalState,
    existing: Option<UserSubscription>,
    services: Seq<SubscriptionService>,
    jito_apy_bps: u16,
    obs: PriceObservation,
    now: i64,
)
    requires
        // a fresh, positive, machine-representable quote outside the band
        !price_stale(obs.publish_time, now, MAX_PRICE_AGE_QUERY),
        !price_stale(obs.publish_time, now, MAX_PRICE_AGE_SETTLEMENT),
        obs.price > 0,
        !price_cents_overflows(obs.price as int, obs.expo as int),
        !price_in_band(spec_price_cents(obs.price as int, obs.expo as int)),
        // the checks that precede the price check pass in each consumer
        svc.is_active,
        svc.provider != user.wallet,
        !spec_existing_active(existing),
        !global.is_paused,
        sub.user == user.wallet,
        sub.provider == svc.provider,
        sub.service_id == svc.service_id,
        sub.is_active,
        spec_payment_due(sub, now),
        user.spec_available_balance() * jito_apy_bps <= u64::MAX,
    ensures
        spec_subscribe_err(user, svc, provider_acct, global, existing, obs, now) == Some(
            ErrorCode::InvalidPrice,
        ),
        spec_unsubscribe_err(user, sub, svc, global, obs, now) == Some(ErrorCode::InvalidPrice),
        spec_run_batch_err(global, obs, now) == Some(ErrorCode::InvalidPrice),
        spec_execute_payment_err(user, sub, svc, global, obs, now) == Some(
            ErrorCode::InvalidPrice,
        ),
        spec_affordability_err(user, services, jito_apy_bps, obs, now) == Some(
            ErrorCode::InvalidPrice,
        ),
{
}

} // verus!
