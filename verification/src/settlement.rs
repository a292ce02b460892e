use vstd::prelude::*;
use crate::constants::{BPS_DENOMINATOR, MAX_PRICE_AGE_SETTLEMENT, SECONDS_PER_DAY};
use crate::errors::ErrorCode;
use crate::price::{
    convert_sol_to_usdc_amount, convert_usd_to_sol_lamports, get_validated_price,
    spec_price_cents, spec_price_err, spec_sol_to_usdc, spec_usd_to_lamports, PriceObservation,
};
use crate::state::{GlobalState, PaymentRecord, PaymentType, SubscriptionService, User,
    UserSubscription};
use vstd::arithmetic::div_mod::lemma_div_is_ordered;
use vstd::arithmetic::mul::lemma_mul_upper_bound;

verus! {

/// The error with which the batch scan phase is rejected, if any: the pause
/// flag, then the oracle quote.  The scan moves no funds; it only validates
/// preconditions and records the batch timestamp.
pub open spec fn spec_run_batch_err(global: GlobalState, obs: PriceObservation, now: i64) -> Option<
    ErrorCode,
> {
    if global.is_paused {
        Some(ErrorCode::ProtocolPaused)
    } else if spec_price_err(obs, now, MAX_PRICE_AGE_SETTLEMENT) is Some {
        spec_price_err(obs, now, MAX_PRICE_AGE_SETTLEMENT)
    } else {
        None
    }
}

/// Scan phase of the two-phase settlement batch: validates that the
/// protocol is live and a sane price is available, and records the batch
/// timestamp.  Individual due payments are then settled one by one with
/// `execute_subscription_payment`.
pub fn process_subscription_payments(
    global: &mut GlobalState,
    obs: &PriceObservation,
    now: i64,
) -> (r: Result<(), ErrorCode>)
    ensures
        r is Ok <==> spec_run_batch_err(*old(global), *obs, now) is None,
        r is Err ==> Some(r->Err_0) == spec_run_batch_err(*old(global), *obs, now),
        r is Ok ==> *final(global) == (GlobalState {
            last_payment_processed: now,
            ..*old(global)
        }),
        r is Err ==> *final(global) == *old(global),
{
    if global.is_paused {
        return Err(ErrorCode::ProtocolPaused);
    }
    match get_validated_price(obs, now, MAX_PRICE_AGE_SETTLEMENT) {
        Ok(_) => {},
        Err(e) => {
            return Err(e);
        },
    }
    global.last_payment_processed = now;
    Ok(())
}

/// A payment is due once the current time reaches `next_payment_due`.
pub open spec fn spec_payment_due(sub: UserSubscription, now: i64) -> bool {
    now >= sub.next_payment_due
}

/// Reports whether the subscription's next payment is due at `current_time`.
pub fn check_payment_due(sub: &UserSubscription, current_time: i64) -> (r: Result<
    bool,
    ErrorCode,
>)
    ensures
        r == Ok::<bool, ErrorCode>(spec_payment_due(*sub, current_time)),
{
    Ok(current_time >= sub.next_payment_due)
}

/// The protocol's cut of a fee, in lamports: `fee * bps / 10000`, with
/// integer division truncating toward zero.
pub open spec fn spec_protocol_fee(fee_lamports: int, bps: int) -> int {
    (fee_lamports * bps) / BPS_DENOMINATOR as int
}

/// Splits a fee into the protocol's cut and the provider's share.
///
/// The two parts always sum back to the fee, and the protocol's cut is
/// `fee * bps / 10000` exactly.
pub fn split_fee(fee_lamports: u64, protocol_fee_bps: u16) -> (r: Result<(u64, u64), ErrorCode>)
    ensures
        r is Ok <==> fee_lamports * protocol_fee_bps <= u64::MAX && spec_protocol_fee(
            fee_lamports as int,
            protocol_fee_bps as int,
        ) <= fee_lamports,
        fee_lamports * protocol_fee_bps <= u64::MAX ==> spec_protocol_fee(
            fee_lamports as int,
            protocol_fee_bps as int,
        ) <= fee_lamports || r == Err::<(u64, u64), ErrorCode>(ErrorCode::ArithmeticUnderflow),
        r is Err ==> r == Err::<(u64, u64), ErrorCode>(ErrorCode::ArithmeticOverflow) || r
            == Err::<(u64, u64), ErrorCode>(ErrorCode::ArithmeticUnderflow),
        r == Err::<(u64, u64), ErrorCode>(ErrorCode::ArithmeticOverflow) <==> fee_lamports
            * protocol_fee_bps > u64::MAX,
        r is Ok ==> r->Ok_0.0 == spec_protocol_fee(fee_lamports as int, protocol_fee_bps as int),
        r is Ok ==> r->Ok_0.0 + r->Ok_0.1 == fee_lamports,
        protocol_fee_bps <= BPS_DENOMINATOR ==> (r is Ok <==> fee_lamports * protocol_fee_bps
            <= u64::MAX),
{
    let scaled: u64 = match fee_lamports.checked_mul(protocol_fee_bps as u64) {
        Some(v) => v,
        None => {
            return Err(ErrorCode::ArithmeticOverflow);
        },
    };
    let protocol_fee: u64 = scaled / (BPS_DENOMINATOR as u64);
    proof {
        if protocol_fee_bps <= BPS_DENOMINATOR {
            lemma_mul_upper_bound(
                fee_lamports as int,
                fee_lamports as int,
                protocol_fee_bps as int,
                BPS_DENOMINATOR as int,
            );
            lemma_div_is_ordered(
                fee_lamports as int * protocol_fee_bps as int,
                fee_lamports as int * BPS_DENOMINATOR as int,
                BPS_DENOMINATOR as int,
            );
            vstd::arithmetic::div_mod::lemma_div_multiples_vanish(
                fee_lamports as int,
                BPS_DENOMINATOR as int,
            );
        }
    }
    match fee_lamports.checked_sub(protocol_fee) {
        Some(provider_share) => Ok((protocol_fee, provider_share)),
        None => Err(ErrorCode::ArithmeticUnderflow),
    }
}

/// The transfers that the caller performs after a successful payment:
/// `fee_lamports` leaves the user's vault, of which the provider's share
/// (paid as `provider_usdc_amount` of the payment token) goes to the
/// provider and the protocol fee to the treasury.
#[derive(Clone, Copy, Debug, PartialEq, Eq, Structural)]
pub struct PaymentBreakdown {
    pub fee_lamports: u64,
    pub protocol_fee_lamports: u64,
    pub provider_share_lamports: u64,
    pub provider_usdc_amount: u64,
}

/// The error with which a payment execution is rejected, if any, in the
/// order the checks are made: record identity, pause flag, due date,
/// subscription and service state, oracle quote, conversion and schedule
/// arithmetic, the user's liquid balance.
pub open spec fn spec_execute_payment_err(
    user: User,
    sub: UserSubscription,
    svc: SubscriptionService,
    global: GlobalState,
    obs: PriceObservation,
    now: i64,
) -> Option<ErrorCode> {
    let rate = spec_price_cents(obs.price as int, obs.expo as int);
    let fee = spec_usd_to_lamports(svc.fee_usd as int, rate);
    let protocol_fee = spec_protocol_fee(fee, global.protocol_fee_bps as int);
    if sub.user != user.wallet {
        Some(ErrorCode::UnauthorizedUser)
    } else if sub.provider != svc.provider {
        Some(ErrorCode::InvalidProvider)
    } else if sub.service_id != svc.service_id {
        Some(ErrorCode::InvalidServiceId)
    } else if global.is_paused {
        Some(ErrorCode::ProtocolPaused)
    } else if !spec_payment_due(sub, now) {
        Some(ErrorCode::PaymentNotDue)
    } else if !sub.is_active {
        Some(ErrorCode::SubscriptionNotActive)
    } else if !svc.is_active {
        Some(ErrorCode::ServiceNotActive)
    } else if spec_price_err(obs, now, MAX_PRICE_AGE_SETTLEMENT) is Some {
        spec_price_err(obs, now, MAX_PRICE_AGE_SETTLEMENT)
    } else if fee > u64::MAX {
        Some(ErrorCode::ArithmeticOverflow)
    } else if user.spec_available_balance() < fee {
        Some(ErrorCode::InsufficientBalance)
    } else if fee * global.protocol_fee_bps as int > u64::MAX {
        Some(ErrorCode::ArithmeticOverflow)
    } else if spec_sol_to_usdc(fee - protocol_fee, rate) > u64::MAX {
        Some(ErrorCode::ArithmeticOverflow)
    } else if now + svc.billing_frequency_days * SECONDS_PER_DAY > i64::MAX {
        Some(ErrorCode::ArithmeticOverflow)
    } else if sub.total_payments_made == u64::MAX {
        Some(ErrorCode::ArithmeticOverflow)
    } else {
        None
    }
}

/// The subscription record after a successful payment at `now`: the payment
/// is recorded and the next due date moves one billing period past `now`
/// (not past the old due date, so missed cycles are not backfilled).
pub open spec fn spec_settled_subscription(
    sub: UserSubscription,
    svc: SubscriptionService,
    now: i64,
) -> UserSubscription {
    UserSubscription {
        last_payment_at: Some(now),
        total_payments_made: (sub.total_payments_made + 1) as u64,
        next_payment_due: (now + svc.billing_frequency_days * SECONDS_PER_DAY) as i64,
        ..sub
    }
}

/// Settles one due subscription payment.
///
/// The fee is revalued at the current oracle rate, checked against the
/// user's liquid (unlocked, on-hand) balance, split into the protocol's cut
/// and the provider's share, and debited; the schedule advances one billing
/// period from `now`.  All checks precede all mutations: a rejected payment
/// (in particular one whose due date lies in the future, or a repeat of an
/// already-settled cycle) changes nothing.
pub fn execute_subscription_payment(
    user: &mut User,
    sub: &mut UserSubscription,
    svc: &SubscriptionService,
    global: &GlobalState,
    obs: &PriceObservation,
    now: i64,
) -> (r: Result<PaymentBreakdown, ErrorCode>)
    requires
        old(user).wf(),
        old(sub).wf(),
        svc.wf(),
        global.wf(),
    ensures
        r is Ok <==> spec_execute_payment_err(
            *old(user),
            *old(sub),
            *svc,
            *global,
            *obs,
            now,
        ) is None,
        r is Err ==> Some(r->Err_0) == spec_execute_payment_err(
            *old(user),
            *old(sub),
            *svc,
            *global,
            *obs,
            now,
        ),
        r is Err ==> *final(user) == *old(user) && *final(sub) == *old(sub),
        r is Ok ==> r->Ok_0.fee_lamports == spec_usd_to_lamports(
            svc.fee_usd as int,
            spec_price_cents(obs.price as int, obs.expo as int),
        ),
        r is Ok ==> r->Ok_0.protocol_fee_lamports == spec_protocol_fee(
            r->Ok_0.fee_lamports as int,
            global.protocol_fee_bps as int,
        ),
        r is Ok ==> r->Ok_0.protocol_fee_lamports + r->Ok_0.provider_share_lamports == r
            ->Ok_0.fee_lamports,
        r is Ok ==> r->Ok_0.provider_usdc_amount == spec_sol_to_usdc(
            r->Ok_0.provider_share_lamports as int,
            spec_price_cents(obs.price as int, obs.expo as int),
        ),
        r is Ok ==> *final(user) == (User {
            deposited_sol: (old(user).deposited_sol - r->Ok_0.fee_lamports) as u64,
            ..*old(user)
        }),
        r is Ok ==> *final(sub) == spec_settled_subscription(*old(sub), *svc, now),
        // the due date never moves backwards: it advances a full billing
        // period past a time at or after the old due date
        r is Ok ==> final(sub).next_payment_due > old(sub).next_payment_due,
        final(user).wf(),
        final(sub).wf(),
{
    if sub.user != user.wallet {
        return Err(ErrorCode::UnauthorizedUser);
    }
    if sub.provider != svc.provider {
        return Err(ErrorCode::InvalidProvider);
    }
    if sub.service_id != svc.service_id {
        return Err(ErrorCode::InvalidServiceId);
    }
    if global.is_paused {
        return Err(ErrorCode::ProtocolPaused);
    }
    if now < sub.next_payment_due {
        return Err(ErrorCode::PaymentNotDue);
    }
    if !sub.is_active {
        return Err(ErrorCode::SubscriptionNotActive);
    }
    if !svc.is_active {
        return Err(ErrorCode::ServiceNotActive);
    }
    let rate_cents: u64 = match get_validated_price(obs, now, MAX_PRICE_AGE_SETTLEMENT) {
        Ok(v) => v,
        Err(e) => {
            return Err(e);
        },
    };
    let fee_lamports: u64 = match convert_usd_to_sol_lamports(svc.fee_usd, rate_cents) {
        Ok(v) => v,
        Err(e) => {
            return Err(e);
        },
    };
    if user.available_balance() < fee_lamports {
        return Err(ErrorCode::InsufficientBalance);
    }
    let (protocol_fee, provider_share) = match split_fee(fee_lamports, global.protocol_fee_bps) {
        Ok(v) => v,
        Err(e) => {
            return Err(e);
        },
    };
    let provider_usdc: u64 = match convert_sol_to_usdc_amount(provider_share, rate_cents) {
        Ok(v) => v,
        Err(e) => {
            return Err(e);
        },
    };
    let period_seconds: i64 = (svc.billing_frequency_days as i64) * SECONDS_PER_DAY;
    let next_payment_due: i64 = match now.checked_add(period_seconds) {
        Some(v) => v,
        None => {
            return Err(ErrorCode::ArithmeticOverflow);
        },
    };
    let payments_made: u64 = match sub.total_payments_made.checked_add(1) {
        Some(v) => v,
        None => {
            return Err(ErrorCode::ArithmeticOverflow);
        },
    };
    user.deposited_sol = user.deposited_sol - fee_lamports;
    sub.last_payment_at = Some(now);
    sub.total_payments_made = payments_made;
    sub.next_payment_due = next_payment_due;
    Ok(
        PaymentBreakdown {
            fee_lamports,
            protocol_fee_lamports: protocol_fee,
            provider_share_lamports: provider_share,
            provider_usdc_amount: provider_usdc,
        },
    )
}

/// Creates an audit record for an executed payment.
pub fn create_payment_record(authority: u64, amount: u64, now: i64) -> (r: PaymentRecord)
    ensures
        r == (PaymentRecord {
            user: authority,
            provider: authority,
            subscription_id: 0,
            amount,
            payment_date: now,
            payment_type: PaymentType::Subscription,
        }),
{
    PaymentRecord {
        user: authority,
        provider: authority,
        subscription_id: 0,
        amount,
        payment_date: now,
        payment_type: PaymentType::Subscription,
    }
}

} // verus!
