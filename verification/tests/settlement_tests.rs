use subly::catalog::register_subscription_service;
use subly::errors::ErrorCode;
use subly::price::PriceObservation;
use subly::protocol::initialize;
use subly::settlement::{
    check_payment_due, create_payment_record, execute_subscription_payment,
    process_subscription_payments, split_fee,
};
use subly::state::{GlobalState, PaymentType, SubscriptionService, User, UserSubscription};
use subly::subscription::subscribe_to_service;

const PAYER: u64 = 7;
const PAYEE: u64 = 9;

fn settle_setup() -> (User, UserSubscription, SubscriptionService, GlobalState, PriceObservation)
{
    let mut global = initialize(1, 2, 3, 4, 5, 6);
    let mut svc = register_subscription_service(
        &mut global,
        PAYEE,
        "stream".to_string(),
        "video".to_string(),
        500,
        30,
        "logo".to_string(),
        0,
    )
    .unwrap();
    let mut provider = subly::state::Provider {
        wallet: PAYEE,
        name: "acme".to_string(),
        description: "tools".to_string(),
        total_subscribers: 0,
        is_verified: false,
        created_at: 0,
    };
    let mut user = User {
        wallet: PAYER,
        deposited_sol: 1_000_000_000,
        locked_sol: 0,
        staked_sol: 0,
        created_at: 0,
    };
    let obs = PriceObservation { price: 10_000_000_000, conf: 0, expo: -8, publish_time: 1_000 };
    let sub = subscribe_to_service(&mut user, &mut svc, &mut provider, &global, None, &obs, 1_000)
        .unwrap();
    (user, sub, svc, global, obs)
}

fn fresh_quote(now: i64) -> PriceObservation {
    PriceObservation { price: 10_000_000_000, conf: 0, expo: -8, publish_time: now }
}

#[test]
fn scan_phase_records_timestamp() {
    let (_, _, _, mut global, _) = settle_setup();
    let now: i64 = 5_000;
    assert_eq!(process_subscription_payments(&mut global, &fresh_quote(now), now), Ok(()));
    assert_eq!(global.last_payment_processed, now);
}

#[test]
fn scan_phase_rejections() {
    let (_, _, _, mut global, _) = settle_setup();
    let mut paused = global;
    paused.is_paused = true;
    assert_eq!(
        process_subscription_payments(&mut paused, &fresh_quote(5_000), 5_000).unwrap_err(),
        ErrorCode::ProtocolPaused
    );
    // the settlement staleness bound is five minutes
    let old_quote = PriceObservation { publish_time: 4_699, ..fresh_quote(5_000) };
    assert_eq!(
        process_subscription_payments(&mut global, &old_quote, 5_000).unwrap_err(),
        ErrorCode::PriceNotAvailable
    );
    assert_eq!(global.last_payment_processed, 0);
}

#[test]
fn due_date_check() {
    let (_, sub, _, _, _) = settle_setup();
    let due = sub.next_payment_due;
    assert_eq!(check_payment_due(&sub, due - 1), Ok(false));
    assert_eq!(check_payment_due(&sub, due), Ok(true));
    assert_eq!(check_payment_due(&sub, due + 1), Ok(true));
}

#[test]
fn fee_split_exact() {
    // protocolFee + providerShare == feeNative, protocolFee == fee * bps / 10000
    assert_eq!(split_fee(50_000_000, 100), Ok((500_000, 49_500_000)));
    assert_eq!(split_fee(0, 100), Ok((0, 0)));
    assert_eq!(split_fee(99, 100), Ok((0, 99))); // truncation toward zero
    assert_eq!(split_fee(u64::MAX, 2), Err(ErrorCode::ArithmeticOverflow));
    // a rate above 100% would take more than the fee itself
    assert_eq!(split_fee(100, 20_000), Err(ErrorCode::ArithmeticUnderflow));
}

#[test]
fn premature_payment_rejected_and_harmless() {
    let (mut user, mut sub, svc, global, _) = settle_setup();
    let before = user;
    let sub_before = sub;
    let now = sub.next_payment_due - 1;
    assert_eq!(
        execute_subscription_payment(&mut user, &mut sub, &svc, &global, &fresh_quote(now), now)
            .unwrap_err(),
        ErrorCode::PaymentNotDue
    );
    assert_eq!(user, before);
    assert_eq!(sub, sub_before);
}

#[test]
fn settlement_debits_and_advances() {
    let (mut user, mut sub, svc, global, _) = settle_setup();
    let now = sub.next_payment_due + 10;
    let breakdown =
        execute_subscription_payment(&mut user, &mut sub, &svc, &global, &fresh_quote(now), now)
            .unwrap();
    // $5.00 at $100.00 per unit with a 1% protocol fee
    assert_eq!(breakdown.fee_lamports, 50_000_000);
    assert_eq!(breakdown.protocol_fee_lamports, 500_000);
    assert_eq!(breakdown.provider_share_lamports, 49_500_000);
    assert_eq!(
        breakdown.protocol_fee_lamports + breakdown.provider_share_lamports,
        breakdown.fee_lamports
    );
    assert_eq!(breakdown.provider_usdc_amount, 4_950_000); // $4.95, 6 decimals
    assert_eq!(user.deposited_sol, 1_000_000_000 - 50_000_000);
    assert_eq!(sub.last_payment_at, Some(now));
    assert_eq!(sub.total_payments_made, 1);
    assert_eq!(sub.next_payment_due, now + 30 * 86_400);
}

#[test]
fn second_settlement_of_a_cycle_fails() {
    let (mut user, mut sub, svc, global, _) = settle_setup();
    let now = sub.next_payment_due;
    assert!(execute_subscription_payment(
        &mut user, &mut sub, &svc, &global, &fresh_quote(now), now
    )
    .is_ok());
    let after_first = (user, sub);
    assert_eq!(
        execute_subscription_payment(&mut user, &mut sub, &svc, &global, &fresh_quote(now), now)
            .unwrap_err(),
        ErrorCode::PaymentNotDue
    );
    assert_eq!((user, sub), after_first); // the second attempt changes nothing
}

#[test]
fn settlement_needs_liquid_balance() {
    let (mut user, mut sub, svc, global, _) = settle_setup();
    // everything but the collateral is drained: the liquid part cannot cover the fee
    user.deposited_sol = user.locked_sol + 49_999_999;
    let now = sub.next_payment_due;
    assert_eq!(
        execute_subscription_payment(&mut user, &mut sub, &svc, &global, &fresh_quote(now), now)
            .unwrap_err(),
        ErrorCode::InsufficientBalance
    );
    assert_eq!(sub.total_payments_made, 0);
}

#[test]
fn settlement_rejects_retired_service() {
    let (mut user, mut sub, mut svc, global, _) = settle_setup();
    svc.is_active = false;
    let now = sub.next_payment_due;
    assert_eq!(
        execute_subscription_payment(&mut user, &mut sub, &svc, &global, &fresh_quote(now), now)
            .unwrap_err(),
        ErrorCode::ServiceNotActive
    );
}

#[test]
fn settlement_rejects_out_of_band_price() {
    let (mut user, mut sub, svc, global, _) = settle_setup();
    let now = sub.next_payment_due;
    // $5.00 per unit: outside the sanity band
    let cheap = PriceObservation { price: 500_000_000, conf: 0, expo: -8, publish_time: now };
    assert_eq!(
        execute_subscription_payment(&mut user, &mut sub, &svc, &global, &cheap, now)
            .unwrap_err(),
        ErrorCode::InvalidPrice
    );
    assert_eq!(user.deposited_sol, 1_000_000_000);
}

#[test]
fn settlement_rejects_mismatched_records() {
    let (mut user, mut sub, svc, global, _) = settle_setup();
    let now = sub.next_payment_due;
    sub.provider = 1_111;
    assert_eq!(
        execute_subscription_payment(&mut user, &mut sub, &svc, &global, &fresh_quote(now), now)
            .unwrap_err(),
        ErrorCode::InvalidProvider
    );
    sub.provider = PAYEE;
    sub.service_id = 5;
    assert_eq!(
        execute_subscription_payment(&mut user, &mut sub, &svc, &global, &fresh_quote(now), now)
            .unwrap_err(),
        ErrorCode::InvalidServiceId
    );
    sub.service_id = 0;
    sub.user = 1_234;
    assert_eq!(
        execute_subscription_payment(&mut user, &mut sub, &svc, &global, &fresh_quote(now), now)
            .unwrap_err(),
        ErrorCode::UnauthorizedUser
    );
}

#[test]
fn payment_record_fields() {
    let rec = create_payment_record(1, 50_000_000, 9_000);
    assert_eq!(rec.user, 1);
    assert_eq!(rec.provider, 1);
    assert_eq!(rec.subscription_id, 0);
    assert_eq!(rec.amount, 50_000_000);
    assert_eq!(rec.payment_date, 9_000);
    assert_eq!(rec.payment_type, PaymentType::Subscription);
}
