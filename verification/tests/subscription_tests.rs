use subly::catalog::register_subscription_service;
use subly::errors::ErrorCode;
use subly::price::PriceObservation;
use subly::protocol::initialize;
use subly::state::{GlobalState, Provider, SubscriptionService, User};
use subly::subscription::{
    check_user_subscription, subscribe_to_service, unsubscribe_from_service,
};

const USER_WALLET: u64 = 7;
const PROVIDER_WALLET: u64 = 9;

fn sub_setup() -> (User, SubscriptionService, Provider, GlobalState, PriceObservation) {
    let mut global = initialize(1, 2, 3, 4, 5, 6);
    let svc = register_subscription_service(
        &mut global,
        PROVIDER_WALLET,
        "stream".to_string(),
        "video".to_string(),
        500, // $5.00
        30,
        "logo".to_string(),
        0,
    )
    .unwrap();
    let provider = Provider {
        wallet: PROVIDER_WALLET,
        name: "acme".to_string(),
        description: "tools".to_string(),
        total_subscribers: 0,
        is_verified: false,
        created_at: 0,
    };
    let user = User {
        wallet: USER_WALLET,
        deposited_sol: 1_000_000_000,
        locked_sol: 0,
        staked_sol: 0,
        created_at: 0,
    };
    // $100.00 per native unit
    let obs = PriceObservation { price: 10_000_000_000, conf: 0, expo: -8, publish_time: 1_000 };
    (user, svc, provider, global, obs)
}

#[test]
fn subscribe_locks_twelve_periods() {
    let (mut user, mut svc, mut provider, global, obs) = sub_setup();
    let sub =
        subscribe_to_service(&mut user, &mut svc, &mut provider, &global, None, &obs, 1_000)
            .unwrap();
    // $5.00 at $100.00 per unit is 50_000_000 lamports; twelve periods locked
    assert_eq!(user.locked_sol, 600_000_000);
    assert_eq!(user.deposited_sol, 1_000_000_000); // deposits untouched
    assert_eq!(svc.current_subscribers, 1);
    assert_eq!(provider.total_subscribers, 1);
    assert_eq!(sub.user, USER_WALLET);
    assert_eq!(sub.provider, PROVIDER_WALLET);
    assert_eq!(sub.service_id, 0);
    assert_eq!(sub.subscribed_at, 1_000);
    assert_eq!(sub.last_payment_at, None);
    assert_eq!(sub.next_payment_due, 1_000 + 30 * 86_400);
    assert_eq!(sub.total_payments_made, 0);
    assert!(sub.is_active);
    assert!(sub.has_certificate);
    assert_eq!(sub.unsubscribed_at, None);
}

#[test]
fn subscribe_rejections() {
    let (mut user, mut svc, mut provider, global, obs) = sub_setup();
    let mut inactive = svc.clone();
    inactive.is_active = false;
    assert_eq!(
        subscribe_to_service(&mut user, &mut inactive, &mut provider, &global, None, &obs, 1_000)
            .unwrap_err(),
        ErrorCode::ServiceNotActive
    );
    let mut owner = User { wallet: PROVIDER_WALLET, ..user };
    assert_eq!(
        subscribe_to_service(&mut owner, &mut svc, &mut provider, &global, None, &obs, 1_000)
            .unwrap_err(),
        ErrorCode::CannotSubscribeToOwnService
    );
    let mut paused = global;
    paused.is_paused = true;
    assert_eq!(
        subscribe_to_service(&mut user, &mut svc, &mut provider, &paused, None, &obs, 1_000)
            .unwrap_err(),
        ErrorCode::ProtocolPaused
    );
    let mut poor = User { deposited_sol: 599_999_999, ..user };
    assert_eq!(
        subscribe_to_service(&mut poor, &mut svc, &mut provider, &global, None, &obs, 1_000)
            .unwrap_err(),
        ErrorCode::InsufficientAvailableBalance
    );
    assert_eq!(poor.locked_sol, 0);
    assert_eq!(svc.current_subscribers, 0); // nothing mutated on any failure
}

#[test]
fn duplicate_subscription_rejected() {
    let (mut user, mut svc, mut provider, global, obs) = sub_setup();
    let sub =
        subscribe_to_service(&mut user, &mut svc, &mut provider, &global, None, &obs, 1_000)
            .unwrap();
    assert_eq!(
        subscribe_to_service(&mut user, &mut svc, &mut provider, &global, Some(&sub), &obs, 1_000)
            .unwrap_err(),
        ErrorCode::SubscriptionAlreadyExists
    );
    // a cancelled record does not block a new subscription (the first lock
    // is still held, so the user needs collateral for the new one as well)
    user.deposited_sol = 2_000_000_000;
    let mut cancelled = sub;
    cancelled.is_active = false;
    cancelled.has_certificate = false;
    assert!(subscribe_to_service(
        &mut user, &mut svc, &mut provider, &global, Some(&cancelled), &obs, 1_000
    )
    .is_ok());
}

#[test]
fn unsubscribe_restores_locked_balance() {
    let (mut user, mut svc, mut provider, global, obs) = sub_setup();
    let mut sub =
        subscribe_to_service(&mut user, &mut svc, &mut provider, &global, None, &obs, 1_000)
            .unwrap();
    let locked_before = user.locked_sol;
    assert_eq!(locked_before, 600_000_000);
    // round trip at the same price: locked and deposited both restored
    unsubscribe_from_service(&mut user, &mut sub, &mut svc, &mut provider, &global, &obs, 2_000)
        .unwrap();
    assert_eq!(user.locked_sol, 0);
    assert_eq!(user.deposited_sol, 1_000_000_000);
    assert!(!sub.is_active);
    assert!(!sub.has_certificate);
    assert_eq!(sub.unsubscribed_at, Some(2_000));
    assert_eq!(svc.current_subscribers, 0);
    assert_eq!(provider.total_subscribers, 0);
}

#[test]
fn unsubscribe_rejections() {
    let (mut user, mut svc, mut provider, global, obs) = sub_setup();
    let mut sub =
        subscribe_to_service(&mut user, &mut svc, &mut provider, &global, None, &obs, 1_000)
            .unwrap();
    sub.is_active = false;
    sub.has_certificate = false;
    assert_eq!(
        unsubscribe_from_service(&mut user, &mut sub, &mut svc, &mut provider, &global, &obs, 2_000)
            .unwrap_err(),
        ErrorCode::SubscriptionNotActive
    );
    sub.is_active = true;
    sub.has_certificate = true;
    let mut stranger = User { wallet: 1_234, ..user };
    assert_eq!(
        unsubscribe_from_service(
            &mut stranger, &mut sub, &mut svc, &mut provider, &global, &obs, 2_000
        )
        .unwrap_err(),
        ErrorCode::UnauthorizedUser
    );
}

#[test]
fn unlock_clamps_when_price_moved() {
    let (mut user, mut svc, mut provider, global, obs) = sub_setup();
    let mut sub =
        subscribe_to_service(&mut user, &mut svc, &mut provider, &global, None, &obs, 1_000)
            .unwrap();
    // the price halves to $50.00: the revalued collateral doubles, and the
    // unlock clamps at zero instead of underflowing
    let halved = PriceObservation { price: 5_000_000_000, ..obs };
    unsubscribe_from_service(&mut user, &mut sub, &mut svc, &mut provider, &global, &halved, 2_000)
        .unwrap();
    assert_eq!(user.locked_sol, 0);
}

#[test]
fn subscribe_at_exact_collateral_boundary() {
    let (mut user, mut svc, mut provider, global, obs) = sub_setup();
    user.deposited_sol = 600_000_000; // exactly the twelve-period lock
    assert!(subscribe_to_service(&mut user, &mut svc, &mut provider, &global, None, &obs, 1_000)
        .is_ok());
    assert_eq!(user.locked_sol, 600_000_000);
    assert!(user.locked_sol <= user.deposited_sol);
}

#[test]
fn residual_collateral_remains_when_price_rises() {
    let (mut user, mut svc, mut provider, global, obs) = sub_setup();
    let mut sub =
        subscribe_to_service(&mut user, &mut svc, &mut provider, &global, None, &obs, 1_000)
            .unwrap();
    // at $200.00 the revalued collateral is half the amount locked at
    // $100.00, so half the original lock stays behind
    let doubled = PriceObservation { price: 20_000_000_000, ..obs };
    unsubscribe_from_service(&mut user, &mut sub, &mut svc, &mut provider, &global, &doubled, 2_000)
        .unwrap();
    assert_eq!(user.locked_sol, 300_000_000);
}

#[test]
fn subscribe_rejects_out_of_band_price() {
    let (mut user, mut svc, mut provider, global, obs) = sub_setup();
    // $5.00 per native unit: below the sanity band's $10 floor
    let cheap = PriceObservation { price: 500_000_000, ..obs };
    assert_eq!(
        subscribe_to_service(&mut user, &mut svc, &mut provider, &global, None, &cheap, 1_000)
            .unwrap_err(),
        ErrorCode::InvalidPrice
    );
    let mut sub =
        subscribe_to_service(&mut user, &mut svc, &mut provider, &global, None, &obs, 1_000)
            .unwrap();
    assert_eq!(
        unsubscribe_from_service(
            &mut user, &mut sub, &mut svc, &mut provider, &global, &cheap, 2_000
        )
        .unwrap_err(),
        ErrorCode::InvalidPrice
    );
    assert!(sub.is_active); // the rejected call changed nothing
    assert_eq!(user.locked_sol, 600_000_000);
}

#[test]
fn subscription_query() {
    let (mut user, mut svc, mut provider, global, obs) = sub_setup();
    assert_eq!(check_user_subscription(USER_WALLET, None, PROVIDER_WALLET, 0), Ok(false));
    let sub =
        subscribe_to_service(&mut user, &mut svc, &mut provider, &global, None, &obs, 1_000)
            .unwrap();
    assert_eq!(
        check_user_subscription(USER_WALLET, Some(&sub), PROVIDER_WALLET, 0),
        Ok(true)
    );
    assert_eq!(
        check_user_subscription(USER_WALLET, Some(&sub), 1_111, 0).unwrap_err(),
        ErrorCode::InvalidProvider
    );
    assert_eq!(
        check_user_subscription(USER_WALLET, Some(&sub), PROVIDER_WALLET, 5).unwrap_err(),
        ErrorCode::InvalidServiceId
    );
    assert_eq!(
        check_user_subscription(1_234, Some(&sub), PROVIDER_WALLET, 0).unwrap_err(),
        ErrorCode::UnauthorizedUser
    );
    let mut off = sub;
    off.is_active = false;
    assert_eq!(
        check_user_subscription(USER_WALLET, Some(&off), PROVIDER_WALLET, 0),
        Ok(false)
    );
}
