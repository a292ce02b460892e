use vstd::prelude::*;
use crate::constants::{
    MAX_NAME_LENGTH, MAX_DESCRIPTION_LENGTH, MAX_URL_LENGTH, MIN_SUBSCRIPTION_PERIOD_DAYS,
    MAX_SUBSCRIPTION_PERIOD_DAYS, MAX_PROTOCOL_FEE_BPS,
};

verus! {

/// Per-user balance record.  All amounts are in lamports.
///
/// `deposited_sol` is the on-hand balance held for the user, `locked_sol`
/// the portion reserved as subscription collateral, and `staked_sol` the
/// portion delegated to the liquid-staking service.
#[derive(Clone, Copy, Debug, PartialEq, Eq, Structural)]
pub struct User {
    pub wallet: u64,
    pub deposited_sol: u64,
    pub locked_sol: u64,
    pub staked_sol: u64,
    pub created_at: i64,
}

impl User {
    /// Ledger invariant: locked collateral never exceeds the deposited balance.
    pub open spec fn wf(self) -> bool {
        self.locked_sol <= self.deposited_sol
    }

    /// Portion of the deposited balance not reserved as collateral.
    pub open spec fn spec_available_balance(self) -> int {
        if self.deposited_sol >= self.locked_sol {
            self.deposited_sol - self.locked_sol
        } else {
            0
        }
    }
}

/// A registered service provider.
#[derive(Clone, Debug)]
pub struct Provider {
    pub wallet: u64,
    pub name: String,
    pub description: String,
    pub total_subscribers: u64,
    pub is_verified: bool,
    pub created_at: i64,
}

impl Provider {
    pub open spec fn wf(self) -> bool {
        &&& self.name@.len() <= MAX_NAME_LENGTH
        &&& self.description@.len() <= MAX_DESCRIPTION_LENGTH
    }
}

/// A subscription service offered by a provider.  The fee is denominated in
/// USD cents; the billing period in days.  Fee and period are immutable
/// after registration.
#[derive(Clone, Debug)]
pub struct SubscriptionService {
    pub provider: u64,
    pub service_id: u64,
    pub name: String,
    pub description: String,
    pub fee_usd: u64,
    pub billing_frequency_days: u64,
    pub image_url: String,
    pub current_subscribers: u64,
    pub is_active: bool,
    pub created_at: i64,
}

impl SubscriptionService {
    pub open spec fn wf(self) -> bool {
        &&& self.name@.len() <= MAX_NAME_LENGTH
        &&& self.description@.len() <= MAX_DESCRIPTION_LENGTH
        &&& self.image_url@.len() <= MAX_URL_LENGTH
        &&& self.fee_usd > 0
        &&& MIN_SUBSCRIPTION_PERIOD_DAYS <= self.billing_frequency_days
            <= MAX_SUBSCRIPTION_PERIOD_DAYS
    }
}

/// Per (user, provider, service) subscription record.
///
/// `has_certificate` models the one-certificate-per-active-subscription
/// relation maintained with the certificate-issuance collaborator: it is set
/// when the subscription is created (the caller mints the certificate) and
/// cleared when it is cancelled (the caller burns it).
#[derive(Clone, Copy, Debug, PartialEq, Eq, Structural)]
pub struct UserSubscription {
    pub user: u64,
    pub provider: u64,
    pub service_id: u64,
    pub subscription_id: u64,
    pub subscribed_at: i64,
    pub last_payment_at: Option<i64>,
    pub next_payment_due: i64,
    pub total_payments_made: u64,
    pub is_active: bool,
    pub unsubscribed_at: Option<i64>,
    pub has_certificate: bool,
}

impl UserSubscription {
    /// Exactly the active subscriptions hold a certificate.
    pub open spec fn wf(self) -> bool {
        self.has_certificate == self.is_active
    }
}

/// A user's position with the liquid-staking service.  `jito_sol_amount` is
/// the amount of the yield-bearing receipt token held against
/// `staked_amount` delegated lamports.
#[derive(Clone, Copy, Debug, PartialEq, Eq, Structural)]
pub struct StakeAccount {
    pub user: u64,
    pub staked_amount: u64,
    pub jito_sol_amount: u64,
    pub stake_date: i64,
    pub last_yield_claim: i64,
    pub total_yield_earned: u64,
    pub is_active: bool,
}

/// Protocol-level configuration and counters.
#[derive(Clone, Copy, Debug, PartialEq, Eq, Structural)]
pub struct GlobalState {
    pub authority: u64,
    pub protocol_fee_bps: u16,
    pub is_paused: bool,
    pub jito_stake_pool: u64,
    pub jito_sol_mint: u64,
    pub spl_stake_pool_program: u64,
    pub sol_usd_price_feed: u64,
    pub usdc_mint: u64,
    pub total_services: u64,
    pub last_payment_processed: i64,
}

impl GlobalState {
    pub open spec fn wf(self) -> bool {
        self.protocol_fee_bps <= MAX_PROTOCOL_FEE_BPS
    }
}

#[derive(Clone, Copy, Debug, PartialEq, Eq, Structural)]
pub enum PaymentType {
    Subscription,
    ProtocolFee,
}

/// Audit-trail record of an executed payment.
#[derive(Clone, Copy, Debug, PartialEq, Eq, Structural)]
pub struct PaymentRecord {
    pub user: u64,
    pub provider: u64,
    pub subscription_id: u64,
    pub amount: u64,
    pub payment_date: i64,
    pub payment_type: PaymentType,
}

} // verus!
