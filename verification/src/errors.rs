use vstd::prelude::*;

verus! {

/// Error taxonomy of the protocol.
///
/// Validation errors are raised before any state mutation; balance errors
/// name the specific shortfall so callers can tell "deposit more" from
/// "unstake first"; timing errors are retryable; arithmetic errors replace
/// silent wrapping.
#[derive(Clone, Copy, Debug, PartialEq, Eq, Structural)]
pub enum ErrorCode {
    // Validation
    NameTooLong,
    DescriptionTooLong,
    UrlTooLong,
    InvalidFeeAmount,
    InvalidBillingFrequency,
    InvalidAmount,
    // Authorization
    UnauthorizedUser,
    UnauthorizedAuthority,
    UnauthorizedProvider,
    // Balance
    InsufficientBalance,
    InsufficientAvailableBalance,
    InsufficientStakedFunds,
    // Subscription
    InvalidSubscriptionId,
    SubscriptionNotActive,
    SubscriptionAlreadyExists,
    CannotSubscribeToOwnService,
    // Service
    ServiceNotFound,
    ServiceNotActive,
    ServiceLimitReached,
    InvalidProvider,
    InvalidServiceId,
    // Certificate
    NoCertificateToDestroy,
    // Price feed
    InvalidPriceFeed,
    PriceNotAvailable,
    InvalidPrice,
    // Staking
    MinimumStakeNotMet,
    NoStakedFunds,
    StakingNotAvailable,
    StakePoolError,
    InvalidJitoStakePool,
    // Protocol
    ProtocolPaused,
    InvalidProtocolFee,
    // Timing
    PaymentNotDue,
    PaymentAlreadyProcessed,
    // Arithmetic
    ArithmeticOverflow,
    ArithmeticUnderflow,
}

} // verus!
