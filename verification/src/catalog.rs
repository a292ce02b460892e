use vstd::prelude::*;
use vstd::string::StrSliceExecFns;
use crate::constants::{
    MAX_NAME_LENGTH, MAX_DESCRIPTION_LENGTH, MAX_URL_LENGTH, MIN_SUBSCRIPTION_PERIOD_DAYS,
    MAX_SUBSCRIPTION_PERIOD_DAYS,
};
use crate::errors::ErrorCode;
use crate::state::{GlobalState, Provider, SubscriptionService};

verus! {

/// Registers a provider.  On success the caller mints the provider's
/// verification token; the record starts unverified with no subscribers.
pub fn register_provider(
    global: &GlobalState,
    wallet: u64,
    name: String,
    description: String,
    now: i64,
) -> (r: Result<Provider, ErrorCode>)
    ensures
        r is Err ==> r->Err_0 == spec_register_provider_err(*global, name@, description@)->Some_0
            && spec_register_provider_err(*global, name@, description@) is Some,
        r is Ok <==> spec_register_provider_err(*global, name@, description@) is None,
        r is Ok ==> r->Ok_0 == (Provider {
            wallet,
            name,
            description,
            total_subscribers: 0,
            is_verified: false,
            created_at: now,
        }),
        r is Ok ==> r->Ok_0.wf(),
{
    if global.is_paused {
        return Err(ErrorCode::ProtocolPaused);
    }
    if name.as_str().unicode_len() > MAX_NAME_LENGTH {
        return Err(ErrorCode::NameTooLong);
    }
    if description.as_str().unicode_len() > MAX_DESCRIPTION_LENGTH {
        return Err(ErrorCode::DescriptionTooLong);
    }
    Ok(
        Provider {
            wallet,
            name,
            description,
            total_subscribers: 0,
            is_verified: false,
            created_at: now,
        },
    )
}

/// The first check that provider registration fails, if any, in the order
/// the checks are made: pause flag, then name bound, then description bound.
pub open spec fn spec_register_provider_err(
    global: GlobalState,
    name: Seq<char>,
    description: Seq<char>,
) -> Option<ErrorCode> {
    if global.is_paused {
        Some(ErrorCode::ProtocolPaused)
    } else if name.len() > MAX_NAME_LENGTH {
        Some(ErrorCode::NameTooLong)
    } else if description.len() > MAX_DESCRIPTION_LENGTH {
        Some(ErrorCode::DescriptionTooLong)
    } else {
        None
    }
}

/// The first check that service registration fails, if any, in the order
/// the checks are made.
pub open spec fn spec_register_service_err(
    global: GlobalState,
    name: Seq<char>,
    description: Seq<char>,
    fee_usd: u64,
    billing_frequency_days: u64,
    image_url: Seq<char>,
) -> Option<ErrorCode> {
    if global.is_paused {
        Some(ErrorCode::ProtocolPaused)
    } else if name.len() > MAX_NAME_LENGTH {
        Some(ErrorCode::NameTooLong)
    } else if description.len() > MAX_DESCRIPTION_LENGTH {
        Some(ErrorCode::DescriptionTooLong)
    } else if image_url.len() > MAX_URL_LENGTH {
        Some(ErrorCode::UrlTooLong)
    } else if fee_usd == 0 {
        Some(ErrorCode::InvalidFeeAmount)
    } else if billing_frequency_days < MIN_SUBSCRIPTION_PERIOD_DAYS || billing_frequency_days
        > MAX_SUBSCRIPTION_PERIOD_DAYS {
        Some(ErrorCode::InvalidBillingFrequency)
    } else if global.total_services == u64::MAX {
        Some(ErrorCode::ArithmeticOverflow)
    } else {
        None
    }
}

/// Registers a subscription service for a provider.  The service takes the
/// next value of the global service counter as its id, and the counter is
/// advanced; the fee (fiat cents, positive) and the billing period (7 to 365
/// days) are validated here and immutable afterwards.
pub fn register_subscription_service(
    global: &mut GlobalState,
    provider_wallet: u64,
    name: String,
    description: String,
    fee_usd: u64,
    billing_frequency_days: u64,
    image_url: String,
    now: i64,
) -> (r: Result<SubscriptionService, ErrorCode>)
    ensures
        r is Err ==> r->Err_0 == spec_register_service_err(
            *old(global),
            name@,
            description@,
            fee_usd,
            billing_frequency_days,
            image_url@,
        )->Some_0 && spec_register_service_err(
            *old(global),
            name@,
            description@,
            fee_usd,
            billing_frequency_days,
            image_url@,
        ) is Some,
        r is Ok <==> spec_register_service_err(
            *old(global),
            name@,
            description@,
            fee_usd,
            billing_frequency_days,
            image_url@,
        ) is None,
        r is Ok ==> r->Ok_0 == (SubscriptionService {
            provider: provider_wallet,
            service_id: old(global).total_services,
            name,
            description,
            fee_usd,
            billing_frequency_days,
            image_url,
            current_subscribers: 0,
            is_active: true,
            created_at: now,
        }),
        r is Ok ==> r->Ok_0.wf(),
        r is Ok ==> *final(global) == (GlobalState {
            total_services: (old(global).total_services + 1) as u64,
            ..*old(global)
        }),
        r is Err ==> *final(global) == *old(global),
{
    if global.is_paused {
        return Err(ErrorCode::ProtocolPaused);
    }
    if name.as_str().unicode_len() > MAX_NAME_LENGTH {
        return Err(ErrorCode::NameTooLong);
    }
    if description.as_str().unicode_len() > MAX_DESCRIPTION_LENGTH {
        return Err(ErrorCode::DescriptionTooLong);
    }
    if image_url.as_str().unicode_len() > MAX_URL_LENGTH {
        return Err(ErrorCode::UrlTooLong);
    }
    if fee_usd == 0 {
        return Err(ErrorCode::InvalidFeeAmount);
    }
    if billing_frequency_days < MIN_SUBSCRIPTION_PERIOD_DAYS || billing_frequency_days
        > MAX_SUBSCRIPTION_PERIOD_DAYS {
        return Err(ErrorCode::InvalidBillingFrequency);
    }
    let next_counter: u64 = match global.total_services.checked_add(1) {
        Some(v) => v,
        None => {
            return Err(ErrorCode::ArithmeticOverflow);
        },
    };
    let service = SubscriptionService {
        provider: provider_wallet,
        service_id: global.total_services,
        name,
        description,
        fee_usd,
        billing_frequency_days,
        image_url,
        current_subscribers: 0,
        is_active: true,
        created_at: now,
    };
    global.total_services = next_counter;
    Ok(service)
}

/// Retires a service.  Only the owning provider may do so; the record is
/// deactivated, never deleted.
pub fn deactivate_service(svc: &mut SubscriptionService, provider_wallet: u64) -> (r: Result<
    (),
    ErrorCode,
>)
    ensures
        r == Err::<(), ErrorCode>(ErrorCode::UnauthorizedProvider) <==> old(svc).provider
            != provider_wallet,
        r is Ok ==> *final(svc) == (SubscriptionService { is_active: false, ..*old(svc) }),
        r is Err ==> *final(svc) == *old(svc),
{
    if svc.provider != provider_wallet {
        return Err(ErrorCode::UnauthorizedProvider);
    }
    svc.is_active = false;
    Ok(())
}

} // verus!
