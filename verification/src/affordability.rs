use vstd::prelude::*;
use vstd::seq_lib::group_seq_properties;
use crate::constants::{BPS_DENOMINATOR, MAX_PRICE_AGE_QUERY, MONTHS_PER_YEAR};
use crate::errors::ErrorCode;
use crate::price::{
    convert_usd_to_sol_lamports, get_validated_price, spec_price_cents, spec_price_err,
    spec_usd_to_lamports, PriceObservation,
};
use crate::state::{SubscriptionService, User};

verus! {

/// One entry of the affordability report: a service, its fee restated in
/// lamports per billing period at the current rate, and whether the user's
/// expected staking yield covers it.
#[derive(Clone, Debug)]
pub struct SubscribableServiceInfo {
    pub provider: u64,
    pub service_id: u64,
    pub name: String,
    pub description: String,
    pub fee_usd: u64,
    pub billing_frequency_days: u64,
    pub monthly_fee_sol: u64,
    pub can_afford: bool,
}

/// Expected monthly staking yield on `available` lamports at `apy_bps`:
/// `available * apy / 10000 / 12`.
pub open spec fn spec_monthly_yield(available: int, apy_bps: int) -> int {
    ((available * apy_bps) / BPS_DENOMINATOR as int) / MONTHS_PER_YEAR as int
}

/// Computes the expected monthly staking yield on `deposited_lamports`.
pub fn calculate_expected_monthly_yield(deposited_lamports: u64, jito_apy_bps: u16) -> (r: Result<
    u64,
    ErrorCode,
>)
    ensures
        r is Ok <==> deposited_lamports * jito_apy_bps <= u64::MAX,
        r is Ok ==> r->Ok_0 == spec_monthly_yield(deposited_lamports as int, jito_apy_bps as int),
        r is Err ==> r == Err::<u64, ErrorCode>(ErrorCode::ArithmeticOverflow),
{
    let annual_scaled: u64 = match deposited_lamports.checked_mul(jito_apy_bps as u64) {
        Some(v) => v,
        None => {
            return Err(ErrorCode::ArithmeticOverflow);
        },
    };
    let annual_yield: u64 = annual_scaled / BPS_DENOMINATOR;
    Ok(annual_yield / MONTHS_PER_YEAR)
}

/// The report entry for one service at the given rate and expected yield.
pub open spec fn spec_service_info(
    svc: SubscriptionService,
    rate_cents: int,
    monthly_yield: int,
) -> SubscribableServiceInfo {
    let monthly_fee = spec_usd_to_lamports(svc.fee_usd as int, rate_cents);
    SubscribableServiceInfo {
        provider: svc.provider,
        service_id: svc.service_id,
        name: svc.name,
        description: svc.description,
        fee_usd: svc.fee_usd,
        billing_frequency_days: svc.billing_frequency_days,
        monthly_fee_sol: monthly_fee as u64,
        can_afford: monthly_yield >= monthly_fee,
    }
}

/// The report entries for the active services, in input order.
pub open spec fn spec_active_infos(
    services: Seq<SubscriptionService>,
    rate_cents: int,
    monthly_yield: int,
) -> Seq<SubscribableServiceInfo> {
    services.filter(|s: SubscriptionService| s.is_active).map_values(
        |s: SubscriptionService| spec_service_info(s, rate_cents, monthly_yield),
    )
}

/// The report's ranking: affordable entries precede unaffordable ones, and
/// within each group fees ascend.
pub open spec fn spec_info_le(a: SubscribableServiceInfo, b: SubscribableServiceInfo) -> bool {
    (a.can_afford && !b.can_afford) || (a.can_afford == b.can_afford && a.fee_usd <= b.fee_usd)
}

pub open spec fn spec_sorted(s: Seq<SubscribableServiceInfo>) -> bool {
    forall|i: int, j: int| 0 <= i < j < s.len() ==> spec_info_le(s[i], s[j])
}

/// An active service whose fee does not convert within the 64-bit range
/// at the given rate.
pub open spec fn spec_fee_overflows(
    services: Seq<SubscriptionService>,
    rate: int,
    i: int,
) -> bool {
    services[i].is_active && spec_usd_to_lamports(services[i].fee_usd as int, rate) > u64::MAX
}

/// The error with which the affordability query is rejected, if any, in
/// the order the checks are made: the yield arithmetic, the oracle quote,
/// then the fee conversion of any active service.
pub open spec fn spec_affordability_err(
    user: User,
    services: Seq<SubscriptionService>,
    jito_apy_bps: u16,
    obs: PriceObservation,
    now: i64,
) -> Option<ErrorCode> {
    let rate = spec_price_cents(obs.price as int, obs.expo as int);
    if user.spec_available_balance() * jito_apy_bps > u64::MAX {
        Some(ErrorCode::ArithmeticOverflow)
    } else if spec_price_err(obs, now, MAX_PRICE_AGE_QUERY) is Some {
        spec_price_err(obs, now, MAX_PRICE_AGE_QUERY)
    } else if exists|i: int|
        0 <= i < services.len() && #[trigger] spec_fee_overflows(services, rate, i) {
        Some(ErrorCode::ArithmeticOverflow)
    } else {
        None
    }
}

fn info_le(a: &SubscribableServiceInfo, b: &SubscribableServiceInfo) -> (r: bool)
    ensures
        r == spec_info_le(*a, *b),
{
    (a.can_afford && !b.can_afford) || (a.can_afford == b.can_afford && a.fee_usd <= b.fee_usd)
}

/// Sorts the report: affordable entries first, then ascending by fee.
fn sort_infos(v: &mut Vec<SubscribableServiceInfo>)
    ensures
        final(v)@.to_multiset() == old(v)@.to_multiset(),
        spec_sorted(final(v)@),
{
    broadcast use vstd::seq_lib::group_to_multiset_ensures;
    broadcast use vstd::multiset::group_multiset_axioms;

    if v.len() <= 1 {
        return ;
    }
    let mut i: usize = 1;
    while i < v.len()
        invariant
            1 <= i <= v@.len(),
            v@.len() == old(v)@.len(),
            v@.to_multiset() == old(v)@.to_multiset(),
            spec_sorted(v@.take(i as int)),
        decreases v@.len() - i,
    {
        let ghost prev = v@;
        let x = v.remove(i);
        let ghost removed = v@;
        let mut pos: usize = 0;
        while pos < i && info_le(&v[pos], &x)
            invariant
                pos <= i,
                i < prev.len(),
                v@ == removed,
                removed == prev.remove(i as int),
                x == prev[i as int],
                forall|k: int| 0 <= k < pos ==> spec_info_le(v@[k], x),
            decreases i - pos,
        {
            pos = pos + 1;
        }
        v.insert(pos, x);
        proof {
            assert(v@ == removed.insert(pos as int, x));
            removed.insert_ensures(pos as int, x);
            prev.remove_ensures(i as int);
            assert(v@.to_multiset() =~= prev.to_multiset()) by {
                assert(prev.contains(x)) by {
                    assert(prev[i as int] == x);
                }
                vstd::seq_lib::to_multiset_remove::<SubscribableServiceInfo>(prev, i as int);
                vstd::seq_lib::to_multiset_insert::<SubscribableServiceInfo>(
                    removed,
                    pos as int,
                    x,
                );
                vstd::seq_lib::to_multiset_contains::<SubscribableServiceInfo>(prev, x);
                assert(prev.to_multiset().count(x) >= 1);
            }
            // indices before `pos` hold the old sorted prefix, `pos` holds the
            // inserted element, later ones the shifted rest of that prefix
            assert(forall|k: int| 0 <= k < i ==> removed[k] == prev[k]);
            assert(forall|k: int| 0 <= k < pos ==> v@[k] == removed[k]);
            assert(v@[pos as int] == x);
            assert(forall|k: int| pos < k <= i ==> v@[k] == removed[k - 1]);
            assert(forall|a: int, b: int|
                0 <= a < b < i ==> spec_info_le(prev[a], prev[b])) by {
                assert(spec_sorted(prev.take(i as int)));
                assert(forall|k: int| 0 <= k < i ==> prev.take(i as int)[k] == prev[k]);
            }
            if pos < i {
                assert(!spec_info_le(removed[pos as int], x));
                assert(spec_info_le(x, prev[pos as int]));
            }
            assert forall|k: int| pos <= k < i implies spec_info_le(x, removed[k]) by {
                assert(removed[k] == prev[k]);
                assert(spec_info_le(x, prev[pos as int]));
                if k > pos {
                    assert(spec_info_le(prev[pos as int], prev[k]));
                }
            }
            assert(spec_sorted(v@.take(i as int + 1))) by {
                let t = v@.take(i as int + 1);
                assert(forall|k: int| 0 <= k <= i ==> t[k] == v@[k]);
                assert forall|a: int, b: int| 0 <= a < b < t.len() implies spec_info_le(
                    t[a],
                    t[b],
                ) by {
                    if b < pos {
                        assert(spec_info_le(prev[a], prev[b]));
                    } else if b == pos {
                        assert(spec_info_le(removed[a], x));
                    } else if a < pos {
                        assert(spec_info_le(removed[a], x));
                        assert(spec_info_le(x, removed[b - 1]));
                        assert(spec_info_le(prev[a], prev[b - 1]));
                    } else if a == pos {
                        assert(spec_info_le(x, removed[b - 1]));
                    } else {
                        assert(spec_info_le(prev[a - 1], prev[b - 1]));
                    }
                }
            }
        }
        i = i + 1;
    }
    proof {
        if v@.len() > 0 {
            assert(v@.take(v@.len() as int) =~= v@);
        }
    }
}

/// Builds the affordability report: every active service, its fee restated
/// in lamports at the current oracle rate, and whether the user's expected
/// monthly staking yield at `jito_apy_bps` covers it; ranked affordable
/// first, then ascending by fee.  The ranking is a discovery aid, not a
/// billing guarantee.
pub fn check_subscribable_services(
    user: &User,
    services: &Vec<SubscriptionService>,
    jito_apy_bps: u16,
    obs: &PriceObservation,
    now: i64,
) -> (r: Result<Vec<SubscribableServiceInfo>, ErrorCode>)
    ensures
        r is Ok <==> spec_affordability_err(*user, services@, jito_apy_bps, *obs, now) is None,
        r is Err ==> Some(r->Err_0) == spec_affordability_err(
            *user,
            services@,
            jito_apy_bps,
            *obs,
            now,
        ),
        r is Ok ==> r->Ok_0@.to_multiset() == spec_active_infos(
            services@,
            spec_price_cents(obs.price as int, obs.expo as int),
            spec_monthly_yield(user.spec_available_balance(), jito_apy_bps as int),
        ).to_multiset(),
        r is Ok ==> spec_sorted(r->Ok_0@),
{
    let available: u64 = user.available_balance();
    let monthly_yield: u64 = match calculate_expected_monthly_yield(available, jito_apy_bps) {
        Ok(v) => v,
        Err(e) => {
            return Err(e);
        },
    };
    let rate_cents: u64 = match get_validated_price(obs, now, MAX_PRICE_AGE_QUERY) {
        Ok(v) => v,
        Err(e) => {
            return Err(e);
        },
    };
    let ghost rate = spec_price_cents(obs.price as int, obs.expo as int);
    let ghost my = spec_monthly_yield(user.spec_available_balance(), jito_apy_bps as int);
    let mut infos: Vec<SubscribableServiceInfo> = Vec::new();
    let mut idx: usize = 0;
    while idx < services.len()
        invariant
            idx <= services@.len(),
            rate == spec_price_cents(obs.price as int, obs.expo as int),
            my == spec_monthly_yield(user.spec_available_balance(), jito_apy_bps as int),
            monthly_yield == my,
            rate_cents == rate,
            rate_cents > 0,
            spec_price_err(*obs, now, MAX_PRICE_AGE_QUERY) is None,
            user.spec_available_balance() * jito_apy_bps <= u64::MAX,
            infos@ == spec_active_infos(services@.take(idx as int), rate, my),
            forall|k: int| 0 <= k < idx ==> !spec_fee_overflows(services@, rate, k),
        decreases services@.len() - idx,
    {
        let ghost prefix = services@.take(idx as int);
        let svc = &services[idx];
        if svc.is_active {
            let monthly_fee_sol: u64 = match convert_usd_to_sol_lamports(svc.fee_usd, rate_cents) {
                Ok(v) => v,
                Err(e) => {
                    proof {
                        let ghost cents = spec_price_cents(obs.price as int, obs.expo as int);
                        assert(spec_fee_overflows(services@, cents, idx as int));
                        assert(exists|i: int|
                            0 <= i < services@.len() && #[trigger] spec_fee_overflows(
                                services@,
                                cents,
                                i,
                            ));
                    }
                    return Err(e);
                },
            };
            let info = SubscribableServiceInfo {
                provider: svc.provider,
                service_id: svc.service_id,
                name: svc.name.clone(),
                description: svc.description.clone(),
                fee_usd: svc.fee_usd,
                billing_frequency_days: svc.billing_frequency_days,
                monthly_fee_sol,
                can_afford: monthly_yield >= monthly_fee_sol,
            };
            proof {
                assert(info == spec_service_info(services@[idx as int], rate, my));
            }
            infos.push(info);
        }
        proof {
            lemma_active_infos_step(services@, idx as int, rate, my);
        }
        idx = idx + 1;
    }
    proof {
        assert(services@.take(services@.len() as int) =~= services@);
    }
    sort_infos(&mut infos);
    Ok(infos)
}

/// Extending the scanned prefix by one service extends the report by that
/// service's entry exactly where the service is active.
proof fn lemma_active_infos_step(
    services: Seq<SubscriptionService>,
    idx: int,
    rate: int,
    my: int,
)
    requires
        0 <= idx < services.len(),
    ensures
        services[idx].is_active ==> spec_active_infos(services.take(idx + 1), rate, my)
            == spec_active_infos(services.take(idx), rate, my).push(
            spec_service_info(services[idx], rate, my),
        ),
        !services[idx].is_active ==> spec_active_infos(services.take(idx + 1), rate, my)
            == spec_active_infos(services.take(idx), rate, my),
{
    broadcast use group_seq_properties;

    let pred = |s: SubscriptionService| s.is_active;
    let f = |s: SubscriptionService| spec_service_info(s, rate, my);
    let one = seq![services[idx]];
    assert(services.take(idx + 1) =~= services.take(idx) + one);
    Seq::filter_distributes_over_add(services.take(idx), one, pred);
    reveal_with_fuel(Seq::filter, 2);
    if services[idx].is_active {
        assert(one.filter(pred) =~= one);
        assert(services.take(idx + 1).filter(pred) =~= services.take(idx).filter(pred).push(
            services[idx],
        ));
        assert(services.take(idx + 1).filter(pred).map_values(f) =~= services.take(
            idx,
        ).filter(pred).map_values(f).push(f(services[idx])));
    } else {
        assert(one.filter(pred) =~= Seq::<SubscriptionService>::empty());
        assert(services.take(idx + 1).filter(pred) =~= services.take(idx).filter(pred));
    }
}

} // verus!
