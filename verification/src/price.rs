use vstd::prelude::*;
use vstd::arithmetic::div_mod::{lemma_basic_div, lemma_div_is_ordered};
use vstd::arithmetic::mul::lemma_mul_upper_bound;
use crate::constants::{LAMPORTS_PER_SOL, USDC_PER_CENT, MIN_PRICE_CENTS, MAX_PRICE_CENTS};
use crate::errors::ErrorCode;

verus! {

/// A quote read from the external price oracle: one native unit is worth
/// `price * 10^expo` fiat units, published at `publish_time` with confidence
/// interval `conf`.  The caller reads these fields from the oracle account
/// and hands them in as plain values.
#[derive(Clone, Copy, Debug, PartialEq, Eq, Structural)]
pub struct PriceObservation {
    pub price: i64,
    pub conf: u64,
    pub expo: i32,
    pub publish_time: i64,
}

pub open spec fn pow10(e: nat) -> int
    decreases e,
{
    if e == 0 {
        1
    } else {
        10 * pow10((e - 1) as nat)
    }
}

pub proof fn lemma_pow10_pos(e: nat)
    ensures
        pow10(e) >= 1,
    decreases e,
{
    if e > 0 {
        lemma_pow10_pos((e - 1) as nat);
    }
}

pub proof fn lemma_pow10_mono(a: nat, b: nat)
    requires
        a <= b,
    ensures
        pow10(a) <= pow10(b),
    decreases b,
{
    if a < b {
        lemma_pow10_mono(a, (b - 1) as nat);
        lemma_pow10_pos((b - 1) as nat);
    }
}

/// Computes `10^e`, or `None` where that exceeds `u64::MAX`.
fn pow10_checked(e: u32) -> (r: Option<u64>)
    ensures
        match r {
            Some(v) => v == pow10(e as nat),
            None => pow10(e as nat) > u64::MAX,
        },
{
    let mut acc: u64 = 1;
    let mut i: u32 = 0;
    while i < e
        invariant
            i <= e,
            acc == pow10(i as nat),
        decreases e - i,
    {
        if acc > u64::MAX / 10 {
            proof {
                lemma_pow10_mono((i + 1) as nat, e as nat);
            }
            return None;
        }
        acc = acc * 10;
        i = i + 1;
    }
    Some(acc)
}

/// The quote is older than the caller's staleness bound.
pub open spec fn price_stale(publish_time: i64, now: i64, max_age: u64) -> bool {
    now - publish_time > max_age
}

/// The quote in fiat cents per native unit, by exact integer arithmetic.
pub open spec fn spec_price_cents(price: int, expo: int) -> int {
    if expo >= 0 {
        price * pow10(expo as nat) * 100
    } else {
        (price * 100) / pow10((-expo) as nat)
    }
}

/// The cents computation leaves the 64-bit range used for it.
pub open spec fn price_cents_overflows(price: int, expo: int) -> bool {
    if expo >= 0 {
        price * pow10(expo as nat) * 100 > u64::MAX
    } else {
        price * 100 > u64::MAX
    }
}

/// Sanity band on the fiat value of one native unit.
pub open spec fn price_in_band(cents: int) -> bool {
    MIN_PRICE_CENTS <= cents <= MAX_PRICE_CENTS
}

/// All the conditions under which a quote is accepted.
pub open spec fn price_acceptable(obs: PriceObservation, now: i64, max_age: u64) -> bool {
    &&& !price_stale(obs.publish_time, now, max_age)
    &&& obs.price > 0
    &&& !price_cents_overflows(obs.price as int, obs.expo as int)
    &&& price_in_band(spec_price_cents(obs.price as int, obs.expo as int))
}

/// The error with which a quote is rejected, if any, in the order the
/// checks are made: staleness, positivity, machine range, sanity band.
pub open spec fn spec_price_err(obs: PriceObservation, now: i64, max_age: u64) -> Option<
    ErrorCode,
> {
    if price_stale(obs.publish_time, now, max_age) {
        Some(ErrorCode::PriceNotAvailable)
    } else if obs.price <= 0 {
        Some(ErrorCode::InvalidPrice)
    } else if price_cents_overflows(obs.price as int, obs.expo as int) {
        Some(ErrorCode::ArithmeticOverflow)
    } else if !price_in_band(spec_price_cents(obs.price as int, obs.expo as int)) {
        Some(ErrorCode::InvalidPrice)
    } else {
        None
    }
}

/// Validates an oracle quote and converts it to fiat cents per native unit.
///
/// Every consumer of the oracle goes through this function, so a stale,
/// non-positive, or out-of-band quote is rejected everywhere with the same
/// error kind.
pub fn get_validated_price(obs: &PriceObservation, now: i64, max_age: u64) -> (r: Result<
    u64,
    ErrorCode,
>)
    ensures
        r == Err::<u64, ErrorCode>(ErrorCode::PriceNotAvailable) <==> price_stale(
            obs.publish_time,
            now,
            max_age,
        ),
        !price_stale(obs.publish_time, now, max_age) ==> (r == Err::<u64, ErrorCode>(
            ErrorCode::InvalidPrice,
        ) <==> (obs.price <= 0 || (!price_cents_overflows(obs.price as int, obs.expo as int)
            && !price_in_band(spec_price_cents(obs.price as int, obs.expo as int))))),
        !price_stale(obs.publish_time, now, max_age) && obs.price > 0 ==> (r == Err::<
            u64,
            ErrorCode,
        >(ErrorCode::ArithmeticOverflow) <==> price_cents_overflows(
            obs.price as int,
            obs.expo as int,
        )),
        r is Ok <==> price_acceptable(*obs, now, max_age),
        r is Ok ==> r->Ok_0 == spec_price_cents(obs.price as int, obs.expo as int),
        r is Ok <==> spec_price_err(*obs, now, max_age) is None,
        r is Err ==> Some(r->Err_0) == spec_price_err(*obs, now, max_age),
{
    let now_wide: i128 = now as i128;
    let publish_wide: i128 = obs.publish_time as i128;
    if now_wide - publish_wide > max_age as i128 {
        return Err(ErrorCode::PriceNotAvailable);
    }
    if obs.price <= 0 {
        return Err(ErrorCode::InvalidPrice);
    }
    let p: u64 = obs.price as u64;
    let cents: u64;
    if obs.expo >= 0 {
        let e: u32 = obs.expo as u32;
        let pw: u64 = match pow10_checked(e) {
            Some(v) => v,
            None => {
                proof {
                    // price >= 1, so price * pow10(e) * 100 >= pow10(e) > u64::MAX
                    lemma_mul_upper_bound(1, p as int, pow10(e as nat), pow10(e as nat));
                    assert(p * pow10(e as nat) >= pow10(e as nat)) by (nonlinear_arith)
                        requires p >= 1 && pow10(e as nat) >= 0;
                    assert(p * pow10(e as nat) * 100 >= p * pow10(e as nat)) by (nonlinear_arith)
                        requires p * pow10(e as nat) >= 0;
                }
                return Err(ErrorCode::ArithmeticOverflow);
            },
        };
        let m1: u64 = match p.checked_mul(pw) {
            Some(v) => v,
            None => {
                proof {
                    assert(p * pow10(e as nat) * 100 >= p * pow10(e as nat)) by (nonlinear_arith)
                        requires p * pow10(e as nat) >= 0;
                }
                return Err(ErrorCode::ArithmeticOverflow);
            },
        };
        cents = match m1.checked_mul(100) {
            Some(v) => v,
            None => {
                return Err(ErrorCode::ArithmeticOverflow);
            },
        };
    } else {
        let num: u64 = match p.checked_mul(100) {
            Some(v) => v,
            None => {
                return Err(ErrorCode::ArithmeticOverflow);
            },
        };
        let mag_wide: i64 = -(obs.expo as i64);
        let mag: u32 = mag_wide as u32;
        cents = match pow10_checked(mag) {
            Some(d) => {
                proof {
                    lemma_pow10_pos(mag as nat);
                }
                num / d
            },
            None => {
                proof {
                    // the divisor exceeds the numerator, so the quotient is zero
                    lemma_basic_div(num as int, pow10(mag as nat));
                }
                0u64
            },
        };
    }
    if cents < MIN_PRICE_CENTS || cents > MAX_PRICE_CENTS {
        return Err(ErrorCode::InvalidPrice);
    }
    Ok(cents)
}

/// Fiat cents converted to lamports at `rate_cents` cents per native unit.
pub open spec fn spec_usd_to_lamports(usd_cents: int, rate_cents: int) -> int {
    (usd_cents * LAMPORTS_PER_SOL as int) / rate_cents
}

/// Converts a fiat amount in cents to lamports at the given rate.
///
/// `lamports = usd_cents * LAMPORTS_PER_SOL / sol_usd_cents`, exact over the
/// integers; fails only where the result leaves the 64-bit range (or the
/// rate is zero, which validated rates never are).
pub fn convert_usd_to_sol_lamports(usd_cents: u64, sol_usd_cents: u64) -> (r: Result<
    u64,
    ErrorCode,
>)
    ensures
        r is Ok <==> sol_usd_cents > 0 && spec_usd_to_lamports(
            usd_cents as int,
            sol_usd_cents as int,
        ) <= u64::MAX,
        r is Ok ==> r->Ok_0 == spec_usd_to_lamports(usd_cents as int, sol_usd_cents as int),
        r is Err ==> r == Err::<u64, ErrorCode>(ErrorCode::ArithmeticOverflow),
{
    if sol_usd_cents == 0 {
        return Err(ErrorCode::ArithmeticOverflow);
    }
    proof {
        lemma_mul_upper_bound(
            usd_cents as int,
            u64::MAX as int,
            LAMPORTS_PER_SOL as int,
            LAMPORTS_PER_SOL as int,
        );
    }
    let num: u128 = (usd_cents as u128) * (LAMPORTS_PER_SOL as u128);
    let q: u128 = num / (sol_usd_cents as u128);
    if q > u64::MAX as u128 {
        return Err(ErrorCode::ArithmeticOverflow);
    }
    Ok(q as u64)
}

/// Lamports converted to USDC base units (6 decimals) at `rate_cents`.
pub open spec fn spec_sol_to_usdc(sol_lamports: int, rate_cents: int) -> int {
    ((sol_lamports * rate_cents) / LAMPORTS_PER_SOL as int) * USDC_PER_CENT as int
}

/// Converts a lamport amount to USDC base units at the given rate.
pub fn convert_sol_to_usdc_amount(sol_lamports: u64, sol_usd_cents: u64) -> (r: Result<
    u64,
    ErrorCode,
>)
    ensures
        r is Ok <==> spec_sol_to_usdc(sol_lamports as int, sol_usd_cents as int) <= u64::MAX,
        r is Ok ==> r->Ok_0 == spec_sol_to_usdc(sol_lamports as int, sol_usd_cents as int),
        r is Err ==> r == Err::<u64, ErrorCode>(ErrorCode::ArithmeticOverflow),
{
    proof {
        lemma_mul_upper_bound(sol_lamports as int, u64::MAX as int, sol_usd_cents as int, u64::MAX as int);
    }
    let prod: u128 = (sol_lamports as u128) * (sol_usd_cents as u128);
    let d: u128 = prod / (LAMPORTS_PER_SOL as u128);
    proof {
        lemma_div_is_ordered(prod as int, u64::MAX as int * u64::MAX as int, LAMPORTS_PER_SOL as int);
        lemma_mul_upper_bound(
            d as int,
            (u64::MAX as int * u64::MAX as int) / LAMPORTS_PER_SOL as int,
            USDC_PER_CENT as int,
            USDC_PER_CENT as int,
        );
    }
    let m: u128 = d * (USDC_PER_CENT as u128);
    if m > u64::MAX as u128 {
        return Err(ErrorCode::ArithmeticOverflow);
    }
    Ok(m as u64)
}

} // verus!
