use vstd::prelude::*;

verus! {

// String bounds
pub const MAX_NAME_LENGTH: usize = 64;
pub const MAX_DESCRIPTION_LENGTH: usize = 200;
pub const MAX_URL_LENGTH: usize = 200;

// Protocol configuration
pub const DEFAULT_PROTOCOL_FEE_BPS: u16 = 100;
pub const MAX_PROTOCOL_FEE_BPS: u16 = 1000;
pub const MIN_SUBSCRIPTION_PERIOD_DAYS: u64 = 7;
pub const MAX_SUBSCRIPTION_PERIOD_DAYS: u64 = 365;

// Number of billing periods reserved as locked collateral on subscribe.
pub const LOCKED_PERIODS: u64 = 12;

// Staking configuration
pub const MIN_STAKE_AMOUNT: u64 = 1_000_000_000;
pub const YIELD_CALCULATION_PERIOD: i64 = 86400;
pub const YIELD_APY_PERCENT: u64 = 5;

// Haircut applied when estimating receipt tokens issued for a delegation:
// the stake pool reports slightly less than one receipt token per native unit.
pub const STAKE_RECEIPT_NUMERATOR: u64 = 98;
pub const STAKE_RECEIPT_DENOMINATOR: u64 = 100;

// Units and time
pub const LAMPORTS_PER_SOL: u64 = 1_000_000_000;
pub const BPS_DENOMINATOR: u64 = 10_000;
pub const MONTHS_PER_YEAR: u64 = 12;
pub const SECONDS_PER_DAY: i64 = 86400;
pub const SECONDS_PER_YEAR: u64 = 31_536_000;

// USDC has 6 decimals, so one cent is 10_000 base units.
pub const USDC_PER_CENT: u64 = 10_000;

// Oracle sanity band: accepted fiat value per native unit, in cents.
pub const MIN_PRICE_CENTS: u64 = 1000;
pub const MAX_PRICE_CENTS: u64 = 100_000;

// Maximum accepted oracle quote age, in seconds.
pub const MAX_PRICE_AGE_QUERY: u64 = 3600;
pub const MAX_PRICE_AGE_SETTLEMENT: u64 = 300;

} // verus!
