use vstd::prelude::*;
use crate::constants::DEFAULT_PROTOCOL_FEE_BPS;
use crate::state::GlobalState;

verus! {

/// Creates the protocol configuration: the authority, the default protocol
/// fee, the references to the external collaborators (stake pool, receipt
/// token mint, stake-pool program, price feed, payment token mint), and
/// zeroed counters.
pub fn initialize(
    authority: u64,
    jito_stake_pool: u64,
    jito_sol_mint: u64,
    spl_stake_pool_program: u64,
    sol_usd_price_feed: u64,
    usdc_mint: u64,
) -> (r: GlobalState)
    ensures
        r == (GlobalState {
            authority,
            protocol_fee_bps: DEFAULT_PROTOCOL_FEE_BPS,
            is_paused: false,
            jito_stake_pool,
            jito_sol_mint,
            spl_stake_pool_program,
            sol_usd_price_feed,
            usdc_mint,
            total_services: 0,
            last_payment_processed: 0,
        }),
        r.wf(),
{
    GlobalState {
        authority,
        protocol_fee_bps: DEFAULT_PROTOCOL_FEE_BPS,
        is_paused: false,
        jito_stake_pool,
        jito_sol_mint,
        spl_stake_pool_program,
        sol_usd_price_feed,
        usdc_mint,
        total_services: 0,
        last_payment_processed: 0,
    }
}

} // verus!
