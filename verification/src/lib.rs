//! Accounting and lifecycle core of a subscription-billing protocol.
//!
//! Fees are denominated in a stable fiat unit (USD cents) while balances are
//! held in a volatile native asset (SOL lamports).  The library covers the
//! per-user ledger, the provider/service catalog, the subscription state
//! machine, payment settlement with an oracle-supplied price, and the
//! accounting of a liquid-staking position.  External collaborators (the
//! price oracle, the stake pool, token transfers) are modeled at their
//! interface: callers hand in the observed values and perform the resulting
//! transfers.

pub mod constants;
pub mod errors;
pub mod state;
pub mod price;
pub mod ledger;
pub mod catalog;
pub mod protocol;
pub mod subscription;
pub mod settlement;
pub mod staking;
pub mod affordability;
pub mod laws;
