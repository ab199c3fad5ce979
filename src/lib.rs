//! Policy and ledger core of a governed treasury vault: roles, recipient
//! whitelist, rolling-epoch spending limits, scheduled payouts, per-asset
//! balances and the audit trail.

pub mod address;
pub mod error;
pub mod state;
pub mod audit;
pub mod epoch;
pub mod token_account;
pub mod instructions;
pub mod payouts;
pub mod tokens;
pub mod laws;
