//! A fungible-asset accounting ledger and a generalized vesting engine.
//!
//! The ledger (`psp22`) keeps per-account balances and per-(owner, spender)
//! allowances for one asset, and maintains conservation of value: the sum of
//! all balances always equals the total minted minus the total burned.
//!
//! The vesting engine (`vesting`) locks a quantity of an asset under a
//! time-release schedule (`schedule`) and exposes a single `release`
//! operation that pays out whatever fraction has matured, aggregated over
//! every vest entry that matches a (receiver, asset) pair.

pub mod account;
pub mod errors;
pub mod ownable;
pub mod psp22;
pub mod schedule;
pub mod vesting;
