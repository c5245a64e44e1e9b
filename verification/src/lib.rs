//! Accounting core of a pooled, collateralized lending facility.
//!
//! Depositors supply a base asset and receive a proportional claim token;
//! borrowers post collateral and draw against the pooled base asset at an
//! interest rate that is a deterministic function of pool utilization.
//! This crate is the ledger and risk-state engine: the pool's aggregate
//! balances, per-borrower loan records, the collateral-sizing policy, the
//! utilization-driven interest-rate model, and the invariants every balance
//! mutation must preserve. Asset custody, account plumbing, and the on-chain
//! entry points live outside the library and call into it with plain values.

pub mod collateral;
pub mod engine;
pub mod errors;
pub mod laws;
pub mod ledger;
pub mod loan;
pub mod rate;
pub mod types;
