//! A multi-creator tipping ledger: creator registry, per-creator balances,
//! platform-fee accrual and owner-gated administration, with the value
//! transfers and event logging left to the host environment.

pub mod amount;
pub mod error;
pub mod event;
pub mod factory;
pub mod fee;
pub mod identity;
pub mod profile;
