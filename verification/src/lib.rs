//! A verified compute-capacity rental marketplace.
//!
//! Providers advertise hourly compute capacity at a fixed token rate, renters
//! lease hours against it, and providers mark leases as completed. Every
//! operation is a total function from the current ledger state and its inputs
//! to a new state and a result; an aborted operation leaves the state as it
//! was.
pub mod errors;
pub mod records;
pub mod rules;
pub mod state;
pub mod contract;
pub mod laws;

pub use contract::{TokenBridgeContract, LEASE_RENEWAL_TARGET, LEASE_RENEWAL_THRESHOLD};
pub use errors::MarketError;
pub use records::{ComputeResource, RentalAgreement, RentalBook, ResourceBook};
pub use rules::{complete, rent, Lease};
