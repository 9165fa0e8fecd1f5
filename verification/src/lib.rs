//! A minimal deterministic state-transition runtime: independent state
//! modules ("pallets"), each owning a keyed mapping from an account-like
//! identity to some value, driven by a per-module dispatch entry point.
//!
//! - [`balances`] keeps per-account balances and a checked-arithmetic
//!   transfer that conserves total supply.
//! - [`proof_of_existence`] keeps an exclusive claim registry with
//!   ownership-gated revocation.
//! - [`system`] keeps the global block counter and per-account nonces.
//! - [`support`] holds the error kinds shared by every module.

pub mod balances;
pub mod proof_of_existence;
pub mod support;
pub mod system;
