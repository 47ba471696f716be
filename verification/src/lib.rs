//! A deterministic registry of uniquely identified digital assets ("kitties")
//! with ownership tracking, a reproducible pseudo-genetic breeding rule, and a
//! simple escrow-free marketplace (list-for-sale / buy).
//!
//! - [`genome`] holds the 16-byte genome type, sex derivation, and the
//!   deterministic generation and mosaic-combination rules.
//! - [`balances`] models the balance-transfer service that `buy` settles
//!   through, with keep-alive semantics.
//! - [`pallet`] holds the persistent ledgers and the five atomic operations:
//!   create, breed, transfer, set_price, buy.

pub mod balances;
pub mod genome;
pub mod pallet;
