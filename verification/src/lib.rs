//! A fungible-asset accounting ledger and a deterministic-deployment factory,
//! modelled as explicit state machines.
//!
//! The [`contract::Token`] aggregate tracks owner balances and time-bounded
//! spending allowances behind an authenticated interface (mint, transfer,
//! approve, burn), renewing the lifetime of every storage entry it touches.
//! The [`wine_factory::WineFactory`] aggregate keeps an append-only registry of
//! deployed token instances and derives a distinct deployment salt from its
//! counter for every new instance.
//!
//! The host facilities that surround these state machines in production — the
//! keyed persistent store, the authentication primitive, the event stream and
//! the code-deployment primitive — are external collaborators.  Here their
//! observable effects are part of each aggregate's state: storage entries carry
//! an explicit eviction horizon, published events accumulate in a log, and the
//! deployer's outcome is handed back to the factory as a plain address.

pub mod allowance;
pub mod balance;
pub mod contract;
pub mod events;
pub mod laws;
pub mod metadata;
pub mod models;
pub mod storage_types;
pub mod wine_factory;
pub mod wine_lot_metadata;
