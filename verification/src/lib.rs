//! A permissioned price-reference oracle: an owner curates a set of relayers,
//! relayers publish fixed-point rates per symbol, and anyone may ask for the
//! cross-rate between two symbols.
//!
//! The host authenticates callers, persists the state and publishes the
//! events; the oracle itself is a state machine over plain values.

pub mod bytes;
pub mod laws;
pub mod model;
pub mod pallet;
pub mod price;
pub mod table;
pub mod types;

pub use pallet::Pallet;
pub use table::Table;
pub use types::{AccountId, Error, Event, RateEntry, RateUpdate, ReferenceData, E18, E9};
