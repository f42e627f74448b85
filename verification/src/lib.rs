//! A claim-ownership registry ("proof of existence").
//!
//! A claim binds an opaque byte fingerprint to the one account that owns it
//! and to the block at which that ownership took effect. The registry is a
//! deterministic state machine with three transitions: create, revoke and
//! transfer. Each transition either passes every check, changes exactly one
//! entry and yields exactly one event, or changes nothing and yields an error.

pub mod types;
pub mod store;
pub mod lookup;
pub mod rules;
pub mod registry;
pub mod laws;

pub use registry::Pallet;
pub use types::{AccountId, BlockNumber, Claim, Config, Error, Event, Origin};
