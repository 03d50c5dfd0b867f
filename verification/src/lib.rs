//! A marketplace listing and settlement engine over account-addressed
//! storage.
//!
//! A seller escrows one unit of an asset in a vault controlled by a
//! deterministically derived, keyless authority and records a listing at a
//! price; the listing ends through exactly one of two terminal transitions,
//! `delist` (the seller takes the unit back) or `purchase` (a buyer pays
//! the price, split exactly between the seller and the marketplace
//! treasury, and receives the unit). Every operation checks all of its
//! preconditions before touching any state, so it either commits
//! completely or changes nothing.
//!
//! - [`address`] — identities as opaque byte strings.
//! - [`authority`] — the derived-authority resolver over the ledger
//!   runtime's hash derivation, and the proof verifier.
//! - [`bank`] — the native-currency ledger the payment legs run against.
//! - [`error`] — the failure taxonomy.
//! - [`fees`] — the exact basis-point fee split and its conservation laws.
//! - [`market`] — listings, escrow vaults and the settlement engine.
//! - [`registry`] — marketplace creation, one instance per name.
//! - [`state`] — the records the engine works on.

pub mod address;
pub mod authority;
pub mod bank;
pub mod error;
pub mod fees;
pub mod market;
pub mod registry;
pub mod state;
