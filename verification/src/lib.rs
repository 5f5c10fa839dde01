//! An on-ledger exchange program, modelled as a verified library: a keyed
//! registry of synchronizer and session records, and a burn-and-mint engine
//! that swaps one fungible token for another at a fixed one-to-one rate under
//! a derived, keyless mint authority.

pub mod address;
pub mod authority;
pub mod error;
pub mod exchange;
pub mod registry;
pub mod token;
