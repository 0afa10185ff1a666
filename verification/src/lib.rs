//! Verified core of the shitstrap contracts: permissionless, single-use OTC
//! swaps in which participants trade accepted tokens for a strapped token at
//! fixed rates until a cutoff value is reached, plus a factory that records
//! the instances it creates.
//!
//! The chain-facing parts (storage, address validation, queries to other
//! contracts, JSON) live outside this crate; everything that decides stands
//! here with its contract.

pub mod cosmos;
pub mod denom;
pub mod order;
pub mod sorted_map;
pub mod error;
pub mod msg;
pub mod shitstrap;
pub mod shitstrap_laws;
pub mod decimal_strap;
pub mod factory;
