//! The rules of a supply-chain ledger kept by a Soroban contract.
//!
//! The contract registers products under the identifiers 1, 2, 3 and so on,
//! moves them from place to place, and answers lookups, with a sentinel for a
//! product that is not there. The host of the contract keeps its storage; this
//! crate keeps its rules. Each operation of `SupplyChainContract` takes what
//! the host had stored under the keys it concerns and, where it changes
//! anything, returns a `Commit`, the writes that the host is to carry out. The
//! module `store` says what the operations do to the storage when they are
//! called one after another.

pub mod contract;
pub mod host;
pub mod product;
pub mod store;

pub use contract::{Commit, CommitView, ContractError, SupplyChainContract};
pub use product::{Product, ProductBook, ProductView};
pub use store::Store;
