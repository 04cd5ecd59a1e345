//! A verified core for recording developer analytics.
//!
//! The crate keeps sessions, activity samples and health samples in tables
//! with stated invariants, answers trend queries over them, and composes a
//! session from the location and host facts that are gathered when it opens.
//! Every executable function carries a contract. Verus proves each of them
//! but those of the few calls into outside crates, which are marked as such.
//!
//! - [`model`]: the records and the instants they are stamped with.
//! - [`trend`]: which samples a query selects, and in which order.
//! - [`store`]: the three tables.
//! - [`geo`]: from a city database's answer to a location.
//! - [`host`]: the snapshot of the host.
//! - [`manager`]: the recorder itself.
//! - [`laws`]: what holds across calls.
//! - [`repository`]: the decisions around cloning a repository.
//!
//! Reading and writing files, the network and the durable store are left to
//! the caller, which hands in what they returned.

pub mod geo;
pub mod host;
pub mod laws;
pub mod manager;
pub mod model;
pub mod repository;
pub mod store;
pub mod trend;
