//! Verified core of a write-durability benchmark for a transactional
//! embedded store: the storage-backend model with its variant sync
//! policies, the per-transaction durability policy, a call-logging
//! wrapper, and the harness logic that keeps the transactional path and
//! the raw-file path issuing matching sync work.

pub mod backend;
pub mod logging;
pub mod durability;
pub mod harness;
pub mod store;
