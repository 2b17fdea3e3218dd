//! Coordinated shutdown and strict marker-protocol stream consumption.
//!
//! The crate models the two stateful pieces of a ledger-feed listener
//! process: a broadcast shutdown coordinator that any task may trigger and
//! every task observes, and a consumer that parses a stream of ledger-update
//! records into milestone batches delimited by begin/end markers, stopping
//! cleanly the moment the shutdown signal fires.  The surrounding process
//! (the HTTP liveness endpoint, the feed transport, the OS signal source)
//! performs the actual I/O and drives these components event by event.

pub mod protocol;
pub mod shutdown;
pub mod supervisor;

