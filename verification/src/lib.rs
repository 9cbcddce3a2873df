//! A liveness-tracking presence synchronizer.
//!
//! A monitored server reports that it is alive and how many players it
//! holds. The crate keeps one authoritative record of that, detects
//! silence past a timeout, and hands a slow presence sink the latest
//! state once per burst of changes.

pub mod record;
pub mod error;
pub mod store;
pub mod split;
pub mod count;
pub mod ingest;
pub mod clock;
pub mod reconciler;
pub mod synchronizer;
pub mod history;
pub mod guarantees;
pub mod replay;
pub mod command;
pub mod presenter;
