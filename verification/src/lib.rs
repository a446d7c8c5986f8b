//! Scheduling and synchronisation rules of a personal reminder application.
//!
//! The crate holds the decisions of the application: how a recurrence is
//! validated and when it fires next, which timers are armed, when a sync
//! attempt may run, who owns the remote lock and which version of a row
//! survives a merge. The store, the network, the clock and the timers
//! belong to the caller.
//!
//! Every function carries a contract. Verus proves the contracts, but for
//! those of the few wrappers around `chrono`, `cron`, `base64` and the
//! standard library, each of which says in its documentation what it takes
//! on trust.

pub mod errors;
pub mod text;
pub mod datemath;
pub mod models;
pub mod recurrence;
pub mod merge;
pub mod tables;
pub mod remote;
pub mod sync;
pub mod attempt;
pub mod scheduler;
pub mod commands;
pub mod notes;
pub mod version;
