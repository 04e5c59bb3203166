//! Verified core of a solar-telemetry collector.
//!
//! A monitoring gateway periodically polls a photovoltaic supervisor for the
//! latest readings of a fixed set of device categories (one supervisor, one
//! production meter, one consumption meter, and any number of inverters) and
//! inserts each new reading into a persistent store exactly once.  The device
//! echoes its last reading until its internal counters roll over, so a freshly
//! polled snapshot must be reconciled against the most recently persisted
//! state: repeats are turned into content-free heartbeat rows, new data passes
//! through unchanged.
//!
//! This crate holds the parts with real invariants, all verified:
//! - [`schedule`]: the wall-clock-aligned periodic schedule computation;
//! - [`devices`]: the snapshot data model and its sentinel conventions;
//! - [`reconcile`]: the pure snapshot reconciliation engine;
//! - [`store`]: row selection for latest-state reads and write-batch outcomes;
//! - [`config`]: configuration records and their validation rules.
//!
//! Polling over HTTP, payload decoding, database access, logging, and timers
//! are external collaborators; they live outside this crate and exchange plain
//! values with it.

pub mod config;
pub mod devices;
pub mod reconcile;
pub mod schedule;
pub mod store;
