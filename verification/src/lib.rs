//! Telemetry aggregation engine for a payment-channel node dashboard.
//!
//! The library turns raw records polled from a node's administrative API
//! (channels, payment-relay audit log, peer directory, optional hosted and
//! fiat channel extensions) into the derived statistics a terminal dashboard
//! displays: channel classification into active/pending/sleeping groups,
//! balance sums, time-windowed relay totals, percentage-normalized activity
//! histograms, and per-channel statistics.  Everything here is pure
//! computation over plain values; the network client, clock, terminal UI and
//! persistence live outside the library and feed it data.

pub mod audit;
pub mod channel;
pub mod common;
pub mod histogram;
pub mod hosted;
pub mod node;
pub mod plugin;
pub mod query;
pub mod snapshot;
pub mod stats;
pub mod store;
pub mod sums;
