//! Traffic-statistics aggregation and reporting engine for a network monitor.
//!
//! The crate keeps per-connection, per-host and per-service traffic facts and
//! answers read queries against them: a filtered, sorted, paginated page of
//! connection report entries together with running totals, and capped, sorted
//! snapshots of the host and service tables.

pub mod data_info;
pub mod info_address_port_pair;
pub mod order;
pub mod report;
pub mod search;
pub mod timestamp;
pub mod types;
