//! Typed metrics from a cable modem's status dump.
//!
//! The modem reports its SNMP-style object space as one flat map from dotted
//! identifiers to value text. [`snmp`] recovers the scalars and tables that
//! map encodes, [`column`] and the group modules convert rows into typed
//! values, and [`collector`] runs one scrape cycle in which every group is
//! updated from the same snapshot, or none is.
pub mod assoc;
pub mod collector;
pub mod column;
pub mod configuration_metrics;
pub mod downstream_metrics;
pub mod error;
pub mod snmp;
pub mod status_metrics;
pub mod text;
pub mod upstream_metrics;
