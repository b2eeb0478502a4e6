//! Verified core of a multi-instance running-pace calculator.
//!
//! Each instance holds a pace (seconds per kilometer), a split interval and a
//! target distance (both in meters), validates raw text edits of those fields,
//! and derives a total duration plus a table of intermediate split times.
//! Instances are created and removed through a registry that never reuses an
//! identifier; a keyed store owns the durable per-instance record.

pub mod calculator;
pub mod context;
pub mod derived;
pub mod form_state;
pub mod laws;
pub mod parse;
pub mod registry;
pub mod store;
