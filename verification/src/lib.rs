//! Analytic core of a metrics-monitoring service.
//!
//! The crate scans time-ordered numeric series and reports the intervals in
//! which a sample exceeds a threshold, models the configuration of the
//! analytic units that run such scans, and decides whether a change of
//! configuration invalidates what a unit has learned.
//!
//! Every function is verified against the contract it carries. Fetching a
//! series and storing segments are left to the caller, who hands query
//! results in as plain values.

pub mod ieee;
pub mod series;
pub mod threshold;
pub mod config;
pub mod segment;
pub mod unit;
pub mod service;
