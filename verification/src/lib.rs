//! One-shot host-metrics collection logic: fixed-point rounding of sensor
//! readings, substring-based sensor classification, metric-row construction,
//! and the commit/abort decision for a batch of inserts.
//!
//! Values are carried in fixed-point form: raw readings in thousandths
//! (milli-units), stored values in hundredths (centi-units), so that
//! "rounded to 2 decimal places" is a property of the integer representation.
//! The surrounding binary reads the host sensors and talks to the database;
//! this crate holds everything that can be stated and proved.

pub mod classify;
pub mod metrics;
pub mod rounding;
pub mod text;
pub mod txn;
