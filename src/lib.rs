//! Step scheduling and integration control for a single point-neuron model
//! (Komendantov and Kononenko, 1996) driven by an external real-time clock.
//!
//! Quantities are held as integers in fixed units: step sizes in
//! microseconds, durations and periods in nanoseconds, and throughputs in
//! millionths of an update point per second.

pub mod calibration;
pub mod selector;
pub mod schedule;
pub mod substeps;
pub mod keys;
pub mod tick;
