//! Acquisition and publication pipeline for an air-particulate monitor.
//!
//! The library decides; the caller performs the I/O. A sensor's cycle is a
//! state machine fed with the outcome of each bus operation, the aggregated
//! reading is the per-channel integer mean of the collected samples, the
//! publication plan lists the messages to send, and the scheduler keeps the
//! cycles of one sensor from overlapping.

pub mod sample;
pub mod acquisition;
pub mod publish;
pub mod schedule;
