//! Live metric history engine.
//!
//! A fixed-capacity rotating sample store per tracked metric, the per-tick
//! update protocol that feeds it, the unit-scaling algorithm that turns raw
//! magnitudes into human-readable axis labels, and the epoch-safe computation
//! of "time running" across resets of the measurement reference point.
//!
//! Samples are opaque 64-bit payloads (at the boundary they are IEEE-754
//! double bit patterns); the engine stores, rotates and hands them back
//! without interpreting them.

pub mod decimal;
pub mod elapsed;
pub mod format;
pub mod labeler;
pub mod metric;
pub mod ring;
pub mod updater;
