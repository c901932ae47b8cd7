//! Event-stream synchronization for a cache of compute-zone records.
//!
//! A local event service publishes one `Ready` baseline event followed by an
//! unbounded stream of `Create`/`Modify`/`Delete` lifecycle events for zones.
//! This crate folds that stream into a concurrently readable cache keyed by
//! numeric zone id, guards startup behind a one-shot readiness barrier, and
//! frames and decodes the newline-delimited JSON wire format.

pub mod barrier;
pub mod cache;
pub mod decode;
pub mod linefeed;
pub mod shared;
pub mod sync;
pub mod zone;
