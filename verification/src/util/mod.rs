//! Synchronization utilities.

pub mod barrier;
