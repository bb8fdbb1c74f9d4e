//! Synchronisation primitives.
pub mod mutex;
