//! Kernel core loader.
pub mod cache;
