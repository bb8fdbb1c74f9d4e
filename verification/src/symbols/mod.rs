//! Code symbols: the names of the addresses of the kernel code.
pub mod list;
