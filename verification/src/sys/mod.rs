//! Kernel call interface: the call codes, the call paths and the calls.
pub mod call;
pub mod codes;
pub mod fn_path;
