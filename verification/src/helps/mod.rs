//! Little helpers.
pub mod str;
