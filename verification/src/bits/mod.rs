//! Bit extensions: abstractions for bit fields and bit flags.
pub mod bit_fields;
pub mod bit_flags;
