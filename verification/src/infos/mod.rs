//! Boot informations.
pub mod info;
