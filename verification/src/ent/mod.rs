//! OS entities: the users and the groups.
pub mod impls;
pub mod types;
