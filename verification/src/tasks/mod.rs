//! Task management: the tasks and the configuration which finds or
//! spawns them.
pub mod bits;
pub mod config;
pub mod impls;
