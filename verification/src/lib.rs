//! Memory-management and capability core of the MeetiX microkernel.
//!
//! The crate holds the typed addresses, the slab based heap, the lazily
//! initialised heap front end and the object handle protocol together
//! with the kernel call addressing scheme.
pub mod addr;
pub mod bits;
pub mod dbg_print;
pub mod ent;
pub mod error;
pub mod heap;
pub mod helps;
pub mod infos;
pub mod limit;
pub mod loader;
pub mod logger;
pub mod objs;
pub mod path;
pub mod symbols;
pub mod sync;
pub mod sys;
pub mod task;
pub mod tasks;
