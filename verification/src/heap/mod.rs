//! Heap management: the slab allocators, the heap which multiplexes them
//! and the lazily initialised front end.
pub mod heap;
pub mod layout;
pub mod locked;
pub mod os;
pub mod slab;
