//! Objects: the handle which names a kernel object, the calls which act
//! on it and the kernel side bookkeeping of the references.
pub mod ipc_chan;
pub mod modes;
pub mod object;
pub mod owner;
pub mod table;
pub mod types;
pub mod uses;
