//! Typed addresses.
pub mod hw_virt_addr;
pub mod order;
pub mod phys_addr;
pub mod virt_addr;
