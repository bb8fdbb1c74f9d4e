[package]
name = "meetix"
version = "0.1.0"
edition = "2021"
publish = false

[dependencies]
linked_list_allocator = { version = "0.9", default-features = false }
multiboot2 = "0.22"
uart_16550 = "0.2"
