[package]
name = "pamplemouche"
version = "0.1.0"
edition = "2021"
publish = false

[dependencies]
x86_64 = { version = "=0.14.13", default-features = false, features = ["instructions"] }
spin = "=0.9.9"
lazy_static = { version = "=1.5.1", features = ["spin_no_std"] }
pc-keyboard = "=0.7.0"
pic8259 = { version = "=0.10.4", default-features = false }
linked_list_allocator = "=0.10.6"
bootloader = { version = "=0.9.35", features = ["map_physical_memory"] }
