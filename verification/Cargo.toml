[package]
name = "mouros"
version = "0.1.0"
edition = "2021"
publish = false

[dependencies]
crossbeam-queue = "=0.3.14"
font8x8 = { version = "=0.3.1", default-features = false }
spin = "=0.9.9"
x86_64 = { version = "=0.15.5", default-features = false, features = ["instructions"] }
pc-keyboard = "=0.7.0"
nanomp3 = "=0.2.0"
neurodoom = "=0.6.7"
conquer-once = { version = "=0.4.0", default-features = false }
lazy_static = { version = "=1.5.1", features = ["spin_no_std"] }
pic8259 = { version = "=0.11.0", default-features = false, features = ["stable"] }
bootloader = { version = "=0.9.35", features = ["map_physical_memory"] }
