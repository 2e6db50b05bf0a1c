[package]
name = "neotron_common_bios"
version = "0.1.0"
edition = "2021"
publish = false

[dependencies]
chrono = { version = "0.4", default-features = false }
neotron-ffi = "0.1"
pc-keyboard = "0.7"
