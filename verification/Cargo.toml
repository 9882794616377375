[package]
name = "riot_rs"
version = "0.1.0"
edition = "2021"
publish = false

[dependencies]
portable-atomic = "1"
fixed = "1"
serde = { version = "1", features = ["derive"] }
serde_yaml = "0.9"
serde_json = "1"
syn = { version = "2", features = ["full"] }
quote = "1"
proc-macro2 = "1"
proc-macro-crate = "3"
enum-iterator = "2"
embedded-hal = "1"
embedded-hal-async = "1"
critical-section = { version = "1", features = ["std"] }
embassy-sync = "*"
embassy-time = "*"
linkme = "0.3"
