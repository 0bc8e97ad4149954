[package]
name = "jlrs-ledger"
version = "0.3.0"
edition = "2021"
publish = false

[dependencies]
once_cell = "1"
rustc-hash = "2"
spin = { version = "0.9", default-features = false, features = ["mutex", "spin_mutex"] }
