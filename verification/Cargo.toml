[package]
name = "burn_import"
version = "0.1.0"
edition = "2021"
publish = false

[dependencies]
proc-macro2 = "1"

[dev-dependencies]
burn = { version = "0.17", default-features = false, features = ["ndarray"] }
