[package]
name = "maintenance_fsm"
version = "0.1.0"
edition = "2021"
publish = false

[dependencies]
rust-fsm = { version = "*", default-features = false, features = ["std"] }
