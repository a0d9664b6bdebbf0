[package]
name = "hush"
version = "0.1.0"
edition = "2021"
publish = false

[dependencies]
gc = { version = "0.4", features = ["derive"] }
