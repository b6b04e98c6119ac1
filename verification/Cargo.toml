[package]
name = "filestore"
version = "0.1.0"
edition = "2021"
publish = false

[dependencies]
rust-crypto = "*"
postgres = "*"
serde = { version = "*", features = ["derive"] }
log = "*"
bytes = "*"
