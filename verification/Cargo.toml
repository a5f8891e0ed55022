[package]
name = "scpfs"
version = "0.1.0"
edition = "2021"
publish = false

[dependencies]
chrono = { version = "0.4", default-features = false, features = ["clock"] }
regex = "1"
ssh2 = { version = "0.9", features = ["vendored-openssl"] }
