[package]
name = "zombiesplit"
version = "0.1.0"
edition = "2021"
publish = false

[dependencies]
num-integer = "0.1"
serde = { version = "1", features = ["derive"] }
serde_with = "*"
thiserror = "*"
semver = "1"
log = "0.4"
anyhow = "1"
tonic = { version = "*", default-features = false }
rusqlite = "*"
