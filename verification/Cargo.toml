[package]
name = "aetheris-protocol"
version = "0.2.13"
edition = "2021"
publish = false

[dependencies]
serde = { version = "1", features = ["derive"] }
serde_bytes = "0.11"
rmp-serde = "1"
thiserror = "2"
async-trait = "0.1"
