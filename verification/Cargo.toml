[package]
name = "agenomic"
version = "0.1.0"
edition = "2021"
publish = false

[dependencies]
blake3 = "1"
ed25519-dalek = "2"
serde = { version = "1", features = ["derive"] }
serde_json = "1"
serde-big-array = "0.5"
ciborium = "0.2"
chrono = { version = "0.4", features = ["serde"] }
nalgebra = "0.33"
statrs = "*"
thiserror = "1"
