[package]
name = "ruma_identifiers"
version = "0.1.0"
edition = "2021"
publish = false

[dependencies]
ruma-identifiers-validation = "*"
either = "*"
serde = { version = "*", features = ["derive"] }
serde_json = "*"
