[package]
name = "tricoredb"
version = "0.1.0"
edition = "2021"
publish = false

[dependencies]
serde = { version = "1", features = ["derive"] }
serde_json = { version = "1", features = ["arbitrary_precision"] }
rustls = { version = "0.23", default-features = false, features = ["ring", "std", "tls12", "logging"] }
