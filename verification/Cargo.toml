[package]
name = "kvstore_conformance"
version = "0.1.0"
edition = "2021"
publish = false

[dependencies]
lightning = { version = "0.0.123", features = ["std", "_test_utils"] }
lightning-persister = { version = "0.0.123" }
