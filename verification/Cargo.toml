[package]
name = "specifier_rewrite"
version = "0.1.0"
edition = "2021"
publish = false

[dependencies]
globset = "*"
serde = { version = "*", features = ["derive"] }
serde_json = "*"
