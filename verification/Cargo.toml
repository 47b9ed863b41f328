[package]
name = "update_available"
version = "0.1.0"
edition = "2021"
publish = false

[dependencies]
anyhow = "1"
semver = "1"
serde = { version = "1", features = ["derive"] }
serde_json = "1"
ureq = { version = "3", default-features = false, features = ["json"] }
