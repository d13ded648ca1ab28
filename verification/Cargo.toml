[package]
name = "scratch_blocks"
version = "0.1.0"
edition = "2021"
publish = false

[dependencies]
lazy_static = "=1.5.1"
regex = "=1.13.1"
reqwest = { version = "=0.11.27", default-features = false, features = ["blocking", "rustls-tls"] }
serde = "=1.0.229"
serde_derive = "=1.0.229"
serde_json = { version = "=1.0.154", features = ["preserve_order"] }
