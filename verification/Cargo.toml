[package]
name = "dispatch_harness"
version = "0.1.0"
edition = "2021"
publish = false

[dependencies]
actix-http = "2"
actix-service = "1"
actix-web = { version = "3", default-features = false }
serde = "1"
serde_json = "1"

[dev-dependencies]
actix-rt = "1"
