[package]
name = "device_paths"
version = "0.1.0"
edition = "2021"
publish = false

[dependencies]
actix-web = { version = "=4.15.0", default-features = false }
actix-web-httpauth = "=0.8.3"
anyhow = "=1.0.104"
jwt-simple = { version = "=0.15.0", default-features = false, features = ["pure-rust", "jwe"] }
log = "=0.4.34"
serde = { version = "=1.0.229", features = ["derive"] }
