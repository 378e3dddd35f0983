[package]
name = "ca_core"
version = "0.1.0"
edition = "2021"
publish = false

[dependencies]
chrono = "0.4"
uuid = { version = "1", features = ["v4"] }
validator = { version = "*", features = ["derive"] }
serde = { version = "1", features = ["derive"] }
thiserror = "*"
async-trait = "0.1"
futures = "0.3"
log = "0.4"
