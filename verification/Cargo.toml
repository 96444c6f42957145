[package]
name = "autoendpoint"
version = "0.1.0"
edition = "2021"
publish = false

[dependencies]
actix-web = { version = "3", default-features = false }
async-trait = "0.1"
backtrace = "0.3"
cadence = "0.29"
jsonwebtoken = "8"
openssl = "0.10"
reqwest = { version = "0.11", default-features = false, features = ["json"] }
serde = { version = "1", features = ["derive"] }
serde_json = "1"
thiserror = "1"
url = "2"
uuid = { version = "1", features = ["v4", "serde"] }
validator = "0.16"
