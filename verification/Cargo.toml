[package]
name = "authkestra"
version = "0.1.0"
edition = "2021"
publish = false

[dependencies]
http = "1"
base64 = "0.22"
uuid = { version = "1", features = ["v4"] }
jsonwebtoken = "9"
serde = { version = "1", features = ["derive"] }
serde_json = "1"
chrono = "0.4"
async-trait = "0.1"
tokio = { version = "1", features = ["sync", "macros", "rt"] }
reqwest = { version = "0.12", default-features = false, features = ["json", "rustls-tls"] }
thiserror = "1"
axum = "0.8"
tower-cookies = "0.11"
