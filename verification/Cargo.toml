[package]
name = "dioxus-clerk"
version = "0.2.0"
edition = "2021"
publish = false

[dependencies]
axum = "=0.8.9"
axum-extra = { version = "=0.12.6", default-features = false, features = ["cookie"] }
ct-codecs = "=1.1.8"
futures-util = "=0.3.34"
jwk-simple = { version = "=0.7.0", features = ["jwt-simple"] }
jwt-simple = { version = "=0.15.0", default-features = false, features = ["pure-rust"] }
reqwest = { version = "=0.13.5", default-features = false }
serde = { version = "=1.0.229", features = ["derive"] }
serde_json = "=1.0.154"
thiserror = "=2.0.21"
tower = "=0.5.3"
tracing = "=0.1.44"
web-time = "=1.1.0"
