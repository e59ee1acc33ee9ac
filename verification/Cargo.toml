[package]
name = "proxy"
version = "0.1.0"
edition = "2021"
publish = false

[dependencies]
tokio = { version = "*", features = ["full"] }
axum = "*"
axum-server = { version = "*", features = ["tls-rustls"] }
reqwest = { version = "*", default-features = false, features = ["json", "rustls-tls"] }
serde = { version = "*", features = ["derive"] }
futures = "*"
log = "*"
systemd-journal-logger = "*"
image = { version = "*", default-features = false, features = ["png", "jpeg"] }
