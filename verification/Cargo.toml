[package]
name = "nethai_backend"
version = "0.1.0"
edition = "2021"
publish = false

[dependencies]
axum = { version = "*", features = ["macros"] }
pcap = "*"
serde = { version = "*", features = ["derive"] }
shuttle-axum = "*"
shuttle-runtime = "*"
tokio = { version = "*", features = ["full"] }
tower-http = { version = "*", features = ["cors"] }
