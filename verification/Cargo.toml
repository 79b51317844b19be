[package]
name = "tsmusicbot"
version = "0.1.0"
edition = "2021"
publish = false

[dependencies]
anyhow = "*"
audiopus = "*"
axum = "*"
byteorder = "*"
chrono = "*"
env_logger = "*"
futures = "*"
log = "*"
serde = { version = "*", features = ["derive"] }
serde_json = "*"
tokio = { version = "*", features = ["full"] }
tsclientlib = "*"
tsproto-packets = "*"
which = "*"
