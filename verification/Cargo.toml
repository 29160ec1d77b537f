[package]
name = "vollibrespot"
version = "0.3.0"
edition = "2021"
publish = false

[dependencies]
env_logger = "0.10"
futures = "0.3"
getopts = "0.2"
librespot = { version = "0.4", default-features = false }
log = "0.4"
serde = { version = "1", features = ["derive"] }
serde_json = "1"
tokio = { version = "1", features = ["rt", "macros", "net", "time", "signal"] }
